//! An interpreter for the processor of an 8-bit handheld game console: its
//! register file, status flags, 64 KiB address space and the
//! fetch-decode-execute cycle, each step proved against a model of the
//! machine.

pub mod cpu;
pub mod instructions;
pub mod registers;

pub use cpu::{Fault, Gameboy, LoadError, Status};
pub use registers::{Flag, Register16, Register8};

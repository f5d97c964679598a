use vstd::prelude::*;

use crate::registers::{Flag, Register16, Register8};

verus! {

/// What an instruction does.
#[derive(Clone, Copy, Debug, PartialEq, Eq, Structural)]
pub enum Op {
    /// Nothing.
    Nop,
    /// Loads the 16-bit little-endian immediate into a pair.
    LoadPairImm(Register16),
    /// Stores a lane at the address held in a pair.
    StoreLaneAtPair(Register16, Register8),
    /// Adds one to a pair, wrapping; no flag changes.
    IncPair(Register16),
    /// Subtracts one from a pair, wrapping; no flag changes.
    DecPair(Register16),
    /// Adds one to a lane, wrapping; sets Zero and Half-Carry, clears Subtraction.
    IncLane(Register8),
    /// Subtracts one from a lane, wrapping; sets Zero and Half-Carry and Subtraction.
    DecLane(Register8),
    /// Loads the 8-bit immediate into a lane.
    LoadLaneImm(Register8),
    /// Shifts a lane right by one bit; the bit shifted out goes to Carry.
    ShiftRight(Register8),
    /// Jumps to the 16-bit little-endian immediate address.
    Jump,
    /// Jumps to the immediate address when the flag reads as the given value.
    JumpIf(Flag, bool),
    /// Stops the machine.
    Halt,
}

/// One row of the instruction table.
#[derive(Clone, Copy, Debug, PartialEq, Eq, Structural)]
pub struct Instr {
    pub op: Op,
    /// Bytes the instruction occupies, opcode included.
    pub length: u8,
    /// Machine cycles taken; for a conditional jump, when the jump is taken.
    pub cycles: u8,
    /// Machine cycles taken by a conditional jump that falls through.
    pub cycles_not_taken: u8,
}

/// A row of the table from its fields.
pub open spec fn entry(op: Op, length: u8, cycles: u8, cycles_not_taken: u8) -> Instr {
    Instr { op, length, cycles, cycles_not_taken }
}

/// The instruction table: each opcode byte that the machine knows, with its
/// action, length and cycle costs.
pub open spec fn instruction(opcode: u8) -> Option<Instr> {
    match opcode {
        0x00 => Some(entry(Op::Nop, 1, 1, 1)),
        0x01 => Some(entry(Op::LoadPairImm(Register16::BC), 3, 3, 3)),
        0x11 => Some(entry(Op::LoadPairImm(Register16::DE), 3, 3, 3)),
        0x21 => Some(entry(Op::LoadPairImm(Register16::HL), 3, 3, 3)),
        0x02 => Some(entry(Op::StoreLaneAtPair(Register16::BC, Register8::A), 1, 2, 2)),
        0x12 => Some(entry(Op::StoreLaneAtPair(Register16::DE, Register8::A), 1, 2, 2)),
        0x77 => Some(entry(Op::StoreLaneAtPair(Register16::HL, Register8::A), 1, 2, 2)),
        0x03 => Some(entry(Op::IncPair(Register16::BC), 1, 2, 2)),
        0x13 => Some(entry(Op::IncPair(Register16::DE), 1, 2, 2)),
        0x23 => Some(entry(Op::IncPair(Register16::HL), 1, 2, 2)),
        0x0B => Some(entry(Op::DecPair(Register16::BC), 1, 2, 2)),
        0x1B => Some(entry(Op::DecPair(Register16::DE), 1, 2, 2)),
        0x2B => Some(entry(Op::DecPair(Register16::HL), 1, 2, 2)),
        0x04 => Some(entry(Op::IncLane(Register8::B), 1, 1, 1)),
        0x0C => Some(entry(Op::IncLane(Register8::C), 1, 1, 1)),
        0x14 => Some(entry(Op::IncLane(Register8::D), 1, 1, 1)),
        0x1C => Some(entry(Op::IncLane(Register8::E), 1, 1, 1)),
        0x24 => Some(entry(Op::IncLane(Register8::H), 1, 1, 1)),
        0x2C => Some(entry(Op::IncLane(Register8::L), 1, 1, 1)),
        0x3C => Some(entry(Op::IncLane(Register8::A), 1, 1, 1)),
        0x05 => Some(entry(Op::DecLane(Register8::B), 1, 1, 1)),
        0x0D => Some(entry(Op::DecLane(Register8::C), 1, 1, 1)),
        0x15 => Some(entry(Op::DecLane(Register8::D), 1, 1, 1)),
        0x1D => Some(entry(Op::DecLane(Register8::E), 1, 1, 1)),
        0x25 => Some(entry(Op::DecLane(Register8::H), 1, 1, 1)),
        0x2D => Some(entry(Op::DecLane(Register8::L), 1, 1, 1)),
        0x3D => Some(entry(Op::DecLane(Register8::A), 1, 1, 1)),
        0x06 => Some(entry(Op::LoadLaneImm(Register8::B), 2, 2, 2)),
        0x0E => Some(entry(Op::LoadLaneImm(Register8::C), 2, 2, 2)),
        0x16 => Some(entry(Op::LoadLaneImm(Register8::D), 2, 2, 2)),
        0x1E => Some(entry(Op::LoadLaneImm(Register8::E), 2, 2, 2)),
        0x26 => Some(entry(Op::LoadLaneImm(Register8::H), 2, 2, 2)),
        0x2E => Some(entry(Op::LoadLaneImm(Register8::L), 2, 2, 2)),
        0x3E => Some(entry(Op::LoadLaneImm(Register8::A), 2, 2, 2)),
        0x07 => Some(entry(Op::ShiftRight(Register8::B), 2, 2, 2)),
        0x76 => Some(entry(Op::Halt, 1, 1, 1)),
        0xC3 => Some(entry(Op::Jump, 3, 4, 4)),
        0xC2 => Some(entry(Op::JumpIf(Flag::Zero, false), 3, 4, 3)),
        0xCA => Some(entry(Op::JumpIf(Flag::Zero, true), 3, 4, 3)),
        0xD2 => Some(entry(Op::JumpIf(Flag::Carry, false), 3, 4, 3)),
        0xDA => Some(entry(Op::JumpIf(Flag::Carry, true), 3, 4, 3)),
        _ => None,
    }
}

/// Looks an opcode byte up in the instruction table.
pub fn decode(opcode: u8) -> (r: Option<Instr>)
    ensures
        r == instruction(opcode),
{
    match opcode {
        0x00 => Some(make(Op::Nop, 1, 1, 1)),
        0x01 => Some(make(Op::LoadPairImm(Register16::BC), 3, 3, 3)),
        0x11 => Some(make(Op::LoadPairImm(Register16::DE), 3, 3, 3)),
        0x21 => Some(make(Op::LoadPairImm(Register16::HL), 3, 3, 3)),
        0x02 => Some(make(Op::StoreLaneAtPair(Register16::BC, Register8::A), 1, 2, 2)),
        0x12 => Some(make(Op::StoreLaneAtPair(Register16::DE, Register8::A), 1, 2, 2)),
        0x77 => Some(make(Op::StoreLaneAtPair(Register16::HL, Register8::A), 1, 2, 2)),
        0x03 => Some(make(Op::IncPair(Register16::BC), 1, 2, 2)),
        0x13 => Some(make(Op::IncPair(Register16::DE), 1, 2, 2)),
        0x23 => Some(make(Op::IncPair(Register16::HL), 1, 2, 2)),
        0x0B => Some(make(Op::DecPair(Register16::BC), 1, 2, 2)),
        0x1B => Some(make(Op::DecPair(Register16::DE), 1, 2, 2)),
        0x2B => Some(make(Op::DecPair(Register16::HL), 1, 2, 2)),
        0x04 => Some(make(Op::IncLane(Register8::B), 1, 1, 1)),
        0x0C => Some(make(Op::IncLane(Register8::C), 1, 1, 1)),
        0x14 => Some(make(Op::IncLane(Register8::D), 1, 1, 1)),
        0x1C => Some(make(Op::IncLane(Register8::E), 1, 1, 1)),
        0x24 => Some(make(Op::IncLane(Register8::H), 1, 1, 1)),
        0x2C => Some(make(Op::IncLane(Register8::L), 1, 1, 1)),
        0x3C => Some(make(Op::IncLane(Register8::A), 1, 1, 1)),
        0x05 => Some(make(Op::DecLane(Register8::B), 1, 1, 1)),
        0x0D => Some(make(Op::DecLane(Register8::C), 1, 1, 1)),
        0x15 => Some(make(Op::DecLane(Register8::D), 1, 1, 1)),
        0x1D => Some(make(Op::DecLane(Register8::E), 1, 1, 1)),
        0x25 => Some(make(Op::DecLane(Register8::H), 1, 1, 1)),
        0x2D => Some(make(Op::DecLane(Register8::L), 1, 1, 1)),
        0x3D => Some(make(Op::DecLane(Register8::A), 1, 1, 1)),
        0x06 => Some(make(Op::LoadLaneImm(Register8::B), 2, 2, 2)),
        0x0E => Some(make(Op::LoadLaneImm(Register8::C), 2, 2, 2)),
        0x16 => Some(make(Op::LoadLaneImm(Register8::D), 2, 2, 2)),
        0x1E => Some(make(Op::LoadLaneImm(Register8::E), 2, 2, 2)),
        0x26 => Some(make(Op::LoadLaneImm(Register8::H), 2, 2, 2)),
        0x2E => Some(make(Op::LoadLaneImm(Register8::L), 2, 2, 2)),
        0x3E => Some(make(Op::LoadLaneImm(Register8::A), 2, 2, 2)),
        0x07 => Some(make(Op::ShiftRight(Register8::B), 2, 2, 2)),
        0x76 => Some(make(Op::Halt, 1, 1, 1)),
        0xC3 => Some(make(Op::Jump, 3, 4, 4)),
        0xC2 => Some(make(Op::JumpIf(Flag::Zero, false), 3, 4, 3)),
        0xCA => Some(make(Op::JumpIf(Flag::Zero, true), 3, 4, 3)),
        0xD2 => Some(make(Op::JumpIf(Flag::Carry, false), 3, 4, 3)),
        0xDA => Some(make(Op::JumpIf(Flag::Carry, true), 3, 4, 3)),
        _ => None,
    }
}

/// Builds a row of the table.
fn make(op: Op, length: u8, cycles: u8, cycles_not_taken: u8) -> (r: Instr)
    ensures
        r == entry(op, length, cycles, cycles_not_taken),
{
    Instr { op, length, cycles, cycles_not_taken }
}

/// Number of immediate operand bytes that an action reads after its opcode.
pub open spec fn operand_bytes(op: Op) -> nat {
    match op {
        Op::LoadPairImm(_) | Op::Jump | Op::JumpIf(_, _) => 2,
        Op::LoadLaneImm(_) => 1,
        _ => 0,
    }
}

/// Every row of the table covers its opcode and the operands its action
/// reads, and costs at least one cycle; only a conditional jump has two costs.
pub proof fn lemma_table_shape(opcode: u8)
    ensures
        instruction(opcode) matches Some(i) ==> {
            &&& operand_bytes(i.op) < i.length <= 3
            &&& 1 <= i.cycles_not_taken <= i.cycles <= 4
            &&& !(i.op is JumpIf) ==> i.cycles_not_taken == i.cycles
        },
{
}

} // verus!

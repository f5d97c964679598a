use gameboy::cpu::{ENTRY_POINT, MEM_SIZE};
use gameboy::instructions::{decode, Op};
use gameboy::{Fault, Flag, Gameboy, LoadError, Register16, Register8, Status};

/// A machine whose memory holds `code` from the entry point.
fn with_code(code: &[u8]) -> Gameboy {
    let mut image = vec![0u8; 0x100];
    image.extend_from_slice(code);
    Gameboy::load(&image).unwrap()
}

#[test]
fn load_reads_back() {
    let image: Vec<u8> = (0..300u32).map(|i| (i * 7 % 256) as u8).collect();
    let g = Gameboy::load(&image).unwrap();
    assert_eq!(&g.mem[..image.len()], &image[..]);
    assert!(g.mem[image.len()..].iter().all(|b| *b == 0));
    assert_eq!(g.mem.len(), 0x10000);
    assert_eq!(g.pc, 0x0100);
    assert_eq!((g.af, g.bc, g.de, g.hl, g.sp), (0, 0, 0, 0, 0));
    assert_eq!(g.cycles, 0);
}

#[test]
fn load_empty_image() {
    let g = Gameboy::load(&[]).unwrap();
    assert!(g.mem.iter().all(|b| *b == 0));
    assert_eq!(g.pc, ENTRY_POINT);
}

#[test]
fn load_full_address_space() {
    let image = vec![0xAAu8; MEM_SIZE];
    let g = Gameboy::load(&image).unwrap();
    assert_eq!(g.mem[0xFFFF], 0xAA);
    assert_eq!(g.mem[0], 0xAA);
}

#[test]
fn load_rejects_oversized_image() {
    let image = vec![0u8; MEM_SIZE + 1];
    match Gameboy::load(&image) {
        Err(e) => assert_eq!(e, LoadError::ImageTooLarge { len: 0x10001 }),
        Ok(_) => panic!("an image larger than memory was accepted"),
    }
}

#[test]
fn nop_advances_one_byte() {
    let mut g = with_code(&[0x00]);
    g.bc = 0x1234;
    g.af = 0x5670;
    let before_mem = g.mem;
    assert_eq!(g.execute(), Ok(Status::Running));
    assert_eq!(g.pc, 0x101);
    assert_eq!(g.cycles, 1);
    assert_eq!((g.af, g.bc, g.de, g.hl, g.sp), (0x5670, 0x1234, 0, 0, 0));
    assert!(g.mem == before_mem);
}

#[test]
fn nop_at_other_address() {
    let mut g = with_code(&[]);
    g.pc = 0x4000;
    assert_eq!(g.execute(), Ok(Status::Running));
    assert_eq!(g.pc, 0x4001);
}

#[test]
fn load_bc_immediate_little_endian() {
    let mut g = with_code(&[0x01, 0x34, 0x12]);
    assert_eq!(g.execute(), Ok(Status::Running));
    assert_eq!(g.read_u16(Register16::BC), 0x1234);
    assert_eq!(g.pc, 0x103);
    assert_eq!(g.cycles, 3);
}

#[test]
fn load_de_and_hl_immediate() {
    let mut g = with_code(&[0x11, 0xCD, 0xAB, 0x21, 0x01, 0x80]);
    g.execute().unwrap();
    g.execute().unwrap();
    assert_eq!(g.de, 0xABCD);
    assert_eq!(g.hl, 0x8001);
    assert_eq!(g.pc, 0x106);
}

#[test]
fn jump_absolute() {
    let mut g = with_code(&[0xC3, 0x00, 0x02]);
    assert_eq!(g.execute(), Ok(Status::Running));
    assert_eq!(g.pc, 0x0200);
    assert_eq!(g.cycles, 4);
}

#[test]
fn inc_b_wraps_and_sets_zero() {
    let mut g = with_code(&[0x04]);
    g.write_u8(Register8::B, 0xFF);
    g.write_u8(Register8::C, 0x42);
    assert_eq!(g.execute(), Ok(Status::Running));
    assert_eq!(g.read_u8(Register8::B), 0x00);
    assert_eq!(g.read_u8(Register8::C), 0x42);
    assert!(g.read_flag(Flag::Zero));
    assert!(!g.read_flag(Flag::Subtraction));
    assert!(g.read_flag(Flag::HalfCarry));
    assert_eq!(g.pc, 0x101);
    assert_eq!(g.cycles, 1);
}

#[test]
fn inc_b_keeps_carry() {
    let mut g = with_code(&[0x04]);
    g.write_u8(Register8::B, 0x01);
    g.write_flag(Flag::Carry, true);
    g.write_flag(Flag::Subtraction, true);
    g.execute().unwrap();
    assert_eq!(g.read_u8(Register8::B), 0x02);
    assert!(!g.read_flag(Flag::Zero));
    assert!(!g.read_flag(Flag::Subtraction));
    assert!(!g.read_flag(Flag::HalfCarry));
    assert!(g.read_flag(Flag::Carry));
}

#[test]
fn dec_b_sets_subtraction_and_half_carry() {
    let mut g = with_code(&[0x05, 0x05]);
    g.write_u8(Register8::B, 0x10);
    g.execute().unwrap();
    assert_eq!(g.read_u8(Register8::B), 0x0F);
    assert!(g.read_flag(Flag::Subtraction));
    assert!(g.read_flag(Flag::HalfCarry));
    assert!(!g.read_flag(Flag::Zero));
    g.write_u8(Register8::B, 0x01);
    g.execute().unwrap();
    assert_eq!(g.read_u8(Register8::B), 0x00);
    assert!(g.read_flag(Flag::Zero));
    assert!(!g.read_flag(Flag::HalfCarry));
}

#[test]
fn dec_b_wraps() {
    let mut g = with_code(&[0x05]);
    g.execute().unwrap();
    assert_eq!(g.read_u8(Register8::B), 0xFF);
    assert!(!g.read_flag(Flag::Zero));
    assert!(g.read_flag(Flag::HalfCarry));
}

#[test]
fn inc_a_keeps_flags_lane() {
    let mut g = with_code(&[0x3C]);
    g.write_u8(Register8::A, 0x0F);
    g.execute().unwrap();
    assert_eq!(g.read_u8(Register8::A), 0x10);
    assert_eq!(g.read_u8(Register8::F), 0x20);
}

#[test]
fn store_a_at_bc() {
    let mut g = with_code(&[0x02]);
    g.write_u8(Register8::A, 0x99);
    g.write_u16(Register16::BC, 0xC000);
    assert_eq!(g.execute(), Ok(Status::Running));
    assert_eq!(g.mem[0xC000], 0x99);
    assert_eq!(g.pc, 0x101);
    assert_eq!(g.cycles, 2);
}

#[test]
fn store_at_top_address() {
    let mut g = with_code(&[0x77]);
    g.write_u8(Register8::A, 0x5A);
    g.write_u16(Register16::HL, 0xFFFF);
    g.execute().unwrap();
    assert_eq!(g.mem[0xFFFF], 0x5A);
}

#[test]
fn inc_and_dec_pairs_wrap_without_flags() {
    let mut g = with_code(&[0x03, 0x0B, 0x0B]);
    g.write_u16(Register16::BC, 0xFFFF);
    g.write_u8(Register8::F, 0x00);
    g.execute().unwrap();
    assert_eq!(g.bc, 0x0000);
    assert_eq!(g.read_u8(Register8::F), 0x00);
    assert_eq!(g.pc, 0x101);
    g.execute().unwrap();
    assert_eq!(g.bc, 0xFFFF);
    g.execute().unwrap();
    assert_eq!(g.bc, 0xFFFE);
    assert_eq!(g.pc, 0x103);
    assert_eq!(g.cycles, 6);
}

#[test]
fn load_b_immediate() {
    let mut g = with_code(&[0x06, 0x42]);
    assert_eq!(g.execute(), Ok(Status::Running));
    assert_eq!(g.read_u8(Register8::B), 0x42);
    assert_eq!(g.pc, 0x102);
}

#[test]
fn shift_b_right_moves_bit_to_carry() {
    let mut g = with_code(&[0x07, 0x00, 0x07, 0x00]);
    g.write_u8(Register8::B, 0x03);
    g.execute().unwrap();
    assert_eq!(g.read_u8(Register8::B), 0x01);
    assert!(g.read_flag(Flag::Carry));
    assert!(!g.read_flag(Flag::Zero));
    assert_eq!(g.pc, 0x102);
    g.execute().unwrap();
    assert_eq!(g.read_u8(Register8::B), 0x00);
    assert!(g.read_flag(Flag::Carry));
    assert!(g.read_flag(Flag::Zero));
    assert_eq!(g.pc, 0x104);
}

#[test]
fn jump_if_not_zero() {
    let mut g = with_code(&[0xC2, 0x00, 0x30]);
    assert_eq!(g.execute(), Ok(Status::Running));
    assert_eq!(g.pc, 0x3000);
    assert_eq!(g.cycles, 4);

    let mut g = with_code(&[0xC2, 0x00, 0x30]);
    g.write_flag(Flag::Zero, true);
    assert_eq!(g.execute(), Ok(Status::Running));
    assert_eq!(g.pc, 0x103);
    assert_eq!(g.cycles, 3);
}

#[test]
fn jump_if_zero() {
    let mut g = with_code(&[0xCA, 0x34, 0x12]);
    g.write_flag(Flag::Zero, true);
    g.execute().unwrap();
    assert_eq!(g.pc, 0x1234);

    let mut g = with_code(&[0xCA, 0x34, 0x12]);
    g.execute().unwrap();
    assert_eq!(g.pc, 0x103);
}

#[test]
fn jump_on_carry() {
    let mut g = with_code(&[0xDA, 0x00, 0x40]);
    g.write_flag(Flag::Carry, true);
    g.execute().unwrap();
    assert_eq!(g.pc, 0x4000);

    let mut g = with_code(&[0xD2, 0x00, 0x40]);
    g.write_flag(Flag::Carry, true);
    g.execute().unwrap();
    assert_eq!(g.pc, 0x103);
}

#[test]
fn unknown_opcode_fault() {
    let mut g = with_code(&[0xFF]);
    g.bc = 0x1234;
    let before_mem = g.mem;
    assert_eq!(g.execute(), Err(Fault::UnknownOpcode { opcode: 0xFF, address: 0x100 }));
    assert_eq!(g.pc, 0x100);
    assert_eq!(g.cycles, 0);
    assert_eq!(g.bc, 0x1234);
    assert!(g.mem == before_mem);
}

#[test]
fn unknown_opcode_fault_elsewhere() {
    let mut g = with_code(&[]);
    g.mem[0x8123] = 0xFF;
    g.pc = 0x8123;
    assert_eq!(g.execute(), Err(Fault::UnknownOpcode { opcode: 0xFF, address: 0x8123 }));
    assert_eq!(g.pc, 0x8123);
}

#[test]
fn instruction_past_end_of_memory() {
    let mut g = with_code(&[]);
    g.mem[0xFFFE] = 0x01;
    g.pc = 0xFFFE;
    assert_eq!(g.execute(), Err(Fault::OutOfRange { opcode: 0x01, address: 0xFFFE }));
    assert_eq!(g.pc, 0xFFFE);
    assert_eq!(g.bc, 0);
}

#[test]
fn cycle_counter_full() {
    let mut g = with_code(&[0x00]);
    g.cycles = u64::MAX;
    assert_eq!(g.execute(), Err(Fault::CycleOverflow { opcode: 0x00, address: 0x100 }));
    assert_eq!(g.pc, 0x100);
    g.cycles = u64::MAX - 1;
    assert_eq!(g.execute(), Ok(Status::Running));
    assert_eq!(g.cycles, u64::MAX);
}

#[test]
fn halt_stops_run() {
    let mut g = with_code(&[0x00, 0x04, 0x76, 0x04]);
    assert_eq!(g.run(100), Ok(Status::Halted));
    assert_eq!(g.pc, 0x103);
    assert_eq!(g.read_u8(Register8::B), 1);
    assert_eq!(g.cycles, 3);
}

#[test]
fn run_stops_after_budget() {
    let mut g = with_code(&[]);
    assert_eq!(g.run(5), Ok(Status::Running));
    assert_eq!(g.pc, 0x105);
    assert_eq!(g.cycles, 5);
    assert_eq!(g.run(0), Ok(Status::Running));
    assert_eq!(g.pc, 0x105);
}

#[test]
fn run_stops_at_fault() {
    let mut g = with_code(&[0x06, 0x07, 0xC3, 0x00, 0x02]);
    g.mem[0x200] = 0x04;
    g.mem[0x201] = 0xFF;
    assert_eq!(g.run(1000), Err(Fault::UnknownOpcode { opcode: 0xFF, address: 0x201 }));
    assert_eq!(g.read_u8(Register8::B), 0x08);
    assert_eq!(g.pc, 0x201);
    assert_eq!(g.cycles, 2 + 4 + 1);
}

#[test]
fn decode_table_rows() {
    let nop = decode(0x00).unwrap();
    assert_eq!(nop.op, Op::Nop);
    assert_eq!(nop.length, 1);
    let ld = decode(0x01).unwrap();
    assert_eq!(ld.op, Op::LoadPairImm(Register16::BC));
    assert_eq!(ld.length, 3);
    let st = decode(0x02).unwrap();
    assert_eq!(st.op, Op::StoreLaneAtPair(Register16::BC, Register8::A));
    assert_eq!(st.length, 1);
    let jz = decode(0xCA).unwrap();
    assert_eq!(jz.op, Op::JumpIf(Flag::Zero, true));
    assert_eq!((jz.cycles, jz.cycles_not_taken), (4, 3));
    assert!(decode(0xFF).is_none());
}

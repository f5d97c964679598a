use vstd::prelude::*;

use crate::instructions::{decode, instruction, lemma_table_shape, operand_bytes, Instr, Op};
use crate::registers::{
    flag, lane, pair, with_flag, with_lane, with_pair, Flag, Register8,
};

verus! {

/// Number of bytes in the address space, 0x0000 to 0xFFFF inclusive.
pub const MEM_SIZE: usize = 0x10000;

/// Address at which execution begins after a load.
pub const ENTRY_POINT: u16 = 0x0100;

/// The processor and its memory.
pub struct Gameboy {
    pub af: u16,
    pub bc: u16,
    pub de: u16,
    pub hl: u16,
    pub sp: u16,
    pub pc: u16,
    pub mem: [u8; 0x10000],
    pub cycles: u64,
}

/// Mathematical model of a whole machine state.
pub struct Machine {
    pub af: u16,
    pub bc: u16,
    pub de: u16,
    pub hl: u16,
    pub sp: u16,
    pub pc: u16,
    pub mem: Seq<u8>,
    pub cycles: u64,
}

impl View for Gameboy {
    type V = Machine;

    open spec fn view(&self) -> Machine {
        Machine {
            af: self.af,
            bc: self.bc,
            de: self.de,
            hl: self.hl,
            sp: self.sp,
            pc: self.pc,
            mem: self.mem@,
            cycles: self.cycles,
        }
    }
}

/// Why a step could not run. The state is left as it was before the step.
#[derive(Clone, Copy, Debug, PartialEq, Eq, Structural)]
pub enum Fault {
    /// The byte at `address` is not an opcode of the instruction table.
    UnknownOpcode { opcode: u8, address: u16 },
    /// The instruction at `address` runs past the last byte of memory.
    OutOfRange { opcode: u8, address: u16 },
    /// The cycle counter cannot take the cost of the instruction at `address`.
    CycleOverflow { opcode: u8, address: u16 },
}

/// What the machine does after a step that ran.
#[derive(Clone, Copy, Debug, PartialEq, Eq, Structural)]
pub enum Status {
    /// It goes on with the instruction at the program counter.
    Running,
    /// It executed a halt instruction.
    Halted,
}

/// Why an image could not be loaded.
#[derive(Clone, Copy, Debug, PartialEq, Eq, Structural)]
pub enum LoadError {
    /// The image holds more bytes than the address space.
    ImageTooLarge { len: usize },
}

/// The state right after loading `image`: memory holds the image from address
/// zero and zeros after it, every register is zero but the program counter,
/// which is at the entry point, and no cycle has elapsed.
pub open spec fn loaded(image: Seq<u8>) -> Machine {
    Machine {
        af: 0,
        bc: 0,
        de: 0,
        hl: 0,
        sp: 0,
        pc: ENTRY_POINT,
        mem: Seq::new(MEM_SIZE as nat, |i: int| if i < image.len() { image[i] } else { 0u8 }),
        cycles: 0,
    }
}

/// The byte after the opcode.
pub open spec fn imm8(m: Machine) -> u8 {
    m.mem[m.pc + 1]
}

/// The two bytes after the opcode, low byte first.
pub open spec fn imm16(m: Machine) -> u16 {
    (m.mem[m.pc + 1] + 256 * m.mem[m.pc + 2]) as u16
}

/// Whether an instruction's jump is taken; read before anything changes.
pub open spec fn taken(m: Machine, op: Op) -> bool {
    match op {
        Op::JumpIf(f, want) => flag(m, f) == want,
        _ => true,
    }
}

/// Cycles an instruction costs in state `m`.
pub open spec fn cost(m: Machine, ins: Instr) -> u8 {
    if taken(m, ins.op) {
        ins.cycles
    } else {
        ins.cycles_not_taken
    }
}

/// Where the program counter goes after an instruction.
pub open spec fn next_pc(m: Machine, ins: Instr) -> u16 {
    match ins.op {
        Op::Jump => imm16(m),
        Op::JumpIf(_, _) => if taken(m, ins.op) {
            imm16(m)
        } else {
            (m.pc + ins.length) as u16
        },
        _ => (m.pc + ins.length) as u16,
    }
}

/// Flags after adding one to `v`.
pub open spec fn inc_flags(m: Machine, v: u8) -> Machine {
    let r = v.wrapping_add(1);
    with_flag(
        with_flag(with_flag(m, Flag::Zero, r == 0), Flag::Subtraction, false),
        Flag::HalfCarry,
        v & 0x0F == 0x0F,
    )
}

/// Flags after subtracting one from `v`.
pub open spec fn dec_flags(m: Machine, v: u8) -> Machine {
    let r = v.wrapping_sub(1);
    with_flag(
        with_flag(with_flag(m, Flag::Zero, r == 0), Flag::Subtraction, true),
        Flag::HalfCarry,
        v & 0x0F == 0x00,
    )
}

/// Flags after shifting `v` right by one bit.
pub open spec fn shift_flags(m: Machine, v: u8) -> Machine {
    with_flag(
        with_flag(
            with_flag(with_flag(m, Flag::Zero, v >> 1 == 0), Flag::Subtraction, false),
            Flag::HalfCarry,
            false,
        ),
        Flag::Carry,
        v & 1 == 1,
    )
}

/// What an instruction does to registers, flags and memory; the program
/// counter and the cycle counter are left to `step`.
pub open spec fn effect(m: Machine, op: Op) -> Machine {
    match op {
        Op::LoadPairImm(r) => with_pair(m, r, imm16(m)),
        Op::StoreLaneAtPair(p, r) => Machine { mem: m.mem.update(pair(m, p) as int, lane(m, r)), ..m },
        Op::IncPair(r) => with_pair(m, r, pair(m, r).wrapping_add(1)),
        Op::DecPair(r) => with_pair(m, r, pair(m, r).wrapping_sub(1)),
        Op::IncLane(r) => inc_flags(with_lane(m, r, lane(m, r).wrapping_add(1)), lane(m, r)),
        Op::DecLane(r) => dec_flags(with_lane(m, r, lane(m, r).wrapping_sub(1)), lane(m, r)),
        Op::LoadLaneImm(r) => with_lane(m, r, imm8(m)),
        Op::ShiftRight(r) => shift_flags(with_lane(m, r, lane(m, r) >> 1), lane(m, r)),
        _ => m,
    }
}

/// One fetch-decode-execute step from state `m`: the state after it, and
/// whether it ran. A step that faults changes nothing.
pub open spec fn step(m: Machine) -> (Machine, Result<Status, Fault>) {
    let opcode = m.mem[m.pc as int];
    match instruction(opcode) {
        None => (m, Err(Fault::UnknownOpcode { opcode, address: m.pc })),
        Some(ins) => if m.pc + ins.length > 0xFFFF {
            (m, Err(Fault::OutOfRange { opcode, address: m.pc }))
        } else if m.cycles + cost(m, ins) > u64::MAX {
            (m, Err(Fault::CycleOverflow { opcode, address: m.pc }))
        } else {
            let e = effect(m, ins.op);
            (
                Machine { pc: next_pc(m, ins), cycles: (m.cycles + cost(m, ins)) as u64, ..e },
                Ok(if ins.op is Halt { Status::Halted } else { Status::Running }),
            )
        },
    }
}

/// Up to `n` steps from state `m`, stopping early at a halt or a fault.
/// `Ok(Status::Running)` means that all `n` steps ran.
pub open spec fn run_steps(m: Machine, n: nat) -> (Machine, Result<Status, Fault>)
    decreases n,
{
    if n == 0 {
        (m, Ok(Status::Running))
    } else {
        let (next, r) = step(m);
        if r == Ok::<Status, Fault>(Status::Running) {
            run_steps(next, (n - 1) as nat)
        } else {
            (next, r)
        }
    }
}

impl Gameboy {
    /// A machine with `image` copied to the start of memory, ready to run from
    /// the entry point. An image larger than memory is refused.
    pub fn load(image: &[u8]) -> (r: Result<Gameboy, LoadError>)
        ensures
            image@.len() <= MEM_SIZE ==> (r matches Ok(g) && g@ == loaded(image@)),
            image@.len() > MEM_SIZE ==> r == Err::<Gameboy, LoadError>(
                LoadError::ImageTooLarge { len: image@.len() as usize },
            ),
    {
        if image.len() > MEM_SIZE {
            return Err(LoadError::ImageTooLarge { len: image.len() });
        }
        let mut mem = [0u8; 0x10000];
        let mut i: usize = 0;
        while i < image.len()
            invariant
                i <= image@.len() <= MEM_SIZE,
                mem@.len() == MEM_SIZE,
                forall|j: int| 0 <= j < i ==> mem@[j] == image@[j],
                forall|j: int| i <= j < MEM_SIZE ==> mem@[j] == 0,
            decreases image@.len() - i,
        {
            mem[i] = image[i];
            i = i + 1;
        }
        let g = Gameboy { af: 0, bc: 0, de: 0, hl: 0, sp: 0, pc: ENTRY_POINT, mem, cycles: 0 };
        assert(g@.mem =~= loaded(image@).mem);
        Ok(g)
    }
}

impl Gameboy {
    /// The byte after the opcode at the program counter.
    fn next_u8(&self) -> (r: u8)
        requires
            self.pc + 1 < MEM_SIZE,
        ensures
            r == imm8(self@),
    {
        self.mem[self.pc as usize + 1]
    }

    /// The two bytes after the opcode at the program counter, low byte first.
    fn next_u16(&self) -> (r: u16)
        requires
            self.pc + 2 < MEM_SIZE,
        ensures
            r == imm16(self@),
    {
        let lo = self.mem[self.pc as usize + 1] as u16;
        let hi = self.mem[self.pc as usize + 2] as u16;
        lo + 256 * hi
    }

    /// Performs what `op` does to registers, flags and memory.
    fn apply(&mut self, op: Op)
        requires
            old(self).pc + operand_bytes(op) < MEM_SIZE,
        ensures
            final(self)@ == effect(old(self)@, op),
    {
        match op {
            Op::LoadPairImm(r) => {
                let nn = self.next_u16();
                self.write_u16(r, nn);
            },
            Op::StoreLaneAtPair(p, r) => {
                let addr = self.read_u16(p);
                let v = self.read_u8(r);
                self.mem[addr as usize] = v;
                assert(self@.mem =~= old(self)@.mem.update(addr as int, v));
            },
            Op::IncPair(r) => {
                let v = self.read_u16(r);
                self.write_u16(r, v.wrapping_add(1));
            },
            Op::DecPair(r) => {
                let v = self.read_u16(r);
                self.write_u16(r, v.wrapping_sub(1));
            },
            Op::IncLane(r) => {
                let v = self.read_u8(r);
                let res = v.wrapping_add(1);
                self.write_u8(r, res);
                self.write_flag(Flag::Zero, res == 0);
                self.write_flag(Flag::Subtraction, false);
                self.write_flag(Flag::HalfCarry, v & 0x0F == 0x0F);
            },
            Op::DecLane(r) => {
                let v = self.read_u8(r);
                let res = v.wrapping_sub(1);
                self.write_u8(r, res);
                self.write_flag(Flag::Zero, res == 0);
                self.write_flag(Flag::Subtraction, true);
                self.write_flag(Flag::HalfCarry, v & 0x0F == 0x00);
            },
            Op::LoadLaneImm(r) => {
                let n = self.next_u8();
                self.write_u8(r, n);
            },
            Op::ShiftRight(r) => {
                let v = self.read_u8(r);
                self.write_u8(r, v >> 1);
                self.write_flag(Flag::Zero, v >> 1 == 0);
                self.write_flag(Flag::Subtraction, false);
                self.write_flag(Flag::HalfCarry, false);
                self.write_flag(Flag::Carry, v & 1 == 1);
            },
            Op::Nop | Op::Jump | Op::JumpIf(_, _) | Op::Halt => {},
        }
    }

    /// Runs one fetch-decode-execute step: the instruction at the program
    /// counter is looked up in the table and performed, the program counter
    /// moves past it or to its jump target, and its cycle cost is added. An
    /// unknown opcode, an instruction that runs past the end of memory, or a
    /// cycle counter that would overflow is reported as a fault, with the
    /// state left as it was.
    pub fn execute(&mut self) -> (r: Result<Status, Fault>)
        ensures
            (final(self)@, r) == step(old(self)@),
    {
        let pc = self.pc;
        let opcode = self.mem[pc as usize];
        proof {
            lemma_table_shape(opcode);
        }
        let ins = match decode(opcode) {
            Some(ins) => ins,
            None => {
                return Err(Fault::UnknownOpcode { opcode, address: pc });
            },
        };
        if pc as u32 + ins.length as u32 > 0xFFFF {
            return Err(Fault::OutOfRange { opcode, address: pc });
        }
        let taken = match ins.op {
            Op::JumpIf(f, want) => self.read_flag(f) == want,
            _ => true,
        };
        let cost = if taken {
            ins.cycles
        } else {
            ins.cycles_not_taken
        };
        if self.cycles > u64::MAX - cost as u64 {
            return Err(Fault::CycleOverflow { opcode, address: pc });
        }
        let next = match ins.op {
            Op::Jump => self.next_u16(),
            Op::JumpIf(_, _) => if taken {
                self.next_u16()
            } else {
                pc + ins.length as u16
            },
            _ => pc + ins.length as u16,
        };
        self.apply(ins.op);
        self.pc = next;
        self.cycles = self.cycles + cost as u64;
        match ins.op {
            Op::Halt => Ok(Status::Halted),
            _ => Ok(Status::Running),
        }
    }

    /// Runs up to `max_steps` steps, stopping early after a halt or at a
    /// fault. Returns `Ok(Status::Running)` when every step ran and the
    /// machine did not halt, `Ok(Status::Halted)` after a halt, and the fault
    /// otherwise.
    pub fn run(&mut self, max_steps: u64) -> (r: Result<Status, Fault>)
        ensures
            (final(self)@, r) == run_steps(old(self)@, max_steps as nat),
    {
        let mut i: u64 = 0;
        while i < max_steps
            invariant
                i <= max_steps,
                run_steps(self@, (max_steps - i) as nat) == run_steps(
                    old(self)@,
                    max_steps as nat,
                ),
            decreases max_steps - i,
        {
            let r = self.execute();
            match r {
                Ok(Status::Running) => {},
                _ => {
                    return r;
                },
            }
            i = i + 1;
        }
        Ok(Status::Running)
    }
}

/// Loading an image and reading memory back gives the image, then zeros to
/// the end of memory; every register is zero, the program counter is at the
/// entry point and the cycle counter is zero.
pub proof fn lemma_load_read_back(image: Seq<u8>)
    requires
        image.len() <= MEM_SIZE,
    ensures
        loaded(image).mem.len() == MEM_SIZE,
        loaded(image).mem.subrange(0, image.len() as int) == image,
        forall|a: int| image.len() <= a < MEM_SIZE ==> loaded(image).mem[a] == 0,
        loaded(image).pc == 0x0100,
        loaded(image).af == 0 && loaded(image).bc == 0 && loaded(image).de == 0,
        loaded(image).hl == 0 && loaded(image).sp == 0,
        loaded(image).cycles == 0,
{
    assert(loaded(image).mem.subrange(0, image.len() as int) =~= image);
}

/// A no-op at address `a` moves the program counter to `a + 1`, adds one
/// cycle and changes nothing else.
pub proof fn lemma_nop(m: Machine)
    requires
        m.mem.len() == MEM_SIZE,
        m.mem[m.pc as int] == 0x00,
        m.pc < 0xFFFF,
        m.cycles < u64::MAX,
    ensures
        step(m) == (Machine { pc: (m.pc + 1) as u16, cycles: (m.cycles + 1) as u64, ..m }, Ok::<
            Status,
            Fault,
        >(Status::Running)),
{
}

/// Incrementing `B` when it holds 0xFF wraps it to zero and sets the Zero flag.
pub proof fn lemma_inc_b_wraps(m: Machine)
    requires
        m.mem.len() == MEM_SIZE,
        m.mem[m.pc as int] == 0x04,
        m.pc < 0xFFFF,
        m.cycles < u64::MAX,
        lane(m, Register8::B) == 0xFF,
    ensures
        step(m).1 == Ok::<Status, Fault>(Status::Running),
        lane(step(m).0, Register8::B) == 0,
        flag(step(m).0, Flag::Zero),
        step(m).0.pc == m.pc + 1,
{
    assert(0xFFu8.wrapping_add(1) == 0);
    assert(0xFFu8 & 0x0F == 0x0F) by (bit_vector);
    let z = with_lane(m, Register8::B, 0);
    let f1 = with_flag(z, Flag::Zero, true);
    let f2 = with_flag(f1, Flag::Subtraction, false);
    crate::registers::lemma_lane_independence(m, Register8::B, Register8::B, 0);
    crate::registers::lemma_flag_write(z, Flag::Zero, Flag::Zero, true);
    crate::registers::lemma_flag_write(f1, Flag::Subtraction, Flag::Zero, false);
    crate::registers::lemma_flag_write(f2, Flag::HalfCarry, Flag::Zero, true);
}

/// A byte that is not in the instruction table, at any address, is reported
/// with that address and byte, and the state does not change.
pub proof fn lemma_unknown_opcode(m: Machine)
    requires
        m.mem.len() == MEM_SIZE,
        instruction(m.mem[m.pc as int]) is None,
    ensures
        step(m) == (m, Err::<Status, Fault>(
            Fault::UnknownOpcode { opcode: m.mem[m.pc as int], address: m.pc },
        )),
{
}

/// 0xFF is not in the instruction table.
pub proof fn lemma_ff_unknown()
    ensures
        instruction(0xFF) is None,
{
}

} // verus!

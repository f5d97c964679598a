use vstd::prelude::*;

use crate::cpu::{Gameboy, Machine};

verus! {

/// The four status flags held in the upper nibble of `F`.
#[derive(Clone, Copy, Debug, PartialEq, Eq, Structural)]
pub enum Flag {
    Zero,
    Subtraction,
    HalfCarry,
    Carry,
}

/// The 16-bit register pairs.
#[derive(Clone, Copy, Debug, PartialEq, Eq, Structural)]
pub enum Register16 {
    AF,
    BC,
    DE,
    HL,
}

/// The 8-bit lanes: each is the high or the low byte of one pair.
#[derive(Clone, Copy, Debug, PartialEq, Eq, Structural)]
pub enum Register8 {
    A,
    B,
    C,
    D,
    E,
    F,
    H,
    L,
}

/// The pair that holds a lane.
pub open spec fn pair_of(r: Register8) -> Register16 {
    match r {
        Register8::A | Register8::F => Register16::AF,
        Register8::B | Register8::C => Register16::BC,
        Register8::D | Register8::E => Register16::DE,
        Register8::H | Register8::L => Register16::HL,
    }
}

/// Whether a lane is the high byte of its pair.
pub open spec fn is_high(r: Register8) -> bool {
    match r {
        Register8::A | Register8::B | Register8::D | Register8::H => true,
        _ => false,
    }
}

/// The bit of `F` that holds a flag.
pub open spec fn flag_mask(f: Flag) -> u8 {
    match f {
        Flag::Zero => 0x80,
        Flag::Subtraction => 0x40,
        Flag::HalfCarry => 0x20,
        Flag::Carry => 0x10,
    }
}

/// Value of a pair.
pub open spec fn pair(m: Machine, r: Register16) -> u16 {
    match r {
        Register16::AF => m.af,
        Register16::BC => m.bc,
        Register16::DE => m.de,
        Register16::HL => m.hl,
    }
}

/// The machine with one pair replaced.
pub open spec fn with_pair(m: Machine, r: Register16, v: u16) -> Machine {
    match r {
        Register16::AF => Machine { af: v, ..m },
        Register16::BC => Machine { bc: v, ..m },
        Register16::DE => Machine { de: v, ..m },
        Register16::HL => Machine { hl: v, ..m },
    }
}

/// The high byte of a 16-bit word.
pub open spec fn high_byte(p: u16) -> u8 {
    (p >> 8) as u8
}

/// The low byte of a 16-bit word.
pub open spec fn low_byte(p: u16) -> u8 {
    (p & 0xFF) as u8
}

/// A word with its high byte replaced.
pub open spec fn with_high_byte(p: u16, v: u8) -> u16 {
    (p & 0x00FF) | ((v as u16) << 8)
}

/// A word with its low byte replaced.
pub open spec fn with_low_byte(p: u16, v: u8) -> u16 {
    (p & 0xFF00) | (v as u16)
}

/// Value of a lane.
pub open spec fn lane(m: Machine, r: Register8) -> u8 {
    let p = pair(m, pair_of(r));
    if is_high(r) {
        high_byte(p)
    } else {
        low_byte(p)
    }
}

/// The machine with one lane replaced and its sibling lane kept.
pub open spec fn with_lane(m: Machine, r: Register8, v: u8) -> Machine {
    let p = pair(m, pair_of(r));
    with_pair(m, pair_of(r), if is_high(r) { with_high_byte(p, v) } else { with_low_byte(p, v) })
}

/// Whether a flag is set.
pub open spec fn flag(m: Machine, f: Flag) -> bool {
    lane(m, Register8::F) & flag_mask(f) != 0
}

/// `F` with one flag bit set or cleared.
pub open spec fn with_flag_bit(fl: u8, f: Flag, v: bool) -> u8 {
    if v {
        fl | flag_mask(f)
    } else {
        fl & !flag_mask(f)
    }
}

/// The machine with one flag set or cleared.
pub open spec fn with_flag(m: Machine, f: Flag, v: bool) -> Machine {
    with_lane(m, Register8::F, with_flag_bit(lane(m, Register8::F), f, v))
}

proof fn lemma_bytes(p: u16, v: u8)
    by (bit_vector)
    ensures
        high_byte(with_high_byte(p, v)) == v,
        low_byte(with_high_byte(p, v)) == low_byte(p),
        low_byte(with_low_byte(p, v)) == v,
        high_byte(with_low_byte(p, v)) == high_byte(p),
{
}

proof fn lemma_flag_bits(fl: u8, v: bool)
    by (bit_vector)
    ensures
        (fl | 0x80u8) & 0x80u8 != 0,
        (fl & !0x80u8) & 0x80u8 == 0,
        (fl | 0x40u8) & 0x40u8 != 0,
        (fl & !0x40u8) & 0x40u8 == 0,
        (fl | 0x20u8) & 0x20u8 != 0,
        (fl & !0x20u8) & 0x20u8 == 0,
        (fl | 0x10u8) & 0x10u8 != 0,
        (fl & !0x10u8) & 0x10u8 == 0,
{
}

proof fn lemma_other_bits_kept(fl: u8, m: u8, n: u8)
    by (bit_vector)
    requires
        m & n == 0,
    ensures
        (fl | m) & n == fl & n,
        (fl & !m) & n == fl & n,
{
}

/// Writing a pair and reading it back gives the value written.
pub proof fn lemma_pair_round_trip(m: Machine, r: Register16, v: u16)
    ensures
        pair(with_pair(m, r, v), r) == v,
{
}

/// Writing a lane and reading it back gives the value written, and every
/// other lane, the sibling in the same pair included, keeps its value.
pub proof fn lemma_lane_independence(m: Machine, r: Register8, s: Register8, v: u8)
    ensures
        lane(with_lane(m, r, v), r) == v,
        r != s ==> lane(with_lane(m, r, v), s) == lane(m, s),
{
    let p = pair(m, pair_of(r));
    lemma_bytes(p, v);
}

/// Setting or clearing one flag makes it read back as written, keeps the
/// other three flags and the low nibble of `F`, and leaves `A` alone.
pub proof fn lemma_flag_write(m: Machine, f: Flag, g: Flag, v: bool)
    ensures
        flag(with_flag(m, f, v), f) == v,
        f != g ==> flag(with_flag(m, f, v), g) == flag(m, g),
        lane(with_flag(m, f, v), Register8::F) & 0x0F == lane(m, Register8::F) & 0x0F,
        lane(with_flag(m, f, v), Register8::A) == lane(m, Register8::A),
{
    let fl = lane(m, Register8::F);
    let nf = with_flag_bit(fl, f, v);
    lemma_lane_independence(m, Register8::F, Register8::F, nf);
    lemma_lane_independence(m, Register8::F, Register8::A, nf);
    lemma_flag_bits(fl, v);
    let mf = flag_mask(f);
    assert(mf & 0x0F == 0) by (bit_vector)
        requires
            mf == 0x80u8 || mf == 0x40u8 || mf == 0x20u8 || mf == 0x10u8,
    ;
    lemma_other_bits_kept(fl, mf, 0x0F);
    if f != g {
        let mg = flag_mask(g);
        assert(mf & mg == 0) by (bit_vector)
            requires
                mf == 0x80u8 || mf == 0x40u8 || mf == 0x20u8 || mf == 0x10u8,
                mg == 0x80u8 || mg == 0x40u8 || mg == 0x20u8 || mg == 0x10u8,
                mf != mg,
        ;
        lemma_other_bits_kept(fl, flag_mask(f), flag_mask(g));
    }
}

impl Gameboy {
    /// Whether `flag` is set in `F`.
    pub fn read_flag(&self, flag: Flag) -> (r: bool)
        ensures
            r == crate::registers::flag(self@, flag),
    {
        let f = self.read_u8(Register8::F);
        match flag {
            Flag::Zero => f & 0x80 != 0,
            Flag::Subtraction => f & 0x40 != 0,
            Flag::HalfCarry => f & 0x20 != 0,
            Flag::Carry => f & 0x10 != 0,
        }
    }

    /// Sets `flag` to `value`, leaving every other bit of every register as it was.
    pub fn write_flag(&mut self, flag: Flag, value: bool)
        ensures
            final(self)@ == with_flag(old(self)@, flag, value),
    {
        let f = self.read_u8(Register8::F);
        let mask: u8 = match flag {
            Flag::Zero => 0x80,
            Flag::Subtraction => 0x40,
            Flag::HalfCarry => 0x20,
            Flag::Carry => 0x10,
        };
        let updated = if value {
            f | mask
        } else {
            f & !mask
        };
        self.write_u8(Register8::F, updated);
    }

    /// Value of a pair.
    pub fn read_u16(&self, reg: Register16) -> (r: u16)
        ensures
            r == pair(self@, reg),
    {
        match reg {
            Register16::AF => self.af,
            Register16::BC => self.bc,
            Register16::DE => self.de,
            Register16::HL => self.hl,
        }
    }

    /// Replaces the value of a pair.
    pub fn write_u16(&mut self, reg: Register16, value: u16)
        ensures
            final(self)@ == with_pair(old(self)@, reg, value),
    {
        match reg {
            Register16::AF => self.af = value,
            Register16::BC => self.bc = value,
            Register16::DE => self.de = value,
            Register16::HL => self.hl = value,
        }
    }

    /// Value of a lane.
    pub fn read_u8(&self, reg: Register8) -> (r: u8)
        ensures
            r == lane(self@, reg),
    {
        match reg {
            Register8::A => (self.af >> 8) as u8,
            Register8::F => (self.af & 0xFF) as u8,
            Register8::B => (self.bc >> 8) as u8,
            Register8::C => (self.bc & 0xFF) as u8,
            Register8::D => (self.de >> 8) as u8,
            Register8::E => (self.de & 0xFF) as u8,
            Register8::H => (self.hl >> 8) as u8,
            Register8::L => (self.hl & 0xFF) as u8,
        }
    }

    /// Replaces the value of a lane, keeping the other lane of its pair.
    pub fn write_u8(&mut self, reg: Register8, value: u8)
        ensures
            final(self)@ == with_lane(old(self)@, reg, value),
    {
        let v = value as u16;
        match reg {
            Register8::A => self.af = (self.af & 0x00FF) | (v << 8),
            Register8::F => self.af = (self.af & 0xFF00) | v,
            Register8::B => self.bc = (self.bc & 0x00FF) | (v << 8),
            Register8::C => self.bc = (self.bc & 0xFF00) | v,
            Register8::D => self.de = (self.de & 0x00FF) | (v << 8),
            Register8::E => self.de = (self.de & 0xFF00) | v,
            Register8::H => self.hl = (self.hl & 0x00FF) | (v << 8),
            Register8::L => self.hl = (self.hl & 0xFF00) | v,
        }
    }
}

} // verus!

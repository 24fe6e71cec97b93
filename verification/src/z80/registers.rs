//! The register file: eight 8-bit cells, four 16-bit pair views over them,
//! the stack pointer, the program counter and the four flags.

use vstd::prelude::*;

use crate::mmu::WRAM_START;

verus! {

#[derive(Copy, Clone, Debug, PartialEq, Eq, Structural)]
pub enum Reg8 {
    A,
    B,
    C,
    D,
    E,
    H,
    L,
}

#[derive(Copy, Clone, Debug, PartialEq, Eq, Structural)]
pub enum Reg16 {
    AF,
    BC,
    DE,
    HL,
    SP,
    PC,
}

#[derive(Copy, Clone, Debug, PartialEq, Eq, Structural)]
pub enum Flag {
    Z,
    S,
    H,
    C,
}

impl Reg8 {
    /// The pair view that this register is one half of.
    pub open spec fn pair(self) -> Reg16 {
        match self {
            Reg8::A => Reg16::AF,
            Reg8::B | Reg8::C => Reg16::BC,
            Reg8::D | Reg8::E => Reg16::DE,
            Reg8::H | Reg8::L => Reg16::HL,
        }
    }

    /// Whether this register is the more significant half of its pair.
    pub open spec fn is_high(self) -> bool {
        self == Reg8::A || self == Reg8::B || self == Reg8::D || self == Reg8::H
    }
}

impl Flag {
    /// The position of the flag's bit in the flag cell.
    pub open spec fn spec_bit(self) -> u8 {
        match self {
            Flag::Z => 7,
            Flag::S => 6,
            Flag::H => 5,
            Flag::C => 4,
        }
    }

    /// The weight of the flag's bit: two to the power of its position.
    pub open spec fn weight(self) -> u8 {
        match self {
            Flag::Z => 0x80,
            Flag::S => 0x40,
            Flag::H => 0x20,
            Flag::C => 0x10,
        }
    }

    pub fn bit(&self) -> (r: u8)
        ensures
            r == self.spec_bit(),
    {
        match *self {
            Flag::Z => 7,
            Flag::S => 6,
            Flag::H => 5,
            Flag::C => 4,
        }
    }
}

/// The mathematical value of a register file.
pub struct RegisterState {
    pub a: u8,
    pub f: u8,
    pub b: u8,
    pub c: u8,
    pub d: u8,
    pub e: u8,
    pub h: u8,
    pub l: u8,
    pub sp: u16,
    pub pc: u16,
}

impl RegisterState {
    /// The state at power-on: everything zero, the program counter at the
    /// first address of working RAM.
    pub open spec fn boot() -> RegisterState {
        RegisterState { a: 0, f: 0, b: 0, c: 0, d: 0, e: 0, h: 0, l: 0, sp: 0, pc: 0xC000 }
    }

    pub open spec fn read8(self, reg: Reg8) -> u8 {
        match reg {
            Reg8::A => self.a,
            Reg8::B => self.b,
            Reg8::C => self.c,
            Reg8::D => self.d,
            Reg8::E => self.e,
            Reg8::H => self.h,
            Reg8::L => self.l,
        }
    }

    pub open spec fn write8(self, reg: Reg8, val: u8) -> RegisterState {
        match reg {
            Reg8::A => RegisterState { a: val, ..self },
            Reg8::B => RegisterState { b: val, ..self },
            Reg8::C => RegisterState { c: val, ..self },
            Reg8::D => RegisterState { d: val, ..self },
            Reg8::E => RegisterState { e: val, ..self },
            Reg8::H => RegisterState { h: val, ..self },
            Reg8::L => RegisterState { l: val, ..self },
        }
    }

    /// A pair reads as its high cell times 256 plus its low cell.
    pub open spec fn read16(self, reg: Reg16) -> u16 {
        match reg {
            Reg16::AF => (self.a * 256 + self.f) as u16,
            Reg16::BC => (self.b * 256 + self.c) as u16,
            Reg16::DE => (self.d * 256 + self.e) as u16,
            Reg16::HL => (self.h * 256 + self.l) as u16,
            Reg16::SP => self.sp,
            Reg16::PC => self.pc,
        }
    }

    /// A pair write stores `val / 256` in the high cell and all eight bits
    /// of `val % 256` in the low cell.
    pub open spec fn write16(self, reg: Reg16, val: u16) -> RegisterState {
        let hi = (val / 256) as u8;
        let lo = (val % 256) as u8;
        match reg {
            Reg16::AF => RegisterState { a: hi, f: lo, ..self },
            Reg16::BC => RegisterState { b: hi, c: lo, ..self },
            Reg16::DE => RegisterState { d: hi, e: lo, ..self },
            Reg16::HL => RegisterState { h: hi, l: lo, ..self },
            Reg16::SP => RegisterState { sp: val, ..self },
            Reg16::PC => RegisterState { pc: val, ..self },
        }
    }

    pub open spec fn flag(self, flag: Flag) -> bool {
        (self.f / flag.weight()) % 2 == 1
    }

    /// Setting a flag changes the one bit of the flag cell that carries it.
    pub open spec fn set_flag(self, flag: Flag, val: bool) -> RegisterState {
        if self.flag(flag) == val {
            self
        } else if val {
            RegisterState { f: (self.f + flag.weight()) as u8, ..self }
        } else {
            RegisterState { f: (self.f - flag.weight()) as u8, ..self }
        }
    }

    /// The four flags set at once, in the order zero, subtract, half-carry,
    /// carry.
    pub open spec fn set_flags(self, z: bool, s: bool, h: bool, c: bool) -> RegisterState {
        self.set_flag(Flag::Z, z).set_flag(Flag::S, s).set_flag(Flag::H, h).set_flag(Flag::C, c)
    }
}

#[derive(Copy, Clone, Debug)]
pub struct Registers {
    a: u8,
    f: u8,
    b: u8,
    c: u8,
    d: u8,
    e: u8,
    h: u8,
    l: u8,
    sp: u16,
    pc: u16,
}

impl View for Registers {
    type V = RegisterState;

    closed spec fn view(&self) -> RegisterState {
        RegisterState {
            a: self.a,
            f: self.f,
            b: self.b,
            c: self.c,
            d: self.d,
            e: self.e,
            h: self.h,
            l: self.l,
            sp: self.sp,
            pc: self.pc,
        }
    }
}

proof fn lemma_pair_bits(hi: u8, lo: u8, val: u16)
    by (bit_vector)
    ensures
        ((hi as u16) << 8) | (lo as u16) == hi * 256 + lo,
        (val >> 8) as u8 == val / 256,
        (val & 0xFF) as u8 == val % 256,
{
}

proof fn lemma_flag_bits(f: u8)
    by (bit_vector)
    ensures
        ((f >> 7u8) & 1 == 1) == ((f / 0x80u8) % 2 == 1),
        ((f >> 6u8) & 1 == 1) == ((f / 0x40u8) % 2 == 1),
        ((f >> 5u8) & 1 == 1) == ((f / 0x20u8) % 2 == 1),
        ((f >> 4u8) & 1 == 1) == ((f / 0x10u8) % 2 == 1),
        f | (1u8 << 7u8) == (if (f / 0x80u8) % 2 == 1 { f } else { (f + 0x80u8) as u8 }),
        f | (1u8 << 6u8) == (if (f / 0x40u8) % 2 == 1 { f } else { (f + 0x40u8) as u8 }),
        f | (1u8 << 5u8) == (if (f / 0x20u8) % 2 == 1 { f } else { (f + 0x20u8) as u8 }),
        f | (1u8 << 4u8) == (if (f / 0x10u8) % 2 == 1 { f } else { (f + 0x10u8) as u8 }),
        f & !(1u8 << 7u8) == (if (f / 0x80u8) % 2 == 1 { (f - 0x80u8) as u8 } else { f }),
        f & !(1u8 << 6u8) == (if (f / 0x40u8) % 2 == 1 { (f - 0x40u8) as u8 } else { f }),
        f & !(1u8 << 5u8) == (if (f / 0x20u8) % 2 == 1 { (f - 0x20u8) as u8 } else { f }),
        f & !(1u8 << 4u8) == (if (f / 0x10u8) % 2 == 1 { (f - 0x10u8) as u8 } else { f }),
{
}

impl Registers {
    pub fn new() -> (r: Registers)
        ensures
            r@ == RegisterState::boot(),
    {
        Registers { a: 0, f: 0, b: 0, c: 0, d: 0, e: 0, h: 0, l: 0, sp: 0, pc: WRAM_START }
    }

    pub fn read8(&self, reg: Reg8) -> (r: u8)
        ensures
            r == self@.read8(reg),
    {
        match reg {
            Reg8::A => self.a,
            Reg8::B => self.b,
            Reg8::C => self.c,
            Reg8::D => self.d,
            Reg8::E => self.e,
            Reg8::H => self.h,
            Reg8::L => self.l,
        }
    }

    pub fn read16(&self, reg: Reg16) -> (r: u16)
        ensures
            r == self@.read16(reg),
    {
        proof {
            lemma_pair_bits(self.a, self.f, 0);
            lemma_pair_bits(self.b, self.c, 0);
            lemma_pair_bits(self.d, self.e, 0);
            lemma_pair_bits(self.h, self.l, 0);
        }
        match reg {
            Reg16::AF => ((self.a as u16) << 8) | (self.f as u16),
            Reg16::BC => ((self.b as u16) << 8) | (self.c as u16),
            Reg16::DE => ((self.d as u16) << 8) | (self.e as u16),
            Reg16::HL => ((self.h as u16) << 8) | (self.l as u16),
            Reg16::SP => self.sp,
            Reg16::PC => self.pc,
        }
    }

    pub fn write8(&mut self, reg: Reg8, val: u8)
        ensures
            final(self)@ == old(self)@.write8(reg, val),
    {
        match reg {
            Reg8::A => self.a = val,
            Reg8::B => self.b = val,
            Reg8::C => self.c = val,
            Reg8::D => self.d = val,
            Reg8::E => self.e = val,
            Reg8::H => self.h = val,
            Reg8::L => self.l = val,
        }
    }

    pub fn write16(&mut self, reg: Reg16, val: u16)
        ensures
            final(self)@ == old(self)@.write16(reg, val),
    {
        proof {
            lemma_pair_bits(0, 0, val);
        }
        let hi: u8 = (val >> 8) as u8;
        let lo: u8 = (val & 0xFF) as u8;
        match reg {
            Reg16::AF => {
                self.a = hi;
                self.f = lo;
            },
            Reg16::BC => {
                self.b = hi;
                self.c = lo;
            },
            Reg16::DE => {
                self.d = hi;
                self.e = lo;
            },
            Reg16::HL => {
                self.h = hi;
                self.l = lo;
            },
            Reg16::SP => self.sp = val,
            Reg16::PC => self.pc = val,
        }
    }

    pub fn get_flag(&self, flag: Flag) -> (r: bool)
        ensures
            r == self@.flag(flag),
    {
        proof {
            lemma_flag_bits(self.f);
        }
        ((self.f >> flag.bit()) & 0x1) == 1
    }

    pub fn set_flag(&mut self, flag: Flag, val: bool)
        ensures
            final(self)@ == old(self)@.set_flag(flag, val),
    {
        proof {
            lemma_flag_bits(self.f);
        }
        if val {
            self.f = self.f | (0x1u8 << flag.bit());
        } else {
            self.f = self.f & !(0x1u8 << flag.bit());
        }
    }

    /// Sets the four flags at once, in the order zero, subtract, half-carry,
    /// carry.
    pub fn set_flags(&mut self, z: bool, s: bool, h: bool, c: bool)
        ensures
            final(self)@ == old(self)@.set_flags(z, s, h, c),
    {
        self.set_flag(Flag::Z, z);
        self.set_flag(Flag::S, s);
        self.set_flag(Flag::H, h);
        self.set_flag(Flag::C, c);
    }
}

/// A register reads back the value last written to it, and a write to one
/// register leaves every other register, the flag cell, the stack pointer
/// and the program counter as they were.
pub proof fn lemma_write8_read8(s: RegisterState, reg: Reg8, x: u8)
    ensures
        s.write8(reg, x).read8(reg) == x,
        forall|other: Reg8| other != reg ==> s.write8(reg, x).read8(other) == s.read8(other),
        s.write8(reg, x).f == s.f,
        s.write8(reg, x).sp == s.sp,
        s.write8(reg, x).pc == s.pc,
{
}

/// A value written to a register shows in that register's half of the pair
/// view, the other half keeps its value, and writing the pair's value back
/// through the pair view changes nothing, so the register still reads as
/// the value written.
pub proof fn lemma_write8_pair_round_trip(s: RegisterState, reg: Reg8, x: u8)
    ensures
        reg.is_high() ==> s.write8(reg, x).read16(reg.pair()) / 256 == x,
        reg.is_high() ==> s.write8(reg, x).read16(reg.pair()) % 256 == s.read16(reg.pair()) % 256,
        !reg.is_high() ==> s.write8(reg, x).read16(reg.pair()) % 256 == x,
        !reg.is_high() ==> s.write8(reg, x).read16(reg.pair()) / 256 == s.read16(reg.pair()) / 256,
        s.write8(reg, x).write16(reg.pair(), s.write8(reg, x).read16(reg.pair())) == s.write8(
            reg,
            x,
        ),
        s.write8(reg, x).write16(reg.pair(), s.write8(reg, x).read16(reg.pair())).read8(reg) == x,
{
}

/// A pair reads back the value last written to it; its two cells hold the
/// value's high and low byte in full, so that recombining them gives the
/// value again; every cell outside the pair keeps its value.
pub proof fn lemma_write16_read16(s: RegisterState, reg: Reg16, v: u16)
    ensures
        s.write16(reg, v).read16(reg) == v,
        forall|other: Reg16| other != reg ==> s.write16(reg, v).read16(other) == s.read16(other),
        reg == Reg16::AF ==> s.write16(reg, v).a == v / 256 && s.write16(reg, v).f == v % 256,
        reg == Reg16::BC ==> s.write16(reg, v).read8(Reg8::B) == v / 256 && s.write16(
            reg,
            v,
        ).read8(Reg8::C) == v % 256,
        reg == Reg16::DE ==> s.write16(reg, v).read8(Reg8::D) == v / 256 && s.write16(
            reg,
            v,
        ).read8(Reg8::E) == v % 256,
        reg == Reg16::HL ==> s.write16(reg, v).read8(Reg8::H) == v / 256 && s.write16(
            reg,
            v,
        ).read8(Reg8::L) == v % 256,
{
}

/// Writing a pair's own value back to it changes nothing.
pub proof fn lemma_write16_of_read16(s: RegisterState, reg: Reg16)
    ensures
        s.write16(reg, s.read16(reg)) == s,
{
}

/// A flag reads back the state last given to it, the other three flags and
/// the low four bits of the flag cell keep theirs, and no register changes.
pub proof fn lemma_set_flag_get_flag(s: RegisterState, flag: Flag, val: bool)
    ensures
        s.set_flag(flag, val).flag(flag) == val,
        forall|other: Flag| other != flag ==> s.set_flag(flag, val).flag(other) == s.flag(other),
        s.set_flag(flag, val).f % 16 == s.f % 16,
        forall|reg: Reg8| s.set_flag(flag, val).read8(reg) == s.read8(reg),
        s.set_flag(flag, val).sp == s.sp,
        s.set_flag(flag, val).pc == s.pc,
{
    assert forall|other: Flag| true implies {
        &&& (other == flag ==> s.set_flag(flag, val).flag(other) == val)
        &&& (other != flag ==> s.set_flag(flag, val).flag(other) == s.flag(other))
        &&& s.set_flag(flag, val).f % 16 == s.f % 16
    } by {
        lemma_flag_weights(s.f, flag.weight(), other.weight());
    }
    assert(s.set_flag(flag, val).flag(flag) == val);
}

proof fn lemma_flag_weights(f: u8, w: u8, o: u8)
    by (bit_vector)
    requires
        w == 0x80 || w == 0x40 || w == 0x20 || w == 0x10,
        o == 0x80 || o == 0x40 || o == 0x20 || o == 0x10,
    ensures
        (f / w) % 2 == 0 ==> f + w < 256 && (((f + w) as u8) / w) % 2 == 1 && ((f + w) as u8) % 16
            == f % 16 && (o != w ==> (((f + w) as u8) / o) % 2 == (f / o) % 2),
        (f / w) % 2 == 1 ==> f >= w && (((f - w) as u8) / w) % 2 == 0 && ((f - w) as u8) % 16 == f
            % 16 && (o != w ==> (((f - w) as u8) / o) % 2 == (f / o) % 2),
{
}

/// After the four flags are set at once each reads as given, and nothing
/// but the high four bits of the flag cell has changed.
pub proof fn lemma_set_flags(s: RegisterState, z: bool, n: bool, h: bool, c: bool)
    ensures
        s.set_flags(z, n, h, c).flag(Flag::Z) == z,
        s.set_flags(z, n, h, c).flag(Flag::S) == n,
        s.set_flags(z, n, h, c).flag(Flag::H) == h,
        s.set_flags(z, n, h, c).flag(Flag::C) == c,
        s.set_flags(z, n, h, c).f % 16 == s.f % 16,
        s.set_flags(z, n, h, c) == (RegisterState { f: s.set_flags(z, n, h, c).f, ..s }),
{
    let s1 = s.set_flag(Flag::Z, z);
    let s2 = s1.set_flag(Flag::S, n);
    let s3 = s2.set_flag(Flag::H, h);
    lemma_set_flag_get_flag(s, Flag::Z, z);
    lemma_set_flag_get_flag(s1, Flag::S, n);
    lemma_set_flag_get_flag(s2, Flag::H, h);
    lemma_set_flag_get_flag(s3, Flag::C, c);
}

} // verus!

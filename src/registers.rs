//! The register file: program counter, stack pointer, the four register
//! pairs, the interrupt-master-enable bit, and the stack helpers.

use vstd::prelude::*;

use crate::memory::{lemma_write16_little_endian, next_addr, Memory, MemoryModel};

verus! {

/// Zero flag mask in F.
pub const ZERO_FLAG: u8 = 0x80;
/// Subtract flag mask in F.
pub const SUBTRACT_FLAG: u8 = 0x40;
/// Half-carry flag mask in F.
pub const HALF_CARRY_FLAG: u8 = 0x20;
/// Carry flag mask in F.
pub const CARRY_FLAG: u8 = 0x10;

/// Two 8-bit halves of a 16-bit register.
#[derive(Clone, Copy, Debug, PartialEq, Eq, Structural)]
pub struct RegisterPair {
    pub high: u8,
    pub low: u8,
}

/// The 8-bit registers.
#[derive(Clone, Copy, Debug, PartialEq, Eq, Structural)]
pub enum R8 {
    B,
    C,
    A,
    F,
    D,
    E,
    H,
    L,
}

/// The 16-bit registers.
#[derive(Clone, Copy, Debug, PartialEq, Eq, Structural)]
pub enum R16 {
    PC,
    SP,
    BC,
    AF,
    DE,
    HL,
}

/// The register file.
#[derive(Clone, Copy, Debug, PartialEq, Eq, Structural)]
pub struct Registers {
    pub pc: u16,
    pub sp: u16,
    pub bc: RegisterPair,
    pub af: RegisterPair,
    pub de: RegisterPair,
    pub hl: RegisterPair,
    pub ime: bool,
}

/// The 16-bit value of a pair: high byte above low byte.
pub open spec fn pair_value(p: RegisterPair) -> u16 {
    ((p.high as u16) << 8u16) | (p.low as u16)
}

/// The pair holding a 16-bit value.
pub open spec fn pair_of(v: u16) -> RegisterPair {
    RegisterPair { high: (v >> 8u16) as u8, low: (v & 0xFFu16) as u8 }
}

/// The flag byte with the four given flags and a zero low nibble.
pub open spec fn flag_bits(z: bool, n: bool, h: bool, c: bool) -> u8 {
    (if z { 0x80u8 } else { 0u8 }) | (if n { 0x40u8 } else { 0u8 }) | (if h { 0x20u8 } else {
        0u8
    }) | (if c { 0x10u8 } else { 0u8 })
}

pub proof fn lemma_pair_round_trip(v: u16)
    ensures
        pair_value(pair_of(v)) == v,
{
    assert((((v >> 8u16) as u8 as u16) << 8u16) | ((v & 0xFFu16) as u8 as u16) == v)
        by (bit_vector);
}

pub proof fn lemma_flag_bits_facts(z: bool, n: bool, h: bool, c: bool)
    ensures
        flag_bits(z, n, h, c) & 0x0F == 0,
        (flag_bits(z, n, h, c) & 0x80 != 0) == z,
        (flag_bits(z, n, h, c) & 0x40 != 0) == n,
        (flag_bits(z, n, h, c) & 0x20 != 0) == h,
        (flag_bits(z, n, h, c) & 0x10 != 0) == c,
{
    let f = flag_bits(z, n, h, c);
    assert(f & 0x0F == 0 && (f & 0x80 != 0) == z && (f & 0x40 != 0) == n && (f & 0x20 != 0) == h
        && (f & 0x10 != 0) == c) by (bit_vector)
        requires
            f == (if z { 0x80u8 } else { 0u8 }) | (if n { 0x40u8 } else { 0u8 }) | (if h {
                0x20u8
            } else {
                0u8
            }) | (if c { 0x10u8 } else { 0u8 }),
    ;
}

/// `a - k`, wrapping at 16 bits.
pub open spec fn sub_wrap(a: u16, k: u16) -> u16 {
    ((a + 0x10000 - k) % 0x10000) as u16
}

/// `a + k`, wrapping at 16 bits.
pub open spec fn add_wrap(a: u16, k: u16) -> u16 {
    ((a + k) % 0x10000) as u16
}

/// The registers and bus after pushing `v`: SP drops by two, the high byte
/// lands at SP + 1 and the low byte at SP.
pub open spec fn push_spec(r: Registers, m: MemoryModel, v: u16) -> (Registers, MemoryModel) {
    let sp = sub_wrap(r.sp, 2);
    (r.with_sp(sp), m.write8(sub_wrap(r.sp, 1), (v >> 8u16) as u8).write8(sp, (v & 0xFFu16) as u8))
}

/// The value on top of the stack: low byte at SP, high byte at SP + 1.
pub open spec fn peek_spec(r: Registers, m: MemoryModel) -> u16 {
    m.read16(r.sp)
}

/// A push followed by a pop gives back the pushed value and the stack pointer.
pub proof fn lemma_push_pop(r: Registers, m: MemoryModel, v: u16)
    requires
        m.wf(),
    ensures
        peek_spec(push_spec(r, m, v).0, push_spec(r, m, v).1) == v,
        add_wrap(push_spec(r, m, v).0.sp, 2) == r.sp,
        push_spec(r, m, v).1.wf(),
{
    let sp = sub_wrap(r.sp, 2);
    assert(next_addr(sp) == sub_wrap(r.sp, 1));
    assert(push_spec(r, m, v).1 == m.write16(sp, v));
    lemma_write16_little_endian(m, sp, v);
    crate::memory::lemma_read_after_write(m, sub_wrap(r.sp, 1), (v >> 8u16) as u8, 0);
    crate::memory::lemma_read_after_write(
        m.write8(sub_wrap(r.sp, 1), (v >> 8u16) as u8),
        sp,
        (v & 0xFFu16) as u8,
        0,
    );
}

pub broadcast proof fn lemma_with_flags(r: Registers, z: bool, n: bool, h: bool, c: bool)
    ensures
        (#[trigger] r.with_flags(z, n, h, c)).wf(),
        r.with_flags(z, n, h, c).zf() == z,
        r.with_flags(z, n, h, c).nf() == n,
        r.with_flags(z, n, h, c).hf() == h,
        r.with_flags(z, n, h, c).cf() == c,
{
    lemma_flag_bits_facts(z, n, h, c);
}

pub broadcast proof fn lemma_with_af(r: Registers, v: u16)
    ensures
        (#[trigger] r.with_r16(R16::AF, v)).wf(),
{
    assert((((v & 0xFFF0u16) & 0xFFu16) as u8) & 0x0F == 0) by (bit_vector);
}

impl Registers {
    /// F's low nibble is zero.
    pub open spec fn wf(self) -> bool {
        self.af.low & 0x0F == 0
    }

    pub open spec fn r8(self, r: R8) -> u8 {
        match r {
            R8::B => self.bc.high,
            R8::C => self.bc.low,
            R8::A => self.af.high,
            R8::F => self.af.low,
            R8::D => self.de.high,
            R8::E => self.de.low,
            R8::H => self.hl.high,
            R8::L => self.hl.low,
        }
    }

    pub open spec fn r16(self, r: R16) -> u16 {
        match r {
            R16::PC => self.pc,
            R16::SP => self.sp,
            R16::BC => pair_value(self.bc),
            R16::AF => pair_value(self.af),
            R16::DE => pair_value(self.de),
            R16::HL => pair_value(self.hl),
        }
    }

    pub open spec fn zf(self) -> bool {
        self.af.low & ZERO_FLAG != 0
    }

    pub open spec fn nf(self) -> bool {
        self.af.low & SUBTRACT_FLAG != 0
    }

    pub open spec fn hf(self) -> bool {
        self.af.low & HALF_CARRY_FLAG != 0
    }

    pub open spec fn cf(self) -> bool {
        self.af.low & CARRY_FLAG != 0
    }

    /// The registers with `r` set to `v`; F keeps only its high nibble.
    pub open spec fn with_r8(self, r: R8, v: u8) -> Registers {
        match r {
            R8::B => Registers { bc: RegisterPair { high: v, ..self.bc }, ..self },
            R8::C => Registers { bc: RegisterPair { low: v, ..self.bc }, ..self },
            R8::A => Registers { af: RegisterPair { high: v, ..self.af }, ..self },
            R8::F => Registers { af: RegisterPair { low: v & 0xF0, ..self.af }, ..self },
            R8::D => Registers { de: RegisterPair { high: v, ..self.de }, ..self },
            R8::E => Registers { de: RegisterPair { low: v, ..self.de }, ..self },
            R8::H => Registers { hl: RegisterPair { high: v, ..self.hl }, ..self },
            R8::L => Registers { hl: RegisterPair { low: v, ..self.hl }, ..self },
        }
    }

    /// The registers with `r` set to `v`; a write to AF clears F's low nibble.
    pub open spec fn with_r16(self, r: R16, v: u16) -> Registers {
        match r {
            R16::PC => Registers { pc: v, ..self },
            R16::SP => Registers { sp: v, ..self },
            R16::BC => Registers { bc: pair_of(v), ..self },
            R16::AF => Registers { af: pair_of(v & 0xFFF0), ..self },
            R16::DE => Registers { de: pair_of(v), ..self },
            R16::HL => Registers { hl: pair_of(v), ..self },
        }
    }

    pub open spec fn with_pc(self, pc: u16) -> Registers {
        Registers { pc, ..self }
    }

    pub open spec fn with_sp(self, sp: u16) -> Registers {
        Registers { sp, ..self }
    }

    /// The registers with PC advanced by `k`, wrapping at 16 bits.
    pub open spec fn advance(self, k: u16) -> Registers {
        self.with_pc(((self.pc + k) % 0x10000) as u16)
    }

    /// The registers with all four flags replaced.
    pub open spec fn with_flags(self, z: bool, n: bool, h: bool, c: bool) -> Registers {
        Registers { af: RegisterPair { low: flag_bits(z, n, h, c), ..self.af }, ..self }
    }

    /// The registers with each flag given as `Some` replaced, the others kept.
    pub open spec fn with_some_flags(
        self,
        z: Option<bool>,
        n: Option<bool>,
        h: Option<bool>,
        c: Option<bool>,
    ) -> Registers {
        self.with_flags(
            match z {
                Some(b) => b,
                None => self.zf(),
            },
            match n {
                Some(b) => b,
                None => self.nf(),
            },
            match h {
                Some(b) => b,
                None => self.hf(),
            },
            match c {
                Some(b) => b,
                None => self.cf(),
            },
        )
    }

    pub open spec fn with_ime(self, ime: bool) -> Registers {
        Registers { ime, ..self }
    }

    /// Every register zero, interrupts disabled.
    pub open spec fn new_spec() -> Registers {
        Registers {
            pc: 0,
            sp: 0,
            bc: RegisterPair { high: 0, low: 0 },
            af: RegisterPair { high: 0, low: 0 },
            de: RegisterPair { high: 0, low: 0 },
            hl: RegisterPair { high: 0, low: 0 },
            ime: false,
        }
    }

    /// Every register zero, interrupts disabled.
    pub fn new() -> (r: Registers)
        ensures
            r == Registers::new_spec(),
            r.wf(),
    {
        let zero = RegisterPair { high: 0, low: 0 };
        proof {
            assert(0u8 & 0x0F == 0) by (bit_vector);
        }
        Registers { pc: 0, sp: 0, bc: zero, af: zero, de: zero, hl: zero, ime: false }
    }

    pub fn get_pc(&self) -> (r: u16)
        ensures
            r == self.pc,
    {
        self.read_r16(R16::PC)
    }

    /// Adds `by` to PC, wrapping at 16 bits.
    pub fn inc_pc(&mut self, by: u16)
        ensures
            *final(self) == old(self).advance(by),
    {
        let pc = self.get_pc().wrapping_add(by);
        self.write_r16(R16::PC, pc);
    }

    pub fn set_pc(&mut self, pc: u16)
        ensures
            *final(self) == old(self).with_pc(pc),
    {
        self.write_r16(R16::PC, pc)
    }

    pub fn get_flags(&self) -> (r: u8)
        ensures
            r == self.af.low,
    {
        self.read_r8(R8::F)
    }

    pub fn set_ime(&mut self, ime: bool)
        ensures
            *final(self) == old(self).with_ime(ime),
    {
        self.ime = ime;
    }

    /// Replaces each flag given as `Some`; a `None` leaves that flag as it is.
    pub fn set_flags(
        &mut self,
        zero: Option<bool>,
        subtract: Option<bool>,
        half_carry: Option<bool>,
        carry: Option<bool>,
    )
        requires
            old(self).wf(),
        ensures
            *final(self) == old(self).with_some_flags(zero, subtract, half_carry, carry),
            final(self).wf(),
    {
        let z = match zero {
            Some(b) => b,
            None => self.zero_flag(),
        };
        let n = match subtract {
            Some(b) => b,
            None => self.subtract_flag(),
        };
        let h = match half_carry {
            Some(b) => b,
            None => self.half_carry_flag(),
        };
        let c = match carry {
            Some(b) => b,
            None => self.carry_flag(),
        };
        let flags = Registers::flags_byte(z, n, h, c);
        proof {
            lemma_flag_bits_facts(z, n, h, c);
            assert(flags & 0xF0 == flags) by (bit_vector)
                requires
                    flags & 0x0F == 0,
            ;
        }
        self.write_r8(R8::F, flags);
    }

    /// The flag byte holding the four given flags.
    pub fn flags_byte(z: bool, n: bool, h: bool, c: bool) -> (r: u8)
        ensures
            r == flag_bits(z, n, h, c),
    {
        let f = Registers::set_bit_flag(0, ZERO_FLAG, z);
        let f = Registers::set_bit_flag(f, SUBTRACT_FLAG, n);
        let f = Registers::set_bit_flag(f, HALF_CARRY_FLAG, h);
        let f = Registers::set_bit_flag(f, CARRY_FLAG, c);
        proof {
            let f1 = if z { 0u8 | 0x80u8 } else { 0u8 & !0x80u8 };
            let f2 = if n { f1 | 0x40u8 } else { f1 & !0x40u8 };
            let f3 = if h { f2 | 0x20u8 } else { f2 & !0x20u8 };
            let f4 = if c { f3 | 0x10u8 } else { f3 & !0x10u8 };
            assert(f4 == (if z { 0x80u8 } else { 0u8 }) | (if n { 0x40u8 } else { 0u8 }) | (if h {
                0x20u8
            } else {
                0u8
            }) | (if c { 0x10u8 } else { 0u8 })) by (bit_vector)
                requires
                    f1 == (if z { 0u8 | 0x80u8 } else { 0u8 & !0x80u8 }),
                    f2 == (if n { f1 | 0x40u8 } else { f1 & !0x40u8 }),
                    f3 == (if h { f2 | 0x20u8 } else { f2 & !0x20u8 }),
                    f4 == (if c { f3 | 0x10u8 } else { f3 & !0x10u8 }),
            ;
        }
        f
    }

    /// `flags` with the bits of `bit` set or cleared.
    pub fn set_bit_flag(flags: u8, bit: u8, set: bool) -> (r: u8)
        ensures
            r == if set { flags | bit } else { flags & !bit },
    {
        match set {
            true => flags | bit,
            false => flags & !bit,
        }
    }

    pub fn carry_flag(&self) -> (r: bool)
        ensures
            r == self.cf(),
    {
        self.get_flags() & CARRY_FLAG != 0
    }

    pub fn zero_flag(&self) -> (r: bool)
        ensures
            r == self.zf(),
    {
        self.get_flags() & ZERO_FLAG != 0
    }

    pub fn subtract_flag(&self) -> (r: bool)
        ensures
            r == self.nf(),
    {
        self.get_flags() & SUBTRACT_FLAG != 0
    }

    pub fn half_carry_flag(&self) -> (r: bool)
        ensures
            r == self.hf(),
    {
        self.get_flags() & HALF_CARRY_FLAG != 0
    }

    pub fn read_r8(&self, register: R8) -> (r: u8)
        ensures
            r == self.r8(register),
    {
        match register {
            R8::B => self.bc.high,
            R8::C => self.bc.low,
            R8::A => self.af.high,
            R8::F => self.af.low,
            R8::D => self.de.high,
            R8::E => self.de.low,
            R8::H => self.hl.high,
            R8::L => self.hl.low,
        }
    }

    pub fn write_r8(&mut self, register: R8, value: u8)
        ensures
            *final(self) == old(self).with_r8(register, value),
    {
        match register {
            R8::B => self.bc.high = value,
            R8::C => self.bc.low = value,
            R8::A => self.af.high = value,
            R8::F => self.af.low = value & 0xF0,
            R8::D => self.de.high = value,
            R8::E => self.de.low = value,
            R8::H => self.hl.high = value,
            R8::L => self.hl.low = value,
        }
    }

    /// Pushes `value`: SP drops by one, the high byte is written there, SP
    /// drops by one more and the low byte is written there.
    pub fn stack_push16(&mut self, value: u16, memory: &mut Memory)
        requires
            old(memory)@.wf(),
        ensures
            (*final(self), final(memory)@) == push_spec(*old(self), old(memory)@, value),
            final(memory)@.wf(),
    {
        self.sp = self.sp.wrapping_sub(1);
        let higher = ((0xFF00 & value) >> 8) as u8;
        memory.write_u8(self.sp, higher);
        self.sp = self.sp.wrapping_sub(1);
        let lower = (0x00FF & value) as u8;
        memory.write_u8(self.sp, lower);
        proof {
            assert(((0xFF00 & value) >> 8u16) as u8 == (value >> 8u16) as u8) by (bit_vector);
            assert((0x00FF & value) as u8 == (value & 0xFFu16) as u8) by (bit_vector);
        }
    }

    /// Pops the value on top of the stack; SP rises by two.
    pub fn stack_pop16(&mut self, memory: &mut Memory) -> (r: u16)
        requires
            old(memory)@.wf(),
        ensures
            r == peek_spec(*old(self), old(memory)@),
            final(memory)@ == old(memory)@,
            *final(self) == old(self).with_sp(add_wrap(old(self).sp, 2)),
    {
        let lower = memory.read_u8(self.sp) as u16;
        self.sp = self.sp.wrapping_add(1);
        let higher = memory.read_u8(self.sp) as u16;
        self.sp = self.sp.wrapping_add(1);
        (higher << 8) | lower
    }

    /// The value on top of the stack, SP unchanged.
    pub fn stack_peek16(&self, memory: &Memory) -> (r: u16)
        requires
            memory@.wf(),
        ensures
            r == peek_spec(*self, memory@),
    {
        let lower = memory.read_u8(self.sp);
        let upper = memory.read_u8(self.sp.wrapping_add(1));
        ((upper as u16) << 8) | (lower as u16)
    }

    pub fn read_r16(&self, register: R16) -> (r: u16)
        ensures
            r == self.r16(register),
    {
        match register {
            R16::PC => self.pc,
            R16::SP => self.sp,
            R16::BC => self.bc.to_u16(),
            R16::AF => self.af.to_u16(),
            R16::DE => self.de.to_u16(),
            R16::HL => self.hl.to_u16(),
        }
    }

    pub fn write_r16(&mut self, register: R16, value: u16)
        ensures
            *final(self) == old(self).with_r16(register, value),
    {
        match register {
            R16::PC => self.pc = value,
            R16::SP => self.sp = value,
            R16::BC => self.bc = RegisterPair::from_u16(value),
            R16::AF => self.af = RegisterPair::from_u16(value & 0xFFF0),
            R16::DE => self.de = RegisterPair::from_u16(value),
            R16::HL => self.hl = RegisterPair::from_u16(value),
        }
    }
}

impl RegisterPair {
    pub fn from_u16(value: u16) -> (r: RegisterPair)
        ensures
            r == pair_of(value),
    {
        RegisterPair { high: (value >> 8) as u8, low: (value & 0xFF) as u8 }
    }

    pub fn to_u16(&self) -> (r: u16)
        ensures
            r == pair_value(*self),
    {
        (self.high as u16) << 8 | self.low as u16
    }
}

impl Default for Registers {
    fn default() -> (r: Registers)
        ensures
            r == Registers::new_spec(),
            r.wf(),
    {
        Registers::new()
    }
}

} // verus!

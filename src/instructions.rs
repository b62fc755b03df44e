//! Instruction semantics and executors. Each executor runs one instruction
//! family on the register file and the bus; `execute_spec` states what every
//! family does, and each executor is proved against it.

use vstd::prelude::*;

use crate::alu::{alu, alu_spec, shift, shift_spec, AluOp, ShiftOp};
use crate::instruction_data::InstructionData;
use crate::memory::{Memory, MemoryModel};
use crate::registers::{
    add_wrap, peek_spec, push_spec, sub_wrap, Registers, R16, R8,
};

verus! {

/// The executor families: one per way an opcode acts.
#[derive(Clone, Copy, Debug, PartialEq, Eq, Structural)]
pub enum Op {
    NoOp,
    JumpR16,
    JumpImm16,
    JumpRelImm8,
    LdR8R8,
    LdR8IndirR16,
    LdR8Imm8,
    LdR16R16,
    LdR16Imm16,
    LdIndirR16R8,
    LdiIndirR16R8,
    LddIndirR16R8,
    LdIndirR16Imm8,
    LdIndirImm16Sp,
    LdFf00Imm8R8,
    LdFf00R8Imm8,
    LdFf00IndirR8R8,
    LdFf00R8IndirR8,
    LdIndirImm16R8,
    LdR8IndirImm16,
    LdiR8IndirR16,
    LddR8IndirR16,
    AddR16R16,
    IncR8,
    IncR16,
    IncIndirR16,
    DecR8,
    DecR16,
    DecIndirR16,
    Ret,
    RetConditional,
    Reti,
    RstN,
    PushR16,
    PopR16,
    Call,
    Stop,
    Rlca,
    Rla,
    Rrca,
    Rra,
    Cpl,
    Di,
    Ei,
    Scf,
    Ccf,
    Daa,
    AddSpImm8,
    LdHlSpImm8,
    ExtBitR8,
    ExtBitIndirR16,
    ExtResBitR8,
    ExtResBitIndirR16,
    ExtSetBitR8,
    ExtSetBitIndirR16,
    AndR8,
    AndIndirR16,
    AndImm8,
    XorR8,
    XorIndirR16,
    XorImm8,
    OrR8,
    OrIndirR16,
    OrImm8,
    CpR8,
    CpIndirR16,
    CpImm8,
    AddR8,
    AddIndirR16,
    AddImm8,
    AdcR8,
    AdcIndirR16,
    AdcImm8,
    SubR8,
    SubIndirR16,
    SubImm8,
    SbcR8,
    SbcIndirR16,
    SbcImm8,
    ExtRlcR8,
    ExtRlcIndirR16,
    ExtRrcR8,
    ExtRrcIndirR16,
    ExtRlR8,
    ExtRlIndirR16,
    ExtRrR8,
    ExtRrIndirR16,
    ExtSlaR8,
    ExtSlaIndirR16,
    ExtSraR8,
    ExtSraIndirR16,
    ExtSrlR8,
    ExtSrlIndirR16,
    ExtSwapR8,
    ExtSwapIndirR16,
}

/// The byte after the opcode.
pub open spec fn imm8(r: Registers, m: MemoryModel) -> u8 {
    m.read8(add_wrap(r.pc, 1))
}

/// The little-endian word after the opcode.
pub open spec fn imm16(r: Registers, m: MemoryModel) -> u16 {
    m.read16(add_wrap(r.pc, 1))
}

/// A branch is taken when the masked flags equal the expected value.
pub open spec fn taken(r: Registers, d: InstructionData) -> bool {
    r.af.low & d.flag_mask.unwrap() == d.flag_expected.unwrap()
}

/// `pc` moved by the signed offset `e`, wrapping at 16 bits.
pub open spec fn rel_target(pc: u16, e: u8) -> u16 {
    if e < 128 {
        add_wrap(pc, e as u16)
    } else {
        sub_wrap(pc, (256 - e) as u16)
    }
}

pub open spec fn with_cycles(m: MemoryModel, cycles: u16) -> MemoryModel {
    MemoryModel { cycles, ..m }
}

/// The registers after `op` on A and `b`: A takes the result (but for CP) and
/// all four flags are set.
pub open spec fn alu_apply(r: Registers, op: AluOp, b: u8) -> Registers {
    let res = alu_spec(op, r.af.high, b, r.cf());
    let r1 = if op == AluOp::Cp {
        r
    } else {
        r.with_r8(R8::A, res.value)
    };
    r1.with_flags(res.z, res.n, res.h, res.c)
}

/// The value and carry of an add of a signed byte to SP.
pub open spec fn sp_offset_spec(sp: u16, e: u8) -> (u16, bool, bool) {
    (rel_target(sp, e), sp % 16 + e % 16 > 15, sp % 256 + e > 255)
}

/// Decimal adjust of A after a BCD add or subtract: the new A and carry.
pub open spec fn decimal_adjust(a: u8, n: bool, h: bool, c: bool) -> (u8, bool) {
    if !n {
        let hi = c || a > 0x99;
        let lo = h || a % 16 > 9;
        let adj = (if hi { 0x60int } else { 0 }) + (if lo { 6int } else { 0 });
        (((a + adj) % 256) as u8, hi)
    } else {
        let adj = (if c { 0x60int } else { 0 }) + (if h { 6int } else { 0 });
        (((a - adj + 256) % 256) as u8, c)
    }
}

pub open spec fn r8_some_not_f(r: Option<R8>) -> bool {
    r is Some && r.unwrap() != R8::F
}

/// The operand fields that the executor of `op` reads are set, and hold
/// values the family is meant for.
pub open spec fn data_ok(op: Op, d: InstructionData) -> bool {
    match op {
        Op::JumpR16 => d.r16_src is Some,
        Op::JumpImm16 | Op::JumpRelImm8 | Op::RetConditional | Op::Call => d.flag_mask is Some
            && d.flag_expected is Some,
        Op::LdR8R8 | Op::LdFf00R8IndirR8 => d.r8_src is Some && r8_some_not_f(d.r8_dst),
        Op::LdFf00IndirR8R8 => d.r8_src is Some && d.r8_dst is Some,
        Op::LdR8IndirR16 | Op::LdiR8IndirR16 | Op::LddR8IndirR16 => r8_some_not_f(d.r8_dst)
            && d.r16_src is Some,
        Op::LdR8Imm8 | Op::LdFf00R8Imm8 | Op::LdR8IndirImm16 | Op::IncR8 | Op::DecR8 => r8_some_not_f(d.r8_dst),
        Op::LdR16R16 => d.r16_src is Some && d.r16_dst is Some,
        Op::AddR16R16 => d.r16_src is Some && d.r16_dst is Some && d.r16_dst.unwrap() != R16::AF,
        Op::LdR16Imm16 | Op::PopR16 | Op::IncIndirR16 | Op::DecIndirR16 | Op::LdIndirR16Imm8 => d.r16_dst is Some,
        Op::LdIndirR16R8 | Op::LdiIndirR16R8 | Op::LddIndirR16R8 => d.r8_src is Some
            && d.r16_dst is Some,
        Op::LdFf00Imm8R8 | Op::LdIndirImm16R8 => d.r8_src is Some,
        Op::IncR16 | Op::DecR16 => d.r16_dst is Some && d.r16_dst.unwrap() != R16::AF,
        Op::RstN => d.code is Some,
        Op::PushR16 => d.r16_src is Some,
        Op::ExtBitR8 => d.r8_src is Some && d.bit is Some && d.bit.unwrap() < 8,
        Op::ExtResBitR8 | Op::ExtSetBitR8 => r8_some_not_f(d.r8_src) && d.bit is Some && d.bit.unwrap() < 8,
        Op::ExtBitIndirR16 | Op::ExtResBitIndirR16 | Op::ExtSetBitIndirR16 => d.r16_src is Some
            && d.bit is Some && d.bit.unwrap() < 8,
        Op::AndR8 => d.r8_src is Some,
        Op::AndIndirR16 => d.r16_src is Some,
        Op::XorR8 => d.r8_src is Some,
        Op::XorIndirR16 => d.r16_src is Some,
        Op::OrR8 => d.r8_src is Some,
        Op::OrIndirR16 => d.r16_src is Some,
        Op::CpR8 => d.r8_src is Some,
        Op::CpIndirR16 => d.r16_src is Some,
        Op::AddR8 => d.r8_src is Some,
        Op::AddIndirR16 => d.r16_src is Some,
        Op::AdcR8 => d.r8_src is Some,
        Op::AdcIndirR16 => d.r16_src is Some,
        Op::SubR8 => d.r8_src is Some,
        Op::SubIndirR16 => d.r16_src is Some,
        Op::SbcR8 => d.r8_src is Some,
        Op::SbcIndirR16 => d.r16_src is Some,
        Op::ExtRlcR8 => r8_some_not_f(d.r8_dst),
        Op::ExtRlcIndirR16 => d.r16_dst is Some,
        Op::ExtRrcR8 => r8_some_not_f(d.r8_dst),
        Op::ExtRrcIndirR16 => d.r16_dst is Some,
        Op::ExtRlR8 => r8_some_not_f(d.r8_dst),
        Op::ExtRlIndirR16 => d.r16_dst is Some,
        Op::ExtRrR8 => r8_some_not_f(d.r8_dst),
        Op::ExtRrIndirR16 => d.r16_dst is Some,
        Op::ExtSlaR8 => r8_some_not_f(d.r8_dst),
        Op::ExtSlaIndirR16 => d.r16_dst is Some,
        Op::ExtSraR8 => r8_some_not_f(d.r8_dst),
        Op::ExtSraIndirR16 => d.r16_dst is Some,
        Op::ExtSrlR8 => r8_some_not_f(d.r8_dst),
        Op::ExtSrlIndirR16 => d.r16_dst is Some,
        Op::ExtSwapR8 => r8_some_not_f(d.r8_dst),
        Op::ExtSwapIndirR16 => d.r16_dst is Some,
        _ => true,
    }
}

/// NOP.
pub open spec fn no_op_spec(d: InstructionData, r: Registers, m: MemoryModel) -> (Registers, MemoryModel) {
    let r1 = r.advance(1);
    (r1, m)
}

/// STOP: skips its operand byte.
pub open spec fn stop_spec(d: InstructionData, r: Registers, m: MemoryModel) -> (Registers, MemoryModel) {
    let r2 = r.advance(2);
    (r2, m)
}

/// JP (HL).
pub open spec fn jump_r16_spec(d: InstructionData, r: Registers, m: MemoryModel) -> (Registers, MemoryModel) {
    let r1 = r.advance(1);
    (r1.with_pc(r1.r16(d.r16_src.unwrap())), m)
}

/// JP cc, a16 (cc may be always).
pub open spec fn jump_imm16_spec(d: InstructionData, r: Registers, m: MemoryModel) -> (Registers, MemoryModel) {
    let r3 = r.advance(3);
    if taken(r, d) {
        (r.with_pc(imm16(r, m)), m)
    } else {
        (r3, with_cycles(m, 3))
    }
}

/// JR cc, s8: relative to the next instruction.
pub open spec fn jump_rel_imm8_spec(d: InstructionData, r: Registers, m: MemoryModel) -> (Registers, MemoryModel) {
    let r2 = r.advance(2);
    if taken(r, d) {
        (r.with_pc(rel_target(r2.pc, imm8(r, m))), m)
    } else {
        (r2, with_cycles(m, 2))
    }
}

/// LD r, r'.
pub open spec fn ld_r8_r8_spec(d: InstructionData, r: Registers, m: MemoryModel) -> (Registers, MemoryModel) {
    let r1 = r.advance(1);
    (r1.with_r8(d.r8_dst.unwrap(), r.r8(d.r8_src.unwrap())), m)
}

/// LD r, (rr).
pub open spec fn ld_r8_indir_r16_spec(d: InstructionData, r: Registers, m: MemoryModel) -> (Registers, MemoryModel) {
    let r1 = r.advance(1);
    (r1.with_r8(d.r8_dst.unwrap(), m.read8(r1.r16(d.r16_src.unwrap()))), m)
}

/// LD r, d8.
pub open spec fn ld_r8_imm8_spec(d: InstructionData, r: Registers, m: MemoryModel) -> (Registers, MemoryModel) {
    let r2 = r.advance(2);
    (r2.with_r8(d.r8_dst.unwrap(), imm8(r, m)), m)
}

/// LD rr, rr'.
pub open spec fn ld_r16_r16_spec(d: InstructionData, r: Registers, m: MemoryModel) -> (Registers, MemoryModel) {
    let r1 = r.advance(1);
    (r1.with_r16(d.r16_dst.unwrap(), r1.r16(d.r16_src.unwrap())), m)
}

/// LD rr, d16.
pub open spec fn ld_r16_imm16_spec(d: InstructionData, r: Registers, m: MemoryModel) -> (Registers, MemoryModel) {
    let r3 = r.advance(3);
    (r3.with_r16(d.r16_dst.unwrap(), imm16(r, m)), m)
}

/// LD (rr), r.
pub open spec fn ld_indir_r16_r8_spec(d: InstructionData, r: Registers, m: MemoryModel) -> (Registers, MemoryModel) {
    let r1 = r.advance(1);
    (r1, m.write8(r1.r16(d.r16_dst.unwrap()), r.r8(d.r8_src.unwrap())))
}

/// LD (HL+), r.
pub open spec fn ldi_indir_r16_r8_spec(d: InstructionData, r: Registers, m: MemoryModel) -> (Registers, MemoryModel) {
    let r1 = r.advance(1);
    let a = r1.r16(d.r16_dst.unwrap());
    (r1.with_r16(d.r16_dst.unwrap(), add_wrap(a, 1)), m.write8(a, r.r8(d.r8_src.unwrap())))
}

/// LD (HL-), r.
pub open spec fn ldd_indir_r16_r8_spec(d: InstructionData, r: Registers, m: MemoryModel) -> (Registers, MemoryModel) {
    let r1 = r.advance(1);
    let a = r1.r16(d.r16_dst.unwrap());
    (r1.with_r16(d.r16_dst.unwrap(), sub_wrap(a, 1)), m.write8(a, r.r8(d.r8_src.unwrap())))
}

/// LD (HL), d8.
pub open spec fn ld_indir_r16_imm8_spec(d: InstructionData, r: Registers, m: MemoryModel) -> (Registers, MemoryModel) {
    let r2 = r.advance(2);
    (r2, m.write8(r2.r16(d.r16_dst.unwrap()), imm8(r, m)))
}

/// LD (a16), SP: stores the word on top of the stack.
pub open spec fn ld_indir_imm16_sp_spec(d: InstructionData, r: Registers, m: MemoryModel) -> (Registers, MemoryModel) {
    let r3 = r.advance(3);
    (r3, m.write16(imm16(r, m), peek_spec(r, m)))
}

/// LDH (a8), r.
pub open spec fn ld_ff00_imm8_r8_spec(d: InstructionData, r: Registers, m: MemoryModel) -> (Registers, MemoryModel) {
    let r2 = r.advance(2);
    (r2, m.write8((0xFF00 + imm8(r, m)) as u16, r.r8(d.r8_src.unwrap())))
}

/// LDH r, (a8).
pub open spec fn ld_ff00_r8_imm8_spec(d: InstructionData, r: Registers, m: MemoryModel) -> (Registers, MemoryModel) {
    let r2 = r.advance(2);
    (r2.with_r8(d.r8_dst.unwrap(), m.read8((0xFF00 + imm8(r, m)) as u16)), m)
}

/// LD (C), r.
pub open spec fn ld_ff00_indir_r8_r8_spec(d: InstructionData, r: Registers, m: MemoryModel) -> (Registers, MemoryModel) {
    let r1 = r.advance(1);
    (r1, m.write8((0xFF00 + r.r8(d.r8_dst.unwrap())) as u16, r.r8(d.r8_src.unwrap())))
}

/// LD r, (C).
pub open spec fn ld_ff00_r8_indir_r8_spec(d: InstructionData, r: Registers, m: MemoryModel) -> (Registers, MemoryModel) {
    let r1 = r.advance(1);
    (r1.with_r8(d.r8_dst.unwrap(), m.read8((0xFF00 + r.r8(d.r8_src.unwrap())) as u16)), m)
}

/// LD (a16), r.
pub open spec fn ld_indir_imm16_r8_spec(d: InstructionData, r: Registers, m: MemoryModel) -> (Registers, MemoryModel) {
    let r3 = r.advance(3);
    (r3, m.write8(imm16(r, m), r.r8(d.r8_src.unwrap())))
}

/// LD r, (a16).
pub open spec fn ld_r8_indir_imm16_spec(d: InstructionData, r: Registers, m: MemoryModel) -> (Registers, MemoryModel) {
    let r3 = r.advance(3);
    (r3.with_r8(d.r8_dst.unwrap(), m.read8(imm16(r, m))), m)
}

/// LD r, (HL+).
pub open spec fn ldi_r8_indir_r16_spec(d: InstructionData, r: Registers, m: MemoryModel) -> (Registers, MemoryModel) {
    let r1 = r.advance(1);
    let a = r1.r16(d.r16_src.unwrap());
    (r1.with_r8(d.r8_dst.unwrap(), m.read8(a)).with_r16(d.r16_src.unwrap(), add_wrap(a, 1)), m)
}

/// LD r, (HL-).
pub open spec fn ldd_r8_indir_r16_spec(d: InstructionData, r: Registers, m: MemoryModel) -> (Registers, MemoryModel) {
    let r1 = r.advance(1);
    let a = r1.r16(d.r16_src.unwrap());
    (r1.with_r8(d.r8_dst.unwrap(), m.read8(a)).with_r16(d.r16_src.unwrap(), sub_wrap(a, 1)), m)
}

/// ADD HL, rr: Z kept, H from bit 11, C from bit 15.
pub open spec fn add_r16_r16_spec(d: InstructionData, r: Registers, m: MemoryModel) -> (Registers, MemoryModel) {
    let r1 = r.advance(1);
    let x = r1.r16(d.r16_dst.unwrap());
    let y = r1.r16(d.r16_src.unwrap());
    (r1.with_r16(d.r16_dst.unwrap(), add_wrap(x, y)).with_flags(
        r.zf(),
        false,
        x % 4096 + y % 4096 > 4095,
        x + y > 0xFFFF,
    ), m)
}

/// INC r: C kept.
pub open spec fn inc_r8_spec(d: InstructionData, r: Registers, m: MemoryModel) -> (Registers, MemoryModel) {
    let r1 = r.advance(1);
    let v = r.r8(d.r8_dst.unwrap());
    let res = ((v + 1) % 256) as u8;
    (r1.with_r8(d.r8_dst.unwrap(), res).with_flags(res == 0, false, v % 16 == 15, r.cf()), m)
}

/// DEC r: C kept.
pub open spec fn dec_r8_spec(d: InstructionData, r: Registers, m: MemoryModel) -> (Registers, MemoryModel) {
    let r1 = r.advance(1);
    let v = r.r8(d.r8_dst.unwrap());
    let res = ((v + 255) % 256) as u8;
    (r1.with_r8(d.r8_dst.unwrap(), res).with_flags(res == 0, true, v % 16 == 0, r.cf()), m)
}

/// INC rr: no flag changes.
pub open spec fn inc_r16_spec(d: InstructionData, r: Registers, m: MemoryModel) -> (Registers, MemoryModel) {
    let r1 = r.advance(1);
    (r1.with_r16(d.r16_dst.unwrap(), add_wrap(r1.r16(d.r16_dst.unwrap()), 1)), m)
}

/// DEC rr: no flag changes.
pub open spec fn dec_r16_spec(d: InstructionData, r: Registers, m: MemoryModel) -> (Registers, MemoryModel) {
    let r1 = r.advance(1);
    (r1.with_r16(d.r16_dst.unwrap(), sub_wrap(r1.r16(d.r16_dst.unwrap()), 1)), m)
}

/// INC (HL): C kept.
pub open spec fn inc_indir_r16_spec(d: InstructionData, r: Registers, m: MemoryModel) -> (Registers, MemoryModel) {
    let r1 = r.advance(1);
    let a = r1.r16(d.r16_dst.unwrap());
    let v = m.read8(a);
    let res = ((v + 1) % 256) as u8;
    (r1.with_flags(res == 0, false, v % 16 == 15, r.cf()), m.write8(a, res))
}

/// DEC (HL): C kept.
pub open spec fn dec_indir_r16_spec(d: InstructionData, r: Registers, m: MemoryModel) -> (Registers, MemoryModel) {
    let r1 = r.advance(1);
    let a = r1.r16(d.r16_dst.unwrap());
    let v = m.read8(a);
    let res = ((v + 255) % 256) as u8;
    (r1.with_flags(res == 0, true, v % 16 == 0, r.cf()), m.write8(a, res))
}

/// RET.
pub open spec fn ret_spec(d: InstructionData, r: Registers, m: MemoryModel) -> (Registers, MemoryModel) {
    let r1 = r.advance(1);
    (r1.with_sp(add_wrap(r.sp, 2)).with_pc(peek_spec(r, m)), m)
}

/// RETI: returns and enables interrupts.
pub open spec fn reti_spec(d: InstructionData, r: Registers, m: MemoryModel) -> (Registers, MemoryModel) {
    let r1 = r.advance(1);
    (r1.with_sp(add_wrap(r.sp, 2)).with_pc(peek_spec(r, m)).with_ime(true), m)
}

/// RET cc.
pub open spec fn ret_conditional_spec(d: InstructionData, r: Registers, m: MemoryModel) -> (Registers, MemoryModel) {
    let r1 = r.advance(1);
    if taken(r, d) {
        (r1.with_sp(add_wrap(r.sp, 2)).with_pc(peek_spec(r, m)), m)
    } else {
        (r1, with_cycles(m, 2))
    }
}

/// RST n.
pub open spec fn rst_n_spec(d: InstructionData, r: Registers, m: MemoryModel) -> (Registers, MemoryModel) {
    let r1 = r.advance(1);
    let (rp, mp) = push_spec(r1, m, r1.pc);
    (rp.with_pc(d.code.unwrap() as u16), mp)
}

/// PUSH rr.
pub open spec fn push_r16_spec(d: InstructionData, r: Registers, m: MemoryModel) -> (Registers, MemoryModel) {
    let r1 = r.advance(1);
    push_spec(r1, m, r1.r16(d.r16_src.unwrap()))
}

/// POP rr.
pub open spec fn pop_r16_spec(d: InstructionData, r: Registers, m: MemoryModel) -> (Registers, MemoryModel) {
    let r1 = r.advance(1);
    (r1.with_sp(add_wrap(r.sp, 2)).with_r16(d.r16_dst.unwrap(), peek_spec(r, m)), m)
}

/// CALL cc, a16 (cc may be always).
pub open spec fn call_spec(d: InstructionData, r: Registers, m: MemoryModel) -> (Registers, MemoryModel) {
    let r3 = r.advance(3);
    if taken(r, d) {
        let (rp, mp) = push_spec(r3, m, r3.pc);
        (rp.with_pc(imm16(r, m)), mp)
    } else {
        (r3, with_cycles(m, 3))
    }
}

/// CPL.
pub open spec fn cpl_spec(d: InstructionData, r: Registers, m: MemoryModel) -> (Registers, MemoryModel) {
    let r1 = r.advance(1);
    (r1.with_r8(R8::A, !r.af.high).with_flags(r.zf(), true, true, r.cf()), m)
}

/// DI.
pub open spec fn di_spec(d: InstructionData, r: Registers, m: MemoryModel) -> (Registers, MemoryModel) {
    let r1 = r.advance(1);
    (r1.with_ime(false), m)
}

/// EI.
pub open spec fn ei_spec(d: InstructionData, r: Registers, m: MemoryModel) -> (Registers, MemoryModel) {
    let r1 = r.advance(1);
    (r1.with_ime(true), m)
}

/// SCF.
pub open spec fn scf_spec(d: InstructionData, r: Registers, m: MemoryModel) -> (Registers, MemoryModel) {
    let r1 = r.advance(1);
    (r1.with_flags(r.zf(), false, false, true), m)
}

/// CCF.
pub open spec fn ccf_spec(d: InstructionData, r: Registers, m: MemoryModel) -> (Registers, MemoryModel) {
    let r1 = r.advance(1);
    (r1.with_flags(r.zf(), false, false, !r.cf()), m)
}

/// DAA.
pub open spec fn daa_spec(d: InstructionData, r: Registers, m: MemoryModel) -> (Registers, MemoryModel) {
    let r1 = r.advance(1);
    let (v, c) = decimal_adjust(r.af.high, r.nf(), r.hf(), r.cf());
    (r1.with_r8(R8::A, v).with_flags(v == 0, r.nf(), false, c), m)
}

/// ADD SP, s8.
pub open spec fn add_sp_imm8_spec(d: InstructionData, r: Registers, m: MemoryModel) -> (Registers, MemoryModel) {
    let r2 = r.advance(2);
    let (v, h, c) = sp_offset_spec(r.sp, imm8(r, m));
    (r2.with_sp(v).with_flags(false, false, h, c), m)
}

/// LD HL, SP + s8.
pub open spec fn ld_hl_sp_imm8_spec(d: InstructionData, r: Registers, m: MemoryModel) -> (Registers, MemoryModel) {
    let r2 = r.advance(2);
    let (v, h, c) = sp_offset_spec(r.sp, imm8(r, m));
    (r2.with_r16(R16::HL, v).with_flags(false, false, h, c), m)
}

/// BIT n, r.
pub open spec fn ext_bit_r8_spec(d: InstructionData, r: Registers, m: MemoryModel) -> (Registers, MemoryModel) {
    let r2 = r.advance(2);
    let v = r.r8(d.r8_src.unwrap());
    (r2.with_flags((v >> d.bit.unwrap()) & 1 == 0, false, true, r.cf()), m)
}

/// BIT n, (HL).
pub open spec fn ext_bit_indir_r16_spec(d: InstructionData, r: Registers, m: MemoryModel) -> (Registers, MemoryModel) {
    let r2 = r.advance(2);
    let v = m.read8(r2.r16(d.r16_src.unwrap()));
    (r2.with_flags((v >> d.bit.unwrap()) & 1 == 0, false, true, r.cf()), m)
}

/// RES n, r.
pub open spec fn ext_res_bit_r8_spec(d: InstructionData, r: Registers, m: MemoryModel) -> (Registers, MemoryModel) {
    let r2 = r.advance(2);
    let v = r.r8(d.r8_src.unwrap());
    (r2.with_r8(d.r8_src.unwrap(), v & !(1u8 << d.bit.unwrap())), m)
}

/// SET n, r.
pub open spec fn ext_set_bit_r8_spec(d: InstructionData, r: Registers, m: MemoryModel) -> (Registers, MemoryModel) {
    let r2 = r.advance(2);
    let v = r.r8(d.r8_src.unwrap());
    (r2.with_r8(d.r8_src.unwrap(), v | (1u8 << d.bit.unwrap())), m)
}

/// RES n, (HL).
pub open spec fn ext_res_bit_indir_r16_spec(d: InstructionData, r: Registers, m: MemoryModel) -> (Registers, MemoryModel) {
    let r2 = r.advance(2);
    let a = r2.r16(d.r16_src.unwrap());
    (r2, m.write8(a, m.read8(a) & !(1u8 << d.bit.unwrap())))
}

/// SET n, (HL).
pub open spec fn ext_set_bit_indir_r16_spec(d: InstructionData, r: Registers, m: MemoryModel) -> (Registers, MemoryModel) {
    let r2 = r.advance(2);
    let a = r2.r16(d.r16_src.unwrap());
    (r2, m.write8(a, m.read8(a) | (1u8 << d.bit.unwrap())))
}

/// AND r.
pub open spec fn and_r8_spec(d: InstructionData, r: Registers, m: MemoryModel) -> (Registers, MemoryModel) {
    let r1 = r.advance(1);
    (alu_apply(r1, AluOp::And, r.r8(d.r8_src.unwrap())), m)
}

/// AND (HL).
pub open spec fn and_indir_r16_spec(d: InstructionData, r: Registers, m: MemoryModel) -> (Registers, MemoryModel) {
    let r1 = r.advance(1);
    (alu_apply(r1, AluOp::And, m.read8(r1.r16(d.r16_src.unwrap()))), m)
}

/// AND d8.
pub open spec fn and_imm8_spec(d: InstructionData, r: Registers, m: MemoryModel) -> (Registers, MemoryModel) {
    let r2 = r.advance(2);
    (alu_apply(r2, AluOp::And, imm8(r, m)), m)
}

/// XOR r.
pub open spec fn xor_r8_spec(d: InstructionData, r: Registers, m: MemoryModel) -> (Registers, MemoryModel) {
    let r1 = r.advance(1);
    (alu_apply(r1, AluOp::Xor, r.r8(d.r8_src.unwrap())), m)
}

/// XOR (HL).
pub open spec fn xor_indir_r16_spec(d: InstructionData, r: Registers, m: MemoryModel) -> (Registers, MemoryModel) {
    let r1 = r.advance(1);
    (alu_apply(r1, AluOp::Xor, m.read8(r1.r16(d.r16_src.unwrap()))), m)
}

/// XOR d8.
pub open spec fn xor_imm8_spec(d: InstructionData, r: Registers, m: MemoryModel) -> (Registers, MemoryModel) {
    let r2 = r.advance(2);
    (alu_apply(r2, AluOp::Xor, imm8(r, m)), m)
}

/// OR r.
pub open spec fn or_r8_spec(d: InstructionData, r: Registers, m: MemoryModel) -> (Registers, MemoryModel) {
    let r1 = r.advance(1);
    (alu_apply(r1, AluOp::Or, r.r8(d.r8_src.unwrap())), m)
}

/// OR (HL).
pub open spec fn or_indir_r16_spec(d: InstructionData, r: Registers, m: MemoryModel) -> (Registers, MemoryModel) {
    let r1 = r.advance(1);
    (alu_apply(r1, AluOp::Or, m.read8(r1.r16(d.r16_src.unwrap()))), m)
}

/// OR d8.
pub open spec fn or_imm8_spec(d: InstructionData, r: Registers, m: MemoryModel) -> (Registers, MemoryModel) {
    let r2 = r.advance(2);
    (alu_apply(r2, AluOp::Or, imm8(r, m)), m)
}

/// CP r.
pub open spec fn cp_r8_spec(d: InstructionData, r: Registers, m: MemoryModel) -> (Registers, MemoryModel) {
    let r1 = r.advance(1);
    (alu_apply(r1, AluOp::Cp, r.r8(d.r8_src.unwrap())), m)
}

/// CP (HL).
pub open spec fn cp_indir_r16_spec(d: InstructionData, r: Registers, m: MemoryModel) -> (Registers, MemoryModel) {
    let r1 = r.advance(1);
    (alu_apply(r1, AluOp::Cp, m.read8(r1.r16(d.r16_src.unwrap()))), m)
}

/// CP d8.
pub open spec fn cp_imm8_spec(d: InstructionData, r: Registers, m: MemoryModel) -> (Registers, MemoryModel) {
    let r2 = r.advance(2);
    (alu_apply(r2, AluOp::Cp, imm8(r, m)), m)
}

/// ADD r.
pub open spec fn add_r8_spec(d: InstructionData, r: Registers, m: MemoryModel) -> (Registers, MemoryModel) {
    let r1 = r.advance(1);
    (alu_apply(r1, AluOp::Add, r.r8(d.r8_src.unwrap())), m)
}

/// ADD (HL).
pub open spec fn add_indir_r16_spec(d: InstructionData, r: Registers, m: MemoryModel) -> (Registers, MemoryModel) {
    let r1 = r.advance(1);
    (alu_apply(r1, AluOp::Add, m.read8(r1.r16(d.r16_src.unwrap()))), m)
}

/// ADD d8.
pub open spec fn add_imm8_spec(d: InstructionData, r: Registers, m: MemoryModel) -> (Registers, MemoryModel) {
    let r2 = r.advance(2);
    (alu_apply(r2, AluOp::Add, imm8(r, m)), m)
}

/// ADC r.
pub open spec fn adc_r8_spec(d: InstructionData, r: Registers, m: MemoryModel) -> (Registers, MemoryModel) {
    let r1 = r.advance(1);
    (alu_apply(r1, AluOp::Adc, r.r8(d.r8_src.unwrap())), m)
}

/// ADC (HL).
pub open spec fn adc_indir_r16_spec(d: InstructionData, r: Registers, m: MemoryModel) -> (Registers, MemoryModel) {
    let r1 = r.advance(1);
    (alu_apply(r1, AluOp::Adc, m.read8(r1.r16(d.r16_src.unwrap()))), m)
}

/// ADC d8.
pub open spec fn adc_imm8_spec(d: InstructionData, r: Registers, m: MemoryModel) -> (Registers, MemoryModel) {
    let r2 = r.advance(2);
    (alu_apply(r2, AluOp::Adc, imm8(r, m)), m)
}

/// SUB r.
pub open spec fn sub_r8_spec(d: InstructionData, r: Registers, m: MemoryModel) -> (Registers, MemoryModel) {
    let r1 = r.advance(1);
    (alu_apply(r1, AluOp::Sub, r.r8(d.r8_src.unwrap())), m)
}

/// SUB (HL).
pub open spec fn sub_indir_r16_spec(d: InstructionData, r: Registers, m: MemoryModel) -> (Registers, MemoryModel) {
    let r1 = r.advance(1);
    (alu_apply(r1, AluOp::Sub, m.read8(r1.r16(d.r16_src.unwrap()))), m)
}

/// SUB d8.
pub open spec fn sub_imm8_spec(d: InstructionData, r: Registers, m: MemoryModel) -> (Registers, MemoryModel) {
    let r2 = r.advance(2);
    (alu_apply(r2, AluOp::Sub, imm8(r, m)), m)
}

/// SBC r.
pub open spec fn sbc_r8_spec(d: InstructionData, r: Registers, m: MemoryModel) -> (Registers, MemoryModel) {
    let r1 = r.advance(1);
    (alu_apply(r1, AluOp::Sbc, r.r8(d.r8_src.unwrap())), m)
}

/// SBC (HL).
pub open spec fn sbc_indir_r16_spec(d: InstructionData, r: Registers, m: MemoryModel) -> (Registers, MemoryModel) {
    let r1 = r.advance(1);
    (alu_apply(r1, AluOp::Sbc, m.read8(r1.r16(d.r16_src.unwrap()))), m)
}

/// SBC d8.
pub open spec fn sbc_imm8_spec(d: InstructionData, r: Registers, m: MemoryModel) -> (Registers, MemoryModel) {
    let r2 = r.advance(2);
    (alu_apply(r2, AluOp::Sbc, imm8(r, m)), m)
}

/// RLC r.
pub open spec fn ext_rlc_r8_spec(d: InstructionData, r: Registers, m: MemoryModel) -> (Registers, MemoryModel) {
    let r2 = r.advance(2);
    let (v, c) = shift_spec(ShiftOp::Rlc, r.r8(d.r8_dst.unwrap()), r.cf());
    (r2.with_r8(d.r8_dst.unwrap(), v).with_flags(v == 0, false, false, c), m)
}

/// RLC (HL).
pub open spec fn ext_rlc_indir_r16_spec(d: InstructionData, r: Registers, m: MemoryModel) -> (Registers, MemoryModel) {
    let r2 = r.advance(2);
    let a = r2.r16(d.r16_dst.unwrap());
    let (v, c) = shift_spec(ShiftOp::Rlc, m.read8(a), r.cf());
    (r2.with_flags(v == 0, false, false, c), m.write8(a, v))
}

/// RRC r.
pub open spec fn ext_rrc_r8_spec(d: InstructionData, r: Registers, m: MemoryModel) -> (Registers, MemoryModel) {
    let r2 = r.advance(2);
    let (v, c) = shift_spec(ShiftOp::Rrc, r.r8(d.r8_dst.unwrap()), r.cf());
    (r2.with_r8(d.r8_dst.unwrap(), v).with_flags(v == 0, false, false, c), m)
}

/// RRC (HL).
pub open spec fn ext_rrc_indir_r16_spec(d: InstructionData, r: Registers, m: MemoryModel) -> (Registers, MemoryModel) {
    let r2 = r.advance(2);
    let a = r2.r16(d.r16_dst.unwrap());
    let (v, c) = shift_spec(ShiftOp::Rrc, m.read8(a), r.cf());
    (r2.with_flags(v == 0, false, false, c), m.write8(a, v))
}

/// RL r.
pub open spec fn ext_rl_r8_spec(d: InstructionData, r: Registers, m: MemoryModel) -> (Registers, MemoryModel) {
    let r2 = r.advance(2);
    let (v, c) = shift_spec(ShiftOp::Rl, r.r8(d.r8_dst.unwrap()), r.cf());
    (r2.with_r8(d.r8_dst.unwrap(), v).with_flags(v == 0, false, false, c), m)
}

/// RL (HL).
pub open spec fn ext_rl_indir_r16_spec(d: InstructionData, r: Registers, m: MemoryModel) -> (Registers, MemoryModel) {
    let r2 = r.advance(2);
    let a = r2.r16(d.r16_dst.unwrap());
    let (v, c) = shift_spec(ShiftOp::Rl, m.read8(a), r.cf());
    (r2.with_flags(v == 0, false, false, c), m.write8(a, v))
}

/// RR r.
pub open spec fn ext_rr_r8_spec(d: InstructionData, r: Registers, m: MemoryModel) -> (Registers, MemoryModel) {
    let r2 = r.advance(2);
    let (v, c) = shift_spec(ShiftOp::Rr, r.r8(d.r8_dst.unwrap()), r.cf());
    (r2.with_r8(d.r8_dst.unwrap(), v).with_flags(v == 0, false, false, c), m)
}

/// RR (HL).
pub open spec fn ext_rr_indir_r16_spec(d: InstructionData, r: Registers, m: MemoryModel) -> (Registers, MemoryModel) {
    let r2 = r.advance(2);
    let a = r2.r16(d.r16_dst.unwrap());
    let (v, c) = shift_spec(ShiftOp::Rr, m.read8(a), r.cf());
    (r2.with_flags(v == 0, false, false, c), m.write8(a, v))
}

/// SLA r.
pub open spec fn ext_sla_r8_spec(d: InstructionData, r: Registers, m: MemoryModel) -> (Registers, MemoryModel) {
    let r2 = r.advance(2);
    let (v, c) = shift_spec(ShiftOp::Sla, r.r8(d.r8_dst.unwrap()), r.cf());
    (r2.with_r8(d.r8_dst.unwrap(), v).with_flags(v == 0, false, false, c), m)
}

/// SLA (HL).
pub open spec fn ext_sla_indir_r16_spec(d: InstructionData, r: Registers, m: MemoryModel) -> (Registers, MemoryModel) {
    let r2 = r.advance(2);
    let a = r2.r16(d.r16_dst.unwrap());
    let (v, c) = shift_spec(ShiftOp::Sla, m.read8(a), r.cf());
    (r2.with_flags(v == 0, false, false, c), m.write8(a, v))
}

/// SRA r.
pub open spec fn ext_sra_r8_spec(d: InstructionData, r: Registers, m: MemoryModel) -> (Registers, MemoryModel) {
    let r2 = r.advance(2);
    let (v, c) = shift_spec(ShiftOp::Sra, r.r8(d.r8_dst.unwrap()), r.cf());
    (r2.with_r8(d.r8_dst.unwrap(), v).with_flags(v == 0, false, false, c), m)
}

/// SRA (HL).
pub open spec fn ext_sra_indir_r16_spec(d: InstructionData, r: Registers, m: MemoryModel) -> (Registers, MemoryModel) {
    let r2 = r.advance(2);
    let a = r2.r16(d.r16_dst.unwrap());
    let (v, c) = shift_spec(ShiftOp::Sra, m.read8(a), r.cf());
    (r2.with_flags(v == 0, false, false, c), m.write8(a, v))
}

/// SRL r.
pub open spec fn ext_srl_r8_spec(d: InstructionData, r: Registers, m: MemoryModel) -> (Registers, MemoryModel) {
    let r2 = r.advance(2);
    let (v, c) = shift_spec(ShiftOp::Srl, r.r8(d.r8_dst.unwrap()), r.cf());
    (r2.with_r8(d.r8_dst.unwrap(), v).with_flags(v == 0, false, false, c), m)
}

/// SRL (HL).
pub open spec fn ext_srl_indir_r16_spec(d: InstructionData, r: Registers, m: MemoryModel) -> (Registers, MemoryModel) {
    let r2 = r.advance(2);
    let a = r2.r16(d.r16_dst.unwrap());
    let (v, c) = shift_spec(ShiftOp::Srl, m.read8(a), r.cf());
    (r2.with_flags(v == 0, false, false, c), m.write8(a, v))
}

/// SWAP r.
pub open spec fn ext_swap_r8_spec(d: InstructionData, r: Registers, m: MemoryModel) -> (Registers, MemoryModel) {
    let r2 = r.advance(2);
    let (v, c) = shift_spec(ShiftOp::Swap, r.r8(d.r8_dst.unwrap()), r.cf());
    (r2.with_r8(d.r8_dst.unwrap(), v).with_flags(v == 0, false, false, c), m)
}

/// SWAP (HL).
pub open spec fn ext_swap_indir_r16_spec(d: InstructionData, r: Registers, m: MemoryModel) -> (Registers, MemoryModel) {
    let r2 = r.advance(2);
    let a = r2.r16(d.r16_dst.unwrap());
    let (v, c) = shift_spec(ShiftOp::Swap, m.read8(a), r.cf());
    (r2.with_flags(v == 0, false, false, c), m.write8(a, v))
}

/// RLCA: Z cleared.
pub open spec fn rlca_spec(d: InstructionData, r: Registers, m: MemoryModel) -> (Registers, MemoryModel) {
    let r1 = r.advance(1);
    let (v, c) = shift_spec(ShiftOp::Rlc, r.af.high, r.cf());
    (r1.with_r8(R8::A, v).with_flags(false, false, false, c), m)
}

/// RLA: Z cleared.
pub open spec fn rla_spec(d: InstructionData, r: Registers, m: MemoryModel) -> (Registers, MemoryModel) {
    let r1 = r.advance(1);
    let (v, c) = shift_spec(ShiftOp::Rl, r.af.high, r.cf());
    (r1.with_r8(R8::A, v).with_flags(false, false, false, c), m)
}

/// RRCA: Z cleared.
pub open spec fn rrca_spec(d: InstructionData, r: Registers, m: MemoryModel) -> (Registers, MemoryModel) {
    let r1 = r.advance(1);
    let (v, c) = shift_spec(ShiftOp::Rrc, r.af.high, r.cf());
    (r1.with_r8(R8::A, v).with_flags(false, false, false, c), m)
}

/// RRA: Z cleared.
pub open spec fn rra_spec(d: InstructionData, r: Registers, m: MemoryModel) -> (Registers, MemoryModel) {
    let r1 = r.advance(1);
    let (v, c) = shift_spec(ShiftOp::Rr, r.af.high, r.cf());
    (r1.with_r8(R8::A, v).with_flags(false, false, false, c), m)
}

/// The registers and bus after one instruction of family `op` with operands
/// `d`, from registers `r` and bus `m` (whose cycle count is the table's
/// cost). PC still points at the opcode (at the prefix for the extended
/// table).
pub open spec fn execute_spec(op: Op, d: InstructionData, r: Registers, m: MemoryModel) -> (
    Registers,
    MemoryModel,
) {
    match op {
        Op::NoOp => no_op_spec(d, r, m),
        Op::Stop => stop_spec(d, r, m),
        Op::JumpR16 => jump_r16_spec(d, r, m),
        Op::JumpImm16 => jump_imm16_spec(d, r, m),
        Op::JumpRelImm8 => jump_rel_imm8_spec(d, r, m),
        Op::LdR8R8 => ld_r8_r8_spec(d, r, m),
        Op::LdR8IndirR16 => ld_r8_indir_r16_spec(d, r, m),
        Op::LdR8Imm8 => ld_r8_imm8_spec(d, r, m),
        Op::LdR16R16 => ld_r16_r16_spec(d, r, m),
        Op::LdR16Imm16 => ld_r16_imm16_spec(d, r, m),
        Op::LdIndirR16R8 => ld_indir_r16_r8_spec(d, r, m),
        Op::LdiIndirR16R8 => ldi_indir_r16_r8_spec(d, r, m),
        Op::LddIndirR16R8 => ldd_indir_r16_r8_spec(d, r, m),
        Op::LdIndirR16Imm8 => ld_indir_r16_imm8_spec(d, r, m),
        Op::LdIndirImm16Sp => ld_indir_imm16_sp_spec(d, r, m),
        Op::LdFf00Imm8R8 => ld_ff00_imm8_r8_spec(d, r, m),
        Op::LdFf00R8Imm8 => ld_ff00_r8_imm8_spec(d, r, m),
        Op::LdFf00IndirR8R8 => ld_ff00_indir_r8_r8_spec(d, r, m),
        Op::LdFf00R8IndirR8 => ld_ff00_r8_indir_r8_spec(d, r, m),
        Op::LdIndirImm16R8 => ld_indir_imm16_r8_spec(d, r, m),
        Op::LdR8IndirImm16 => ld_r8_indir_imm16_spec(d, r, m),
        Op::LdiR8IndirR16 => ldi_r8_indir_r16_spec(d, r, m),
        Op::LddR8IndirR16 => ldd_r8_indir_r16_spec(d, r, m),
        Op::AddR16R16 => add_r16_r16_spec(d, r, m),
        Op::IncR8 => inc_r8_spec(d, r, m),
        Op::DecR8 => dec_r8_spec(d, r, m),
        Op::IncR16 => inc_r16_spec(d, r, m),
        Op::DecR16 => dec_r16_spec(d, r, m),
        Op::IncIndirR16 => inc_indir_r16_spec(d, r, m),
        Op::DecIndirR16 => dec_indir_r16_spec(d, r, m),
        Op::Ret => ret_spec(d, r, m),
        Op::Reti => reti_spec(d, r, m),
        Op::RetConditional => ret_conditional_spec(d, r, m),
        Op::RstN => rst_n_spec(d, r, m),
        Op::PushR16 => push_r16_spec(d, r, m),
        Op::PopR16 => pop_r16_spec(d, r, m),
        Op::Call => call_spec(d, r, m),
        Op::Cpl => cpl_spec(d, r, m),
        Op::Di => di_spec(d, r, m),
        Op::Ei => ei_spec(d, r, m),
        Op::Scf => scf_spec(d, r, m),
        Op::Ccf => ccf_spec(d, r, m),
        Op::Daa => daa_spec(d, r, m),
        Op::AddSpImm8 => add_sp_imm8_spec(d, r, m),
        Op::LdHlSpImm8 => ld_hl_sp_imm8_spec(d, r, m),
        Op::ExtBitR8 => ext_bit_r8_spec(d, r, m),
        Op::ExtBitIndirR16 => ext_bit_indir_r16_spec(d, r, m),
        Op::ExtResBitR8 => ext_res_bit_r8_spec(d, r, m),
        Op::ExtSetBitR8 => ext_set_bit_r8_spec(d, r, m),
        Op::ExtResBitIndirR16 => ext_res_bit_indir_r16_spec(d, r, m),
        Op::ExtSetBitIndirR16 => ext_set_bit_indir_r16_spec(d, r, m),
        Op::AndR8 => and_r8_spec(d, r, m),
        Op::AndIndirR16 => and_indir_r16_spec(d, r, m),
        Op::AndImm8 => and_imm8_spec(d, r, m),
        Op::XorR8 => xor_r8_spec(d, r, m),
        Op::XorIndirR16 => xor_indir_r16_spec(d, r, m),
        Op::XorImm8 => xor_imm8_spec(d, r, m),
        Op::OrR8 => or_r8_spec(d, r, m),
        Op::OrIndirR16 => or_indir_r16_spec(d, r, m),
        Op::OrImm8 => or_imm8_spec(d, r, m),
        Op::CpR8 => cp_r8_spec(d, r, m),
        Op::CpIndirR16 => cp_indir_r16_spec(d, r, m),
        Op::CpImm8 => cp_imm8_spec(d, r, m),
        Op::AddR8 => add_r8_spec(d, r, m),
        Op::AddIndirR16 => add_indir_r16_spec(d, r, m),
        Op::AddImm8 => add_imm8_spec(d, r, m),
        Op::AdcR8 => adc_r8_spec(d, r, m),
        Op::AdcIndirR16 => adc_indir_r16_spec(d, r, m),
        Op::AdcImm8 => adc_imm8_spec(d, r, m),
        Op::SubR8 => sub_r8_spec(d, r, m),
        Op::SubIndirR16 => sub_indir_r16_spec(d, r, m),
        Op::SubImm8 => sub_imm8_spec(d, r, m),
        Op::SbcR8 => sbc_r8_spec(d, r, m),
        Op::SbcIndirR16 => sbc_indir_r16_spec(d, r, m),
        Op::SbcImm8 => sbc_imm8_spec(d, r, m),
        Op::ExtRlcR8 => ext_rlc_r8_spec(d, r, m),
        Op::ExtRlcIndirR16 => ext_rlc_indir_r16_spec(d, r, m),
        Op::ExtRrcR8 => ext_rrc_r8_spec(d, r, m),
        Op::ExtRrcIndirR16 => ext_rrc_indir_r16_spec(d, r, m),
        Op::ExtRlR8 => ext_rl_r8_spec(d, r, m),
        Op::ExtRlIndirR16 => ext_rl_indir_r16_spec(d, r, m),
        Op::ExtRrR8 => ext_rr_r8_spec(d, r, m),
        Op::ExtRrIndirR16 => ext_rr_indir_r16_spec(d, r, m),
        Op::ExtSlaR8 => ext_sla_r8_spec(d, r, m),
        Op::ExtSlaIndirR16 => ext_sla_indir_r16_spec(d, r, m),
        Op::ExtSraR8 => ext_sra_r8_spec(d, r, m),
        Op::ExtSraIndirR16 => ext_sra_indir_r16_spec(d, r, m),
        Op::ExtSrlR8 => ext_srl_r8_spec(d, r, m),
        Op::ExtSrlIndirR16 => ext_srl_indir_r16_spec(d, r, m),
        Op::ExtSwapR8 => ext_swap_r8_spec(d, r, m),
        Op::ExtSwapIndirR16 => ext_swap_indir_r16_spec(d, r, m),
        Op::Rlca => rlca_spec(d, r, m),
        Op::Rla => rla_spec(d, r, m),
        Op::Rrca => rrca_spec(d, r, m),
        Op::Rra => rra_spec(d, r, m),
    }
}

/// The executor of `op` turned registers `r0` and bus `m0` into `r1` and
/// `m1`, as `execute_spec` says, and both stayed well formed.
pub open spec fn executes(
    op: Op,
    d: InstructionData,
    r0: Registers,
    m0: MemoryModel,
    r1: Registers,
    m1: MemoryModel,
) -> bool {
    &&& (r1, m1) == execute_spec(op, d, r0, m0)
    &&& r1.wf()
    &&& m1.wf()
}

broadcast use crate::registers::lemma_with_flags, crate::registers::lemma_with_af;

/// Runs `op` on A and `value`: A takes the result (but for CP) and all four
/// flags are set from it.
fn apply_alu(registers: &mut Registers, op: AluOp, value: u8)
    requires
        old(registers).wf(),
    ensures
        *final(registers) == alu_apply(*old(registers), op, value),
        final(registers).wf(),
{
    let res = alu(op, registers.read_r8(R8::A), value, registers.carry_flag());
    if op != AluOp::Cp {
        registers.write_r8(R8::A, res.value);
    }
    registers.set_flags(Some(res.z), Some(res.n), Some(res.h), Some(res.c));
}

/// SP plus the signed byte `offset`, with the half-carry and carry of the
/// unsigned add of `offset` to SP's low byte.
fn sp_offset(sp: u16, offset: u8) -> (r: (u16, bool, bool))
    ensures
        r == sp_offset_spec(sp, offset),
{
    let value = if offset < 128 {
        sp.wrapping_add(offset as u16)
    } else {
        sp.wrapping_sub(256 - offset as u16)
    };
    (value, sp % 16 + (offset % 16) as u16 > 15, sp % 256 + offset as u16 > 255)
}

pub fn no_op(registers: &mut Registers, _memory: &mut Memory, _additional: &InstructionData)
    requires
        old(registers).wf(),
        old(_memory)@.wf(),
        data_ok(Op::NoOp, *_additional),
    ensures
        executes(Op::NoOp, *_additional, *old(registers), old(_memory)@, *final(registers), final(_memory)@),
{
    registers.inc_pc(1);
}

pub fn jump_r16(registers: &mut Registers, _memory: &mut Memory, additional: &InstructionData)
    requires
        old(registers).wf(),
        old(_memory)@.wf(),
        data_ok(Op::JumpR16, *additional),
    ensures
        executes(Op::JumpR16, *additional, *old(registers), old(_memory)@, *final(registers), final(_memory)@),
{
    registers.inc_pc(1);
    let target_address = registers.read_r16(additional.r16_src.unwrap());
    registers.set_pc(target_address);
}

pub fn jump_imm16(registers: &mut Registers, memory: &mut Memory, additional: &InstructionData)
    requires
        old(registers).wf(),
        old(memory)@.wf(),
        data_ok(Op::JumpImm16, *additional),
    ensures
        executes(Op::JumpImm16, *additional, *old(registers), old(memory)@, *final(registers), final(memory)@),
{
    registers.inc_pc(1);
    if (registers.get_flags() & additional.flag_mask.unwrap()) == additional.flag_expected.unwrap() {
        let target_address = memory.read_u16(registers.get_pc());
        registers.set_pc(target_address);
    } else {
        registers.inc_pc(2);
        memory.set_cpu_cycles(3);
    }
}

pub fn jump_rel_imm8(registers: &mut Registers, memory: &mut Memory, additional: &InstructionData)
    requires
        old(registers).wf(),
        old(memory)@.wf(),
        data_ok(Op::JumpRelImm8, *additional),
    ensures
        executes(Op::JumpRelImm8, *additional, *old(registers), old(memory)@, *final(registers), final(memory)@),
{
    registers.inc_pc(1);
    if (registers.get_flags() & additional.flag_mask.unwrap()) == additional.flag_expected.unwrap() {
        let rel = memory.read_u8(registers.get_pc());
        registers.inc_pc(1);
        let pc = registers.get_pc();
        let new_pc = if rel & 0x80 == 0x80 {
            pc.wrapping_sub(256 - rel as u16)
        } else {
            pc.wrapping_add(rel as u16)
        };
        proof {
            assert((rel & 0x80 == 0x80) == (rel >= 128)) by (bit_vector);
        }
        registers.set_pc(new_pc);
    } else {
        registers.inc_pc(1);
        memory.set_cpu_cycles(2);
    }
}

pub(crate) fn ld_r8_r8(registers: &mut Registers, _memory: &mut Memory, additional: &InstructionData)
    requires
        old(registers).wf(),
        old(_memory)@.wf(),
        data_ok(Op::LdR8R8, *additional),
    ensures
        executes(Op::LdR8R8, *additional, *old(registers), old(_memory)@, *final(registers), final(_memory)@),
{
    registers.inc_pc(1);
    let value = registers.read_r8(additional.r8_src.unwrap());
    registers.write_r8(additional.r8_dst.unwrap(), value);
}

pub(crate) fn ld_r8_indir_r16(registers: &mut Registers, memory: &mut Memory, additional: &InstructionData)
    requires
        old(registers).wf(),
        old(memory)@.wf(),
        data_ok(Op::LdR8IndirR16, *additional),
    ensures
        executes(Op::LdR8IndirR16, *additional, *old(registers), old(memory)@, *final(registers), final(memory)@),
{
    registers.inc_pc(1);
    let address = registers.read_r16(additional.r16_src.unwrap());
    let value = memory.read_u8(address);
    registers.write_r8(additional.r8_dst.unwrap(), value);
}

pub(crate) fn ld_r8_imm8(registers: &mut Registers, memory: &mut Memory, additional: &InstructionData)
    requires
        old(registers).wf(),
        old(memory)@.wf(),
        data_ok(Op::LdR8Imm8, *additional),
    ensures
        executes(Op::LdR8Imm8, *additional, *old(registers), old(memory)@, *final(registers), final(memory)@),
{
    registers.inc_pc(1);
    let value = memory.read_u8(registers.get_pc());
    registers.inc_pc(1);
    registers.write_r8(additional.r8_dst.unwrap(), value);
}

pub(crate) fn ld_r16_r16(registers: &mut Registers, _memory: &mut Memory, additional: &InstructionData)
    requires
        old(registers).wf(),
        old(_memory)@.wf(),
        data_ok(Op::LdR16R16, *additional),
    ensures
        executes(Op::LdR16R16, *additional, *old(registers), old(_memory)@, *final(registers), final(_memory)@),
{
    registers.inc_pc(1);
    let value = registers.read_r16(additional.r16_src.unwrap());
    registers.write_r16(additional.r16_dst.unwrap(), value);
}

pub(crate) fn ld_r16_imm16(registers: &mut Registers, memory: &mut Memory, additional: &InstructionData)
    requires
        old(registers).wf(),
        old(memory)@.wf(),
        data_ok(Op::LdR16Imm16, *additional),
    ensures
        executes(Op::LdR16Imm16, *additional, *old(registers), old(memory)@, *final(registers), final(memory)@),
{
    registers.inc_pc(1);
    let value = memory.read_u16(registers.get_pc());
    registers.inc_pc(2);
    registers.write_r16(additional.r16_dst.unwrap(), value);
}

pub(crate) fn ld_indir_r16_r8(registers: &mut Registers, memory: &mut Memory, additional: &InstructionData)
    requires
        old(registers).wf(),
        old(memory)@.wf(),
        data_ok(Op::LdIndirR16R8, *additional),
    ensures
        executes(Op::LdIndirR16R8, *additional, *old(registers), old(memory)@, *final(registers), final(memory)@),
{
    registers.inc_pc(1);
    let value = registers.read_r8(additional.r8_src.unwrap());
    let address = registers.read_r16(additional.r16_dst.unwrap());
    memory.write_u8(address, value);
}

pub(crate) fn ldi_indir_r16_r8(registers: &mut Registers, memory: &mut Memory, additional: &InstructionData)
    requires
        old(registers).wf(),
        old(memory)@.wf(),
        data_ok(Op::LdiIndirR16R8, *additional),
    ensures
        executes(Op::LdiIndirR16R8, *additional, *old(registers), old(memory)@, *final(registers), final(memory)@),
{
    registers.inc_pc(1);
    let value = registers.read_r8(additional.r8_src.unwrap());
    let address = registers.read_r16(additional.r16_dst.unwrap());
    memory.write_u8(address, value);
    registers.write_r16(additional.r16_dst.unwrap(), address.wrapping_add(1));
}

pub(crate) fn ldd_indir_r16_r8(registers: &mut Registers, memory: &mut Memory, additional: &InstructionData)
    requires
        old(registers).wf(),
        old(memory)@.wf(),
        data_ok(Op::LddIndirR16R8, *additional),
    ensures
        executes(Op::LddIndirR16R8, *additional, *old(registers), old(memory)@, *final(registers), final(memory)@),
{
    registers.inc_pc(1);
    let value = registers.read_r8(additional.r8_src.unwrap());
    let address = registers.read_r16(additional.r16_dst.unwrap());
    memory.write_u8(address, value);
    registers.write_r16(additional.r16_dst.unwrap(), address.wrapping_sub(1));
}

pub(crate) fn ld_indir_r16_imm8(registers: &mut Registers, memory: &mut Memory, additional: &InstructionData)
    requires
        old(registers).wf(),
        old(memory)@.wf(),
        data_ok(Op::LdIndirR16Imm8, *additional),
    ensures
        executes(Op::LdIndirR16Imm8, *additional, *old(registers), old(memory)@, *final(registers), final(memory)@),
{
    registers.inc_pc(1);
    let value = memory.read_u8(registers.get_pc());
    registers.inc_pc(1);
    let address = registers.read_r16(additional.r16_dst.unwrap());
    memory.write_u8(address, value);
}

pub(crate) fn ld_indir_imm16_sp(registers: &mut Registers, memory: &mut Memory, _additional: &InstructionData)
    requires
        old(registers).wf(),
        old(memory)@.wf(),
        data_ok(Op::LdIndirImm16Sp, *_additional),
    ensures
        executes(Op::LdIndirImm16Sp, *_additional, *old(registers), old(memory)@, *final(registers), final(memory)@),
{
    registers.inc_pc(1);
    let value = registers.stack_peek16(memory);
    let address = memory.read_u16(registers.get_pc());
    registers.inc_pc(2);
    memory.write_u16(address, value);
}

pub(crate) fn ld_ff00_imm8_r8(registers: &mut Registers, memory: &mut Memory, additional: &InstructionData)
    requires
        old(registers).wf(),
        old(memory)@.wf(),
        data_ok(Op::LdFf00Imm8R8, *additional),
    ensures
        executes(Op::LdFf00Imm8R8, *additional, *old(registers), old(memory)@, *final(registers), final(memory)@),
{
    registers.inc_pc(1);
    let address = 0xFF00 + memory.read_u8(registers.get_pc()) as u16;
    registers.inc_pc(1);
    let value = registers.read_r8(additional.r8_src.unwrap());
    memory.write_u8(address, value);
}

pub(crate) fn ld_ff00_r8_imm8(registers: &mut Registers, memory: &mut Memory, additional: &InstructionData)
    requires
        old(registers).wf(),
        old(memory)@.wf(),
        data_ok(Op::LdFf00R8Imm8, *additional),
    ensures
        executes(Op::LdFf00R8Imm8, *additional, *old(registers), old(memory)@, *final(registers), final(memory)@),
{
    registers.inc_pc(1);
    let address = 0xFF00 + memory.read_u8(registers.get_pc()) as u16;
    registers.inc_pc(1);
    let value = memory.read_u8(address);
    registers.write_r8(additional.r8_dst.unwrap(), value);
}

pub(crate) fn ld_ff00_indir_r8_r8(registers: &mut Registers, memory: &mut Memory, additional: &InstructionData)
    requires
        old(registers).wf(),
        old(memory)@.wf(),
        data_ok(Op::LdFf00IndirR8R8, *additional),
    ensures
        executes(Op::LdFf00IndirR8R8, *additional, *old(registers), old(memory)@, *final(registers), final(memory)@),
{
    registers.inc_pc(1);
    let value = registers.read_r8(additional.r8_src.unwrap());
    let address = 0xFF00 + registers.read_r8(additional.r8_dst.unwrap()) as u16;
    memory.write_u8(address, value);
}

pub(crate) fn ld_ff00_r8_indir_r8(registers: &mut Registers, memory: &mut Memory, additional: &InstructionData)
    requires
        old(registers).wf(),
        old(memory)@.wf(),
        data_ok(Op::LdFf00R8IndirR8, *additional),
    ensures
        executes(Op::LdFf00R8IndirR8, *additional, *old(registers), old(memory)@, *final(registers), final(memory)@),
{
    registers.inc_pc(1);
    let address = 0xFF00 + registers.read_r8(additional.r8_src.unwrap()) as u16;
    let value = memory.read_u8(address);
    registers.write_r8(additional.r8_dst.unwrap(), value);
}

pub(crate) fn ld_indir_imm16_r8(registers: &mut Registers, memory: &mut Memory, additional: &InstructionData)
    requires
        old(registers).wf(),
        old(memory)@.wf(),
        data_ok(Op::LdIndirImm16R8, *additional),
    ensures
        executes(Op::LdIndirImm16R8, *additional, *old(registers), old(memory)@, *final(registers), final(memory)@),
{
    registers.inc_pc(1);
    let value = registers.read_r8(additional.r8_src.unwrap());
    let address = memory.read_u16(registers.get_pc());
    registers.inc_pc(2);
    memory.write_u8(address, value);
}

pub(crate) fn ld_r8_indir_imm16(registers: &mut Registers, memory: &mut Memory, additional: &InstructionData)
    requires
        old(registers).wf(),
        old(memory)@.wf(),
        data_ok(Op::LdR8IndirImm16, *additional),
    ensures
        executes(Op::LdR8IndirImm16, *additional, *old(registers), old(memory)@, *final(registers), final(memory)@),
{
    registers.inc_pc(1);
    let address = memory.read_u16(registers.get_pc());
    registers.inc_pc(2);
    let value = memory.read_u8(address);
    registers.write_r8(additional.r8_dst.unwrap(), value);
}

pub(crate) fn ldi_r8_indir_r16(registers: &mut Registers, memory: &mut Memory, additional: &InstructionData)
    requires
        old(registers).wf(),
        old(memory)@.wf(),
        data_ok(Op::LdiR8IndirR16, *additional),
    ensures
        executes(Op::LdiR8IndirR16, *additional, *old(registers), old(memory)@, *final(registers), final(memory)@),
{
    registers.inc_pc(1);
    let address = registers.read_r16(additional.r16_src.unwrap());
    let value = memory.read_u8(address);
    registers.write_r8(additional.r8_dst.unwrap(), value);
    registers.write_r16(additional.r16_src.unwrap(), address.wrapping_add(1));
}

pub(crate) fn ldd_r8_indir_r16(registers: &mut Registers, memory: &mut Memory, additional: &InstructionData)
    requires
        old(registers).wf(),
        old(memory)@.wf(),
        data_ok(Op::LddR8IndirR16, *additional),
    ensures
        executes(Op::LddR8IndirR16, *additional, *old(registers), old(memory)@, *final(registers), final(memory)@),
{
    registers.inc_pc(1);
    let address = registers.read_r16(additional.r16_src.unwrap());
    let value = memory.read_u8(address);
    registers.write_r8(additional.r8_dst.unwrap(), value);
    registers.write_r16(additional.r16_src.unwrap(), address.wrapping_sub(1));
}

pub(crate) fn add_r16_r16(registers: &mut Registers, _memory: &mut Memory, additional: &InstructionData)
    requires
        old(registers).wf(),
        old(_memory)@.wf(),
        data_ok(Op::AddR16R16, *additional),
    ensures
        executes(Op::AddR16R16, *additional, *old(registers), old(_memory)@, *final(registers), final(_memory)@),
{
    registers.inc_pc(1);
    let src = additional.r16_src.unwrap();
    let dst = additional.r16_dst.unwrap();
    let lhs = registers.read_r16(dst);
    let rhs = registers.read_r16(src);
    let half_carry = (lhs % 4096) + (rhs % 4096) > 4095;
    let carry = lhs as u32 + rhs as u32 > 0xFFFF;
    registers.write_r16(dst, lhs.wrapping_add(rhs));
    registers.set_flags(None, Some(false), Some(half_carry), Some(carry));
}

pub(crate) fn inc_r8(registers: &mut Registers, _memory: &mut Memory, additional: &InstructionData)
    requires
        old(registers).wf(),
        old(_memory)@.wf(),
        data_ok(Op::IncR8, *additional),
    ensures
        executes(Op::IncR8, *additional, *old(registers), old(_memory)@, *final(registers), final(_memory)@),
{
    registers.inc_pc(1);
    let register = additional.r8_dst.unwrap();
    let value = registers.read_r8(register);
    let result = value.wrapping_add(1);
    registers.write_r8(register, result);
    registers.set_flags(Some(result == 0), Some(false), Some(value % 16 == 15), None);
}

pub(crate) fn inc_r16(registers: &mut Registers, _memory: &mut Memory, additional: &InstructionData)
    requires
        old(registers).wf(),
        old(_memory)@.wf(),
        data_ok(Op::IncR16, *additional),
    ensures
        executes(Op::IncR16, *additional, *old(registers), old(_memory)@, *final(registers), final(_memory)@),
{
    registers.inc_pc(1);
    let register = additional.r16_dst.unwrap();
    let value = registers.read_r16(register);
    registers.write_r16(register, value.wrapping_add(1));
}

pub(crate) fn inc_indir_r16(registers: &mut Registers, memory: &mut Memory, additional: &InstructionData)
    requires
        old(registers).wf(),
        old(memory)@.wf(),
        data_ok(Op::IncIndirR16, *additional),
    ensures
        executes(Op::IncIndirR16, *additional, *old(registers), old(memory)@, *final(registers), final(memory)@),
{
    registers.inc_pc(1);
    let address = registers.read_r16(additional.r16_dst.unwrap());
    let value = memory.read_u8(address);
    let result = value.wrapping_add(1);
    memory.write_u8(address, result);
    registers.set_flags(Some(result == 0), Some(false), Some(value % 16 == 15), None);
}

pub(crate) fn dec_r8(registers: &mut Registers, _memory: &mut Memory, additional: &InstructionData)
    requires
        old(registers).wf(),
        old(_memory)@.wf(),
        data_ok(Op::DecR8, *additional),
    ensures
        executes(Op::DecR8, *additional, *old(registers), old(_memory)@, *final(registers), final(_memory)@),
{
    registers.inc_pc(1);
    let register = additional.r8_dst.unwrap();
    let value = registers.read_r8(register);
    let result = value.wrapping_sub(1);
    registers.write_r8(register, result);
    registers.set_flags(Some(result == 0), Some(true), Some(value % 16 == 0), None);
}

pub(crate) fn dec_r16(registers: &mut Registers, _memory: &mut Memory, additional: &InstructionData)
    requires
        old(registers).wf(),
        old(_memory)@.wf(),
        data_ok(Op::DecR16, *additional),
    ensures
        executes(Op::DecR16, *additional, *old(registers), old(_memory)@, *final(registers), final(_memory)@),
{
    registers.inc_pc(1);
    let register = additional.r16_dst.unwrap();
    let value = registers.read_r16(register);
    registers.write_r16(register, value.wrapping_sub(1));
}

pub(crate) fn dec_indir_r16(registers: &mut Registers, memory: &mut Memory, additional: &InstructionData)
    requires
        old(registers).wf(),
        old(memory)@.wf(),
        data_ok(Op::DecIndirR16, *additional),
    ensures
        executes(Op::DecIndirR16, *additional, *old(registers), old(memory)@, *final(registers), final(memory)@),
{
    registers.inc_pc(1);
    let address = registers.read_r16(additional.r16_dst.unwrap());
    let value = memory.read_u8(address);
    let result = value.wrapping_sub(1);
    memory.write_u8(address, result);
    registers.set_flags(Some(result == 0), Some(true), Some(value % 16 == 0), None);
}

pub(crate) fn ret(registers: &mut Registers, memory: &mut Memory, _additional: &InstructionData)
    requires
        old(registers).wf(),
        old(memory)@.wf(),
        data_ok(Op::Ret, *_additional),
    ensures
        executes(Op::Ret, *_additional, *old(registers), old(memory)@, *final(registers), final(memory)@),
{
    registers.inc_pc(1);
    let new_pc = registers.stack_pop16(memory);
    registers.set_pc(new_pc);
}

pub(crate) fn ret_conditional(registers: &mut Registers, memory: &mut Memory, additional: &InstructionData)
    requires
        old(registers).wf(),
        old(memory)@.wf(),
        data_ok(Op::RetConditional, *additional),
    ensures
        executes(Op::RetConditional, *additional, *old(registers), old(memory)@, *final(registers), final(memory)@),
{
    registers.inc_pc(1);
    if (registers.get_flags() & additional.flag_mask.unwrap()) == additional.flag_expected.unwrap() {
        let new_pc = registers.stack_pop16(memory);
        registers.set_pc(new_pc);
    } else {
        memory.set_cpu_cycles(2);
    }
}

pub(crate) fn reti(registers: &mut Registers, memory: &mut Memory, _additional: &InstructionData)
    requires
        old(registers).wf(),
        old(memory)@.wf(),
        data_ok(Op::Reti, *_additional),
    ensures
        executes(Op::Reti, *_additional, *old(registers), old(memory)@, *final(registers), final(memory)@),
{
    registers.inc_pc(1);
    let new_pc = registers.stack_pop16(memory);
    registers.set_pc(new_pc);
    registers.set_ime(true);
}

pub(crate) fn rst_n(registers: &mut Registers, memory: &mut Memory, additional: &InstructionData)
    requires
        old(registers).wf(),
        old(memory)@.wf(),
        data_ok(Op::RstN, *additional),
    ensures
        executes(Op::RstN, *additional, *old(registers), old(memory)@, *final(registers), final(memory)@),
{
    registers.inc_pc(1);
    let pc = registers.get_pc();
    registers.stack_push16(pc, memory);
    registers.set_pc(additional.code.unwrap() as u16);
}

pub(crate) fn push_r16(registers: &mut Registers, memory: &mut Memory, additional: &InstructionData)
    requires
        old(registers).wf(),
        old(memory)@.wf(),
        data_ok(Op::PushR16, *additional),
    ensures
        executes(Op::PushR16, *additional, *old(registers), old(memory)@, *final(registers), final(memory)@),
{
    registers.inc_pc(1);
    let value = registers.read_r16(additional.r16_src.unwrap());
    registers.stack_push16(value, memory);
}

pub(crate) fn pop_r16(registers: &mut Registers, memory: &mut Memory, additional: &InstructionData)
    requires
        old(registers).wf(),
        old(memory)@.wf(),
        data_ok(Op::PopR16, *additional),
    ensures
        executes(Op::PopR16, *additional, *old(registers), old(memory)@, *final(registers), final(memory)@),
{
    registers.inc_pc(1);
    let value = registers.stack_pop16(memory);
    registers.write_r16(additional.r16_dst.unwrap(), value);
}

pub(crate) fn call(registers: &mut Registers, memory: &mut Memory, additional: &InstructionData)
    requires
        old(registers).wf(),
        old(memory)@.wf(),
        data_ok(Op::Call, *additional),
    ensures
        executes(Op::Call, *additional, *old(registers), old(memory)@, *final(registers), final(memory)@),
{
    registers.inc_pc(1);
    let address = memory.read_u16(registers.get_pc());
    registers.inc_pc(2);
    if (registers.get_flags() & additional.flag_mask.unwrap()) == additional.flag_expected.unwrap() {
        let pc = registers.get_pc();
        registers.stack_push16(pc, memory);
        registers.set_pc(address);
    } else {
        memory.set_cpu_cycles(3);
    }
}

pub(crate) fn stop(registers: &mut Registers, _memory: &mut Memory, _additional: &InstructionData)
    requires
        old(registers).wf(),
        old(_memory)@.wf(),
        data_ok(Op::Stop, *_additional),
    ensures
        executes(Op::Stop, *_additional, *old(registers), old(_memory)@, *final(registers), final(_memory)@),
{
    registers.inc_pc(2);
}

pub(crate) fn rlca(registers: &mut Registers, _memory: &mut Memory, _additional: &InstructionData)
    requires
        old(registers).wf(),
        old(_memory)@.wf(),
        data_ok(Op::Rlca, *_additional),
    ensures
        executes(Op::Rlca, *_additional, *old(registers), old(_memory)@, *final(registers), final(_memory)@),
{
    registers.inc_pc(1);
    let (value, new_carry) = shift(ShiftOp::Rlc, registers.read_r8(R8::A), registers.carry_flag());
    registers.write_r8(R8::A, value);
    registers.set_flags(Some(false), Some(false), Some(false), Some(new_carry));
}

pub(crate) fn rla(registers: &mut Registers, _memory: &mut Memory, _additional: &InstructionData)
    requires
        old(registers).wf(),
        old(_memory)@.wf(),
        data_ok(Op::Rla, *_additional),
    ensures
        executes(Op::Rla, *_additional, *old(registers), old(_memory)@, *final(registers), final(_memory)@),
{
    registers.inc_pc(1);
    let (value, new_carry) = shift(ShiftOp::Rl, registers.read_r8(R8::A), registers.carry_flag());
    registers.write_r8(R8::A, value);
    registers.set_flags(Some(false), Some(false), Some(false), Some(new_carry));
}

pub(crate) fn rrca(registers: &mut Registers, _memory: &mut Memory, _additional: &InstructionData)
    requires
        old(registers).wf(),
        old(_memory)@.wf(),
        data_ok(Op::Rrca, *_additional),
    ensures
        executes(Op::Rrca, *_additional, *old(registers), old(_memory)@, *final(registers), final(_memory)@),
{
    registers.inc_pc(1);
    let (value, new_carry) = shift(ShiftOp::Rrc, registers.read_r8(R8::A), registers.carry_flag());
    registers.write_r8(R8::A, value);
    registers.set_flags(Some(false), Some(false), Some(false), Some(new_carry));
}

pub(crate) fn rra(registers: &mut Registers, _memory: &mut Memory, _additional: &InstructionData)
    requires
        old(registers).wf(),
        old(_memory)@.wf(),
        data_ok(Op::Rra, *_additional),
    ensures
        executes(Op::Rra, *_additional, *old(registers), old(_memory)@, *final(registers), final(_memory)@),
{
    registers.inc_pc(1);
    let (value, new_carry) = shift(ShiftOp::Rr, registers.read_r8(R8::A), registers.carry_flag());
    registers.write_r8(R8::A, value);
    registers.set_flags(Some(false), Some(false), Some(false), Some(new_carry));
}

pub(crate) fn cpl(registers: &mut Registers, _memory: &mut Memory, _additional: &InstructionData)
    requires
        old(registers).wf(),
        old(_memory)@.wf(),
        data_ok(Op::Cpl, *_additional),
    ensures
        executes(Op::Cpl, *_additional, *old(registers), old(_memory)@, *final(registers), final(_memory)@),
{
    registers.inc_pc(1);
    registers.set_flags(None, Some(true), Some(true), None);
    let ones_complement = !registers.read_r8(R8::A);
    registers.write_r8(R8::A, ones_complement);
}

pub(crate) fn di(registers: &mut Registers, _memory: &mut Memory, _additional: &InstructionData)
    requires
        old(registers).wf(),
        old(_memory)@.wf(),
        data_ok(Op::Di, *_additional),
    ensures
        executes(Op::Di, *_additional, *old(registers), old(_memory)@, *final(registers), final(_memory)@),
{
    registers.inc_pc(1);
    registers.set_ime(false);
}

pub(crate) fn ei(registers: &mut Registers, _memory: &mut Memory, _additional: &InstructionData)
    requires
        old(registers).wf(),
        old(_memory)@.wf(),
        data_ok(Op::Ei, *_additional),
    ensures
        executes(Op::Ei, *_additional, *old(registers), old(_memory)@, *final(registers), final(_memory)@),
{
    registers.inc_pc(1);
    registers.set_ime(true);
}

pub(crate) fn scf(registers: &mut Registers, _memory: &mut Memory, _additional: &InstructionData)
    requires
        old(registers).wf(),
        old(_memory)@.wf(),
        data_ok(Op::Scf, *_additional),
    ensures
        executes(Op::Scf, *_additional, *old(registers), old(_memory)@, *final(registers), final(_memory)@),
{
    registers.inc_pc(1);
    registers.set_flags(None, Some(false), Some(false), Some(true));
}

pub(crate) fn ccf(registers: &mut Registers, _memory: &mut Memory, _additional: &InstructionData)
    requires
        old(registers).wf(),
        old(_memory)@.wf(),
        data_ok(Op::Ccf, *_additional),
    ensures
        executes(Op::Ccf, *_additional, *old(registers), old(_memory)@, *final(registers), final(_memory)@),
{
    registers.inc_pc(1);
    let toggled_carry = !registers.carry_flag();
    registers.set_flags(None, Some(false), Some(false), Some(toggled_carry));
}

pub(crate) fn daa(registers: &mut Registers, _memory: &mut Memory, _additional: &InstructionData)
    requires
        old(registers).wf(),
        old(_memory)@.wf(),
        data_ok(Op::Daa, *_additional),
    ensures
        executes(Op::Daa, *_additional, *old(registers), old(_memory)@, *final(registers), final(_memory)@),
{
    registers.inc_pc(1);
    let a = registers.read_r8(R8::A);
    let subtract = registers.subtract_flag();
    let half_carry = registers.half_carry_flag();
    let carry = registers.carry_flag();
    let (value, new_carry) = if !subtract {
        let hi = carry || a > 0x99;
        let lo = half_carry || a % 16 > 9;
        let adj: u16 = (if hi { 0x60 } else { 0 }) + (if lo { 6 } else { 0 });
        (((a as u16 + adj) % 256) as u8, hi)
    } else {
        let adj: u16 = (if carry { 0x60 } else { 0 }) + (if half_carry { 6 } else { 0 });
        (((a as u16 + 256 - adj) % 256) as u8, carry)
    };
    registers.write_r8(R8::A, value);
    registers.set_flags(Some(value == 0), None, Some(false), Some(new_carry));
}

pub(crate) fn add_sp_imm8(registers: &mut Registers, memory: &mut Memory, _additional: &InstructionData)
    requires
        old(registers).wf(),
        old(memory)@.wf(),
        data_ok(Op::AddSpImm8, *_additional),
    ensures
        executes(Op::AddSpImm8, *_additional, *old(registers), old(memory)@, *final(registers), final(memory)@),
{
    registers.inc_pc(1);
    let offset = memory.read_u8(registers.get_pc());
    registers.inc_pc(1);
    let (value, half_carry, carry) = sp_offset(registers.read_r16(R16::SP), offset);
    registers.write_r16(R16::SP, value);
    registers.set_flags(Some(false), Some(false), Some(half_carry), Some(carry));
}

pub(crate) fn ld_hl_sp_imm8(registers: &mut Registers, memory: &mut Memory, _additional: &InstructionData)
    requires
        old(registers).wf(),
        old(memory)@.wf(),
        data_ok(Op::LdHlSpImm8, *_additional),
    ensures
        executes(Op::LdHlSpImm8, *_additional, *old(registers), old(memory)@, *final(registers), final(memory)@),
{
    registers.inc_pc(1);
    let offset = memory.read_u8(registers.get_pc());
    registers.inc_pc(1);
    let (value, half_carry, carry) = sp_offset(registers.read_r16(R16::SP), offset);
    registers.write_r16(R16::HL, value);
    registers.set_flags(Some(false), Some(false), Some(half_carry), Some(carry));
}

pub(crate) fn ext_bit_r8(registers: &mut Registers, _memory: &mut Memory, additional: &InstructionData)
    requires
        old(registers).wf(),
        old(_memory)@.wf(),
        data_ok(Op::ExtBitR8, *additional),
    ensures
        executes(Op::ExtBitR8, *additional, *old(registers), old(_memory)@, *final(registers), final(_memory)@),
{
    registers.inc_pc(2);
    let value = registers.read_r8(additional.r8_src.unwrap());
    let result = (value >> additional.bit.unwrap()) & 1;
    registers.set_flags(Some(result == 0), Some(false), Some(true), None);
}

pub(crate) fn ext_bit_indir_r16(registers: &mut Registers, memory: &mut Memory, additional: &InstructionData)
    requires
        old(registers).wf(),
        old(memory)@.wf(),
        data_ok(Op::ExtBitIndirR16, *additional),
    ensures
        executes(Op::ExtBitIndirR16, *additional, *old(registers), old(memory)@, *final(registers), final(memory)@),
{
    registers.inc_pc(2);
    let address = registers.read_r16(additional.r16_src.unwrap());
    let value = memory.read_u8(address);
    let result = (value >> additional.bit.unwrap()) & 1;
    registers.set_flags(Some(result == 0), Some(false), Some(true), None);
}

pub(crate) fn ext_res_bit_r8(registers: &mut Registers, _memory: &mut Memory, additional: &InstructionData)
    requires
        old(registers).wf(),
        old(_memory)@.wf(),
        data_ok(Op::ExtResBitR8, *additional),
    ensures
        executes(Op::ExtResBitR8, *additional, *old(registers), old(_memory)@, *final(registers), final(_memory)@),
{
    registers.inc_pc(2);
    let value = registers.read_r8(additional.r8_src.unwrap());
    let bit_mask = !(1u8 << additional.bit.unwrap());
    registers.write_r8(additional.r8_src.unwrap(), value & bit_mask);
}

pub(crate) fn ext_res_bit_indir_r16(registers: &mut Registers, memory: &mut Memory, additional: &InstructionData)
    requires
        old(registers).wf(),
        old(memory)@.wf(),
        data_ok(Op::ExtResBitIndirR16, *additional),
    ensures
        executes(Op::ExtResBitIndirR16, *additional, *old(registers), old(memory)@, *final(registers), final(memory)@),
{
    registers.inc_pc(2);
    let address = registers.read_r16(additional.r16_src.unwrap());
    let value = memory.read_u8(address);
    let bit_mask = !(1u8 << additional.bit.unwrap());
    memory.write_u8(address, value & bit_mask);
}

pub(crate) fn ext_set_bit_r8(registers: &mut Registers, _memory: &mut Memory, additional: &InstructionData)
    requires
        old(registers).wf(),
        old(_memory)@.wf(),
        data_ok(Op::ExtSetBitR8, *additional),
    ensures
        executes(Op::ExtSetBitR8, *additional, *old(registers), old(_memory)@, *final(registers), final(_memory)@),
{
    registers.inc_pc(2);
    let value = registers.read_r8(additional.r8_src.unwrap());
    let bit_mask = 1u8 << additional.bit.unwrap();
    registers.write_r8(additional.r8_src.unwrap(), value | bit_mask);
}

pub(crate) fn ext_set_bit_indir_r16(registers: &mut Registers, memory: &mut Memory, additional: &InstructionData)
    requires
        old(registers).wf(),
        old(memory)@.wf(),
        data_ok(Op::ExtSetBitIndirR16, *additional),
    ensures
        executes(Op::ExtSetBitIndirR16, *additional, *old(registers), old(memory)@, *final(registers), final(memory)@),
{
    registers.inc_pc(2);
    let address = registers.read_r16(additional.r16_src.unwrap());
    let value = memory.read_u8(address);
    let bit_mask = 1u8 << additional.bit.unwrap();
    memory.write_u8(address, value | bit_mask);
}

pub(crate) fn and_r8(registers: &mut Registers, _memory: &mut Memory, additional: &InstructionData)
    requires
        old(registers).wf(),
        old(_memory)@.wf(),
        data_ok(Op::AndR8, *additional),
    ensures
        executes(Op::AndR8, *additional, *old(registers), old(_memory)@, *final(registers), final(_memory)@),
{
    registers.inc_pc(1);
    let value = registers.read_r8(additional.r8_src.unwrap());
    apply_alu(registers, AluOp::And, value);
}

pub(crate) fn and_indir_r16(registers: &mut Registers, memory: &mut Memory, additional: &InstructionData)
    requires
        old(registers).wf(),
        old(memory)@.wf(),
        data_ok(Op::AndIndirR16, *additional),
    ensures
        executes(Op::AndIndirR16, *additional, *old(registers), old(memory)@, *final(registers), final(memory)@),
{
    registers.inc_pc(1);
    let address = registers.read_r16(additional.r16_src.unwrap());
    let value = memory.read_u8(address);
    apply_alu(registers, AluOp::And, value);
}

pub(crate) fn and_imm8(registers: &mut Registers, memory: &mut Memory, _additional: &InstructionData)
    requires
        old(registers).wf(),
        old(memory)@.wf(),
        data_ok(Op::AndImm8, *_additional),
    ensures
        executes(Op::AndImm8, *_additional, *old(registers), old(memory)@, *final(registers), final(memory)@),
{
    registers.inc_pc(1);
    let value = memory.read_u8(registers.get_pc());
    registers.inc_pc(1);
    apply_alu(registers, AluOp::And, value);
}

pub(crate) fn xor_r8(registers: &mut Registers, _memory: &mut Memory, additional: &InstructionData)
    requires
        old(registers).wf(),
        old(_memory)@.wf(),
        data_ok(Op::XorR8, *additional),
    ensures
        executes(Op::XorR8, *additional, *old(registers), old(_memory)@, *final(registers), final(_memory)@),
{
    registers.inc_pc(1);
    let value = registers.read_r8(additional.r8_src.unwrap());
    apply_alu(registers, AluOp::Xor, value);
}

pub(crate) fn xor_indir_r16(registers: &mut Registers, memory: &mut Memory, additional: &InstructionData)
    requires
        old(registers).wf(),
        old(memory)@.wf(),
        data_ok(Op::XorIndirR16, *additional),
    ensures
        executes(Op::XorIndirR16, *additional, *old(registers), old(memory)@, *final(registers), final(memory)@),
{
    registers.inc_pc(1);
    let address = registers.read_r16(additional.r16_src.unwrap());
    let value = memory.read_u8(address);
    apply_alu(registers, AluOp::Xor, value);
}

pub(crate) fn xor_imm8(registers: &mut Registers, memory: &mut Memory, _additional: &InstructionData)
    requires
        old(registers).wf(),
        old(memory)@.wf(),
        data_ok(Op::XorImm8, *_additional),
    ensures
        executes(Op::XorImm8, *_additional, *old(registers), old(memory)@, *final(registers), final(memory)@),
{
    registers.inc_pc(1);
    let value = memory.read_u8(registers.get_pc());
    registers.inc_pc(1);
    apply_alu(registers, AluOp::Xor, value);
}

pub(crate) fn or_r8(registers: &mut Registers, _memory: &mut Memory, additional: &InstructionData)
    requires
        old(registers).wf(),
        old(_memory)@.wf(),
        data_ok(Op::OrR8, *additional),
    ensures
        executes(Op::OrR8, *additional, *old(registers), old(_memory)@, *final(registers), final(_memory)@),
{
    registers.inc_pc(1);
    let value = registers.read_r8(additional.r8_src.unwrap());
    apply_alu(registers, AluOp::Or, value);
}

pub(crate) fn or_indir_r16(registers: &mut Registers, memory: &mut Memory, additional: &InstructionData)
    requires
        old(registers).wf(),
        old(memory)@.wf(),
        data_ok(Op::OrIndirR16, *additional),
    ensures
        executes(Op::OrIndirR16, *additional, *old(registers), old(memory)@, *final(registers), final(memory)@),
{
    registers.inc_pc(1);
    let address = registers.read_r16(additional.r16_src.unwrap());
    let value = memory.read_u8(address);
    apply_alu(registers, AluOp::Or, value);
}

pub(crate) fn or_imm8(registers: &mut Registers, memory: &mut Memory, _additional: &InstructionData)
    requires
        old(registers).wf(),
        old(memory)@.wf(),
        data_ok(Op::OrImm8, *_additional),
    ensures
        executes(Op::OrImm8, *_additional, *old(registers), old(memory)@, *final(registers), final(memory)@),
{
    registers.inc_pc(1);
    let value = memory.read_u8(registers.get_pc());
    registers.inc_pc(1);
    apply_alu(registers, AluOp::Or, value);
}

pub(crate) fn cp_r8(registers: &mut Registers, _memory: &mut Memory, additional: &InstructionData)
    requires
        old(registers).wf(),
        old(_memory)@.wf(),
        data_ok(Op::CpR8, *additional),
    ensures
        executes(Op::CpR8, *additional, *old(registers), old(_memory)@, *final(registers), final(_memory)@),
{
    registers.inc_pc(1);
    let value = registers.read_r8(additional.r8_src.unwrap());
    apply_alu(registers, AluOp::Cp, value);
}

pub(crate) fn cp_indir_r16(registers: &mut Registers, memory: &mut Memory, additional: &InstructionData)
    requires
        old(registers).wf(),
        old(memory)@.wf(),
        data_ok(Op::CpIndirR16, *additional),
    ensures
        executes(Op::CpIndirR16, *additional, *old(registers), old(memory)@, *final(registers), final(memory)@),
{
    registers.inc_pc(1);
    let address = registers.read_r16(additional.r16_src.unwrap());
    let value = memory.read_u8(address);
    apply_alu(registers, AluOp::Cp, value);
}

pub(crate) fn cp_imm8(registers: &mut Registers, memory: &mut Memory, _additional: &InstructionData)
    requires
        old(registers).wf(),
        old(memory)@.wf(),
        data_ok(Op::CpImm8, *_additional),
    ensures
        executes(Op::CpImm8, *_additional, *old(registers), old(memory)@, *final(registers), final(memory)@),
{
    registers.inc_pc(1);
    let value = memory.read_u8(registers.get_pc());
    registers.inc_pc(1);
    apply_alu(registers, AluOp::Cp, value);
}

pub(crate) fn add_r8(registers: &mut Registers, _memory: &mut Memory, additional: &InstructionData)
    requires
        old(registers).wf(),
        old(_memory)@.wf(),
        data_ok(Op::AddR8, *additional),
    ensures
        executes(Op::AddR8, *additional, *old(registers), old(_memory)@, *final(registers), final(_memory)@),
{
    registers.inc_pc(1);
    let value = registers.read_r8(additional.r8_src.unwrap());
    apply_alu(registers, AluOp::Add, value);
}

pub(crate) fn add_indir_r16(registers: &mut Registers, memory: &mut Memory, additional: &InstructionData)
    requires
        old(registers).wf(),
        old(memory)@.wf(),
        data_ok(Op::AddIndirR16, *additional),
    ensures
        executes(Op::AddIndirR16, *additional, *old(registers), old(memory)@, *final(registers), final(memory)@),
{
    registers.inc_pc(1);
    let address = registers.read_r16(additional.r16_src.unwrap());
    let value = memory.read_u8(address);
    apply_alu(registers, AluOp::Add, value);
}

pub(crate) fn add_imm8(registers: &mut Registers, memory: &mut Memory, _additional: &InstructionData)
    requires
        old(registers).wf(),
        old(memory)@.wf(),
        data_ok(Op::AddImm8, *_additional),
    ensures
        executes(Op::AddImm8, *_additional, *old(registers), old(memory)@, *final(registers), final(memory)@),
{
    registers.inc_pc(1);
    let value = memory.read_u8(registers.get_pc());
    registers.inc_pc(1);
    apply_alu(registers, AluOp::Add, value);
}

pub(crate) fn adc_r8(registers: &mut Registers, _memory: &mut Memory, additional: &InstructionData)
    requires
        old(registers).wf(),
        old(_memory)@.wf(),
        data_ok(Op::AdcR8, *additional),
    ensures
        executes(Op::AdcR8, *additional, *old(registers), old(_memory)@, *final(registers), final(_memory)@),
{
    registers.inc_pc(1);
    let value = registers.read_r8(additional.r8_src.unwrap());
    apply_alu(registers, AluOp::Adc, value);
}

pub(crate) fn adc_indir_r16(registers: &mut Registers, memory: &mut Memory, additional: &InstructionData)
    requires
        old(registers).wf(),
        old(memory)@.wf(),
        data_ok(Op::AdcIndirR16, *additional),
    ensures
        executes(Op::AdcIndirR16, *additional, *old(registers), old(memory)@, *final(registers), final(memory)@),
{
    registers.inc_pc(1);
    let address = registers.read_r16(additional.r16_src.unwrap());
    let value = memory.read_u8(address);
    apply_alu(registers, AluOp::Adc, value);
}

pub(crate) fn adc_imm8(registers: &mut Registers, memory: &mut Memory, _additional: &InstructionData)
    requires
        old(registers).wf(),
        old(memory)@.wf(),
        data_ok(Op::AdcImm8, *_additional),
    ensures
        executes(Op::AdcImm8, *_additional, *old(registers), old(memory)@, *final(registers), final(memory)@),
{
    registers.inc_pc(1);
    let value = memory.read_u8(registers.get_pc());
    registers.inc_pc(1);
    apply_alu(registers, AluOp::Adc, value);
}

pub(crate) fn sub_r8(registers: &mut Registers, _memory: &mut Memory, additional: &InstructionData)
    requires
        old(registers).wf(),
        old(_memory)@.wf(),
        data_ok(Op::SubR8, *additional),
    ensures
        executes(Op::SubR8, *additional, *old(registers), old(_memory)@, *final(registers), final(_memory)@),
{
    registers.inc_pc(1);
    let value = registers.read_r8(additional.r8_src.unwrap());
    apply_alu(registers, AluOp::Sub, value);
}

pub(crate) fn sub_indir_r16(registers: &mut Registers, memory: &mut Memory, additional: &InstructionData)
    requires
        old(registers).wf(),
        old(memory)@.wf(),
        data_ok(Op::SubIndirR16, *additional),
    ensures
        executes(Op::SubIndirR16, *additional, *old(registers), old(memory)@, *final(registers), final(memory)@),
{
    registers.inc_pc(1);
    let address = registers.read_r16(additional.r16_src.unwrap());
    let value = memory.read_u8(address);
    apply_alu(registers, AluOp::Sub, value);
}

pub(crate) fn sub_imm8(registers: &mut Registers, memory: &mut Memory, _additional: &InstructionData)
    requires
        old(registers).wf(),
        old(memory)@.wf(),
        data_ok(Op::SubImm8, *_additional),
    ensures
        executes(Op::SubImm8, *_additional, *old(registers), old(memory)@, *final(registers), final(memory)@),
{
    registers.inc_pc(1);
    let value = memory.read_u8(registers.get_pc());
    registers.inc_pc(1);
    apply_alu(registers, AluOp::Sub, value);
}

pub(crate) fn sbc_r8(registers: &mut Registers, _memory: &mut Memory, additional: &InstructionData)
    requires
        old(registers).wf(),
        old(_memory)@.wf(),
        data_ok(Op::SbcR8, *additional),
    ensures
        executes(Op::SbcR8, *additional, *old(registers), old(_memory)@, *final(registers), final(_memory)@),
{
    registers.inc_pc(1);
    let value = registers.read_r8(additional.r8_src.unwrap());
    apply_alu(registers, AluOp::Sbc, value);
}

pub(crate) fn sbc_indir_r16(registers: &mut Registers, memory: &mut Memory, additional: &InstructionData)
    requires
        old(registers).wf(),
        old(memory)@.wf(),
        data_ok(Op::SbcIndirR16, *additional),
    ensures
        executes(Op::SbcIndirR16, *additional, *old(registers), old(memory)@, *final(registers), final(memory)@),
{
    registers.inc_pc(1);
    let address = registers.read_r16(additional.r16_src.unwrap());
    let value = memory.read_u8(address);
    apply_alu(registers, AluOp::Sbc, value);
}

pub(crate) fn sbc_imm8(registers: &mut Registers, memory: &mut Memory, _additional: &InstructionData)
    requires
        old(registers).wf(),
        old(memory)@.wf(),
        data_ok(Op::SbcImm8, *_additional),
    ensures
        executes(Op::SbcImm8, *_additional, *old(registers), old(memory)@, *final(registers), final(memory)@),
{
    registers.inc_pc(1);
    let value = memory.read_u8(registers.get_pc());
    registers.inc_pc(1);
    apply_alu(registers, AluOp::Sbc, value);
}

pub(crate) fn ext_rlc_r8(registers: &mut Registers, _memory: &mut Memory, additional: &InstructionData)
    requires
        old(registers).wf(),
        old(_memory)@.wf(),
        data_ok(Op::ExtRlcR8, *additional),
    ensures
        executes(Op::ExtRlcR8, *additional, *old(registers), old(_memory)@, *final(registers), final(_memory)@),
{
    registers.inc_pc(2);
    let register = additional.r8_dst.unwrap();
    let (value, new_carry) = shift(ShiftOp::Rlc, registers.read_r8(register), registers.carry_flag());
    registers.write_r8(register, value);
    registers.set_flags(Some(value == 0), Some(false), Some(false), Some(new_carry));
}

pub(crate) fn ext_rlc_indir_r16(registers: &mut Registers, memory: &mut Memory, additional: &InstructionData)
    requires
        old(registers).wf(),
        old(memory)@.wf(),
        data_ok(Op::ExtRlcIndirR16, *additional),
    ensures
        executes(Op::ExtRlcIndirR16, *additional, *old(registers), old(memory)@, *final(registers), final(memory)@),
{
    registers.inc_pc(2);
    let address = registers.read_r16(additional.r16_dst.unwrap());
    let (value, new_carry) = shift(ShiftOp::Rlc, memory.read_u8(address), registers.carry_flag());
    memory.write_u8(address, value);
    registers.set_flags(Some(value == 0), Some(false), Some(false), Some(new_carry));
}

pub(crate) fn ext_rrc_r8(registers: &mut Registers, _memory: &mut Memory, additional: &InstructionData)
    requires
        old(registers).wf(),
        old(_memory)@.wf(),
        data_ok(Op::ExtRrcR8, *additional),
    ensures
        executes(Op::ExtRrcR8, *additional, *old(registers), old(_memory)@, *final(registers), final(_memory)@),
{
    registers.inc_pc(2);
    let register = additional.r8_dst.unwrap();
    let (value, new_carry) = shift(ShiftOp::Rrc, registers.read_r8(register), registers.carry_flag());
    registers.write_r8(register, value);
    registers.set_flags(Some(value == 0), Some(false), Some(false), Some(new_carry));
}

pub(crate) fn ext_rrc_indir_r16(registers: &mut Registers, memory: &mut Memory, additional: &InstructionData)
    requires
        old(registers).wf(),
        old(memory)@.wf(),
        data_ok(Op::ExtRrcIndirR16, *additional),
    ensures
        executes(Op::ExtRrcIndirR16, *additional, *old(registers), old(memory)@, *final(registers), final(memory)@),
{
    registers.inc_pc(2);
    let address = registers.read_r16(additional.r16_dst.unwrap());
    let (value, new_carry) = shift(ShiftOp::Rrc, memory.read_u8(address), registers.carry_flag());
    memory.write_u8(address, value);
    registers.set_flags(Some(value == 0), Some(false), Some(false), Some(new_carry));
}

pub(crate) fn ext_rl_r8(registers: &mut Registers, _memory: &mut Memory, additional: &InstructionData)
    requires
        old(registers).wf(),
        old(_memory)@.wf(),
        data_ok(Op::ExtRlR8, *additional),
    ensures
        executes(Op::ExtRlR8, *additional, *old(registers), old(_memory)@, *final(registers), final(_memory)@),
{
    registers.inc_pc(2);
    let register = additional.r8_dst.unwrap();
    let (value, new_carry) = shift(ShiftOp::Rl, registers.read_r8(register), registers.carry_flag());
    registers.write_r8(register, value);
    registers.set_flags(Some(value == 0), Some(false), Some(false), Some(new_carry));
}

pub(crate) fn ext_rl_indir_r16(registers: &mut Registers, memory: &mut Memory, additional: &InstructionData)
    requires
        old(registers).wf(),
        old(memory)@.wf(),
        data_ok(Op::ExtRlIndirR16, *additional),
    ensures
        executes(Op::ExtRlIndirR16, *additional, *old(registers), old(memory)@, *final(registers), final(memory)@),
{
    registers.inc_pc(2);
    let address = registers.read_r16(additional.r16_dst.unwrap());
    let (value, new_carry) = shift(ShiftOp::Rl, memory.read_u8(address), registers.carry_flag());
    memory.write_u8(address, value);
    registers.set_flags(Some(value == 0), Some(false), Some(false), Some(new_carry));
}

pub(crate) fn ext_rr_r8(registers: &mut Registers, _memory: &mut Memory, additional: &InstructionData)
    requires
        old(registers).wf(),
        old(_memory)@.wf(),
        data_ok(Op::ExtRrR8, *additional),
    ensures
        executes(Op::ExtRrR8, *additional, *old(registers), old(_memory)@, *final(registers), final(_memory)@),
{
    registers.inc_pc(2);
    let register = additional.r8_dst.unwrap();
    let (value, new_carry) = shift(ShiftOp::Rr, registers.read_r8(register), registers.carry_flag());
    registers.write_r8(register, value);
    registers.set_flags(Some(value == 0), Some(false), Some(false), Some(new_carry));
}

pub(crate) fn ext_rr_indir_r16(registers: &mut Registers, memory: &mut Memory, additional: &InstructionData)
    requires
        old(registers).wf(),
        old(memory)@.wf(),
        data_ok(Op::ExtRrIndirR16, *additional),
    ensures
        executes(Op::ExtRrIndirR16, *additional, *old(registers), old(memory)@, *final(registers), final(memory)@),
{
    registers.inc_pc(2);
    let address = registers.read_r16(additional.r16_dst.unwrap());
    let (value, new_carry) = shift(ShiftOp::Rr, memory.read_u8(address), registers.carry_flag());
    memory.write_u8(address, value);
    registers.set_flags(Some(value == 0), Some(false), Some(false), Some(new_carry));
}

pub(crate) fn ext_sla_r8(registers: &mut Registers, _memory: &mut Memory, additional: &InstructionData)
    requires
        old(registers).wf(),
        old(_memory)@.wf(),
        data_ok(Op::ExtSlaR8, *additional),
    ensures
        executes(Op::ExtSlaR8, *additional, *old(registers), old(_memory)@, *final(registers), final(_memory)@),
{
    registers.inc_pc(2);
    let register = additional.r8_dst.unwrap();
    let (value, new_carry) = shift(ShiftOp::Sla, registers.read_r8(register), registers.carry_flag());
    registers.write_r8(register, value);
    registers.set_flags(Some(value == 0), Some(false), Some(false), Some(new_carry));
}

pub(crate) fn ext_sla_indir_r16(registers: &mut Registers, memory: &mut Memory, additional: &InstructionData)
    requires
        old(registers).wf(),
        old(memory)@.wf(),
        data_ok(Op::ExtSlaIndirR16, *additional),
    ensures
        executes(Op::ExtSlaIndirR16, *additional, *old(registers), old(memory)@, *final(registers), final(memory)@),
{
    registers.inc_pc(2);
    let address = registers.read_r16(additional.r16_dst.unwrap());
    let (value, new_carry) = shift(ShiftOp::Sla, memory.read_u8(address), registers.carry_flag());
    memory.write_u8(address, value);
    registers.set_flags(Some(value == 0), Some(false), Some(false), Some(new_carry));
}

pub(crate) fn ext_sra_r8(registers: &mut Registers, _memory: &mut Memory, additional: &InstructionData)
    requires
        old(registers).wf(),
        old(_memory)@.wf(),
        data_ok(Op::ExtSraR8, *additional),
    ensures
        executes(Op::ExtSraR8, *additional, *old(registers), old(_memory)@, *final(registers), final(_memory)@),
{
    registers.inc_pc(2);
    let register = additional.r8_dst.unwrap();
    let (value, new_carry) = shift(ShiftOp::Sra, registers.read_r8(register), registers.carry_flag());
    registers.write_r8(register, value);
    registers.set_flags(Some(value == 0), Some(false), Some(false), Some(new_carry));
}

pub(crate) fn ext_sra_indir_r16(registers: &mut Registers, memory: &mut Memory, additional: &InstructionData)
    requires
        old(registers).wf(),
        old(memory)@.wf(),
        data_ok(Op::ExtSraIndirR16, *additional),
    ensures
        executes(Op::ExtSraIndirR16, *additional, *old(registers), old(memory)@, *final(registers), final(memory)@),
{
    registers.inc_pc(2);
    let address = registers.read_r16(additional.r16_dst.unwrap());
    let (value, new_carry) = shift(ShiftOp::Sra, memory.read_u8(address), registers.carry_flag());
    memory.write_u8(address, value);
    registers.set_flags(Some(value == 0), Some(false), Some(false), Some(new_carry));
}

pub(crate) fn ext_srl_r8(registers: &mut Registers, _memory: &mut Memory, additional: &InstructionData)
    requires
        old(registers).wf(),
        old(_memory)@.wf(),
        data_ok(Op::ExtSrlR8, *additional),
    ensures
        executes(Op::ExtSrlR8, *additional, *old(registers), old(_memory)@, *final(registers), final(_memory)@),
{
    registers.inc_pc(2);
    let register = additional.r8_dst.unwrap();
    let (value, new_carry) = shift(ShiftOp::Srl, registers.read_r8(register), registers.carry_flag());
    registers.write_r8(register, value);
    registers.set_flags(Some(value == 0), Some(false), Some(false), Some(new_carry));
}

pub(crate) fn ext_srl_indir_r16(registers: &mut Registers, memory: &mut Memory, additional: &InstructionData)
    requires
        old(registers).wf(),
        old(memory)@.wf(),
        data_ok(Op::ExtSrlIndirR16, *additional),
    ensures
        executes(Op::ExtSrlIndirR16, *additional, *old(registers), old(memory)@, *final(registers), final(memory)@),
{
    registers.inc_pc(2);
    let address = registers.read_r16(additional.r16_dst.unwrap());
    let (value, new_carry) = shift(ShiftOp::Srl, memory.read_u8(address), registers.carry_flag());
    memory.write_u8(address, value);
    registers.set_flags(Some(value == 0), Some(false), Some(false), Some(new_carry));
}

pub(crate) fn ext_swap_r8(registers: &mut Registers, _memory: &mut Memory, additional: &InstructionData)
    requires
        old(registers).wf(),
        old(_memory)@.wf(),
        data_ok(Op::ExtSwapR8, *additional),
    ensures
        executes(Op::ExtSwapR8, *additional, *old(registers), old(_memory)@, *final(registers), final(_memory)@),
{
    registers.inc_pc(2);
    let register = additional.r8_dst.unwrap();
    let (value, new_carry) = shift(ShiftOp::Swap, registers.read_r8(register), registers.carry_flag());
    registers.write_r8(register, value);
    registers.set_flags(Some(value == 0), Some(false), Some(false), Some(new_carry));
}

pub(crate) fn ext_swap_indir_r16(registers: &mut Registers, memory: &mut Memory, additional: &InstructionData)
    requires
        old(registers).wf(),
        old(memory)@.wf(),
        data_ok(Op::ExtSwapIndirR16, *additional),
    ensures
        executes(Op::ExtSwapIndirR16, *additional, *old(registers), old(memory)@, *final(registers), final(memory)@),
{
    registers.inc_pc(2);
    let address = registers.read_r16(additional.r16_dst.unwrap());
    let (value, new_carry) = shift(ShiftOp::Swap, memory.read_u8(address), registers.carry_flag());
    memory.write_u8(address, value);
    registers.set_flags(Some(value == 0), Some(false), Some(false), Some(new_carry));
}

} // verus!

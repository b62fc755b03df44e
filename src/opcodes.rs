//! The instruction table: two sets of 256 entries, unprefixed and extended
//! (after the 0xCB prefix), mapping each opcode to its mnemonic, base cost
//! in M-cycles, executor family and operands.

use vstd::prelude::*;

use crate::instruction_data::InstructionData;
use crate::instructions::{
    Op,
    adc_imm8,
    adc_indir_r16,
    adc_r8,
    add_imm8,
    add_indir_r16,
    add_r16_r16,
    add_r8,
    add_sp_imm8,
    and_imm8,
    and_indir_r16,
    and_r8,
    call,
    ccf,
    cp_imm8,
    cp_indir_r16,
    cp_r8,
    cpl,
    daa,
    data_ok,
    dec_indir_r16,
    dec_r16,
    dec_r8,
    di,
    ei,
    executes,
    ext_bit_indir_r16,
    ext_bit_r8,
    ext_res_bit_indir_r16,
    ext_res_bit_r8,
    ext_rl_indir_r16,
    ext_rl_r8,
    ext_rlc_indir_r16,
    ext_rlc_r8,
    ext_rr_indir_r16,
    ext_rr_r8,
    ext_rrc_indir_r16,
    ext_rrc_r8,
    ext_set_bit_indir_r16,
    ext_set_bit_r8,
    ext_sla_indir_r16,
    ext_sla_r8,
    ext_sra_indir_r16,
    ext_sra_r8,
    ext_srl_indir_r16,
    ext_srl_r8,
    ext_swap_indir_r16,
    ext_swap_r8,
    inc_indir_r16,
    inc_r16,
    inc_r8,
    jump_imm16,
    jump_r16,
    jump_rel_imm8,
    ld_ff00_imm8_r8,
    ld_ff00_indir_r8_r8,
    ld_ff00_r8_imm8,
    ld_ff00_r8_indir_r8,
    ld_hl_sp_imm8,
    ld_indir_imm16_r8,
    ld_indir_imm16_sp,
    ld_indir_r16_imm8,
    ld_indir_r16_r8,
    ld_r16_imm16,
    ld_r16_r16,
    ld_r8_imm8,
    ld_r8_indir_imm16,
    ld_r8_indir_r16,
    ld_r8_r8,
    ldd_indir_r16_r8,
    ldd_r8_indir_r16,
    ldi_indir_r16_r8,
    ldi_r8_indir_r16,
    no_op,
    or_imm8,
    or_indir_r16,
    or_r8,
    pop_r16,
    push_r16,
    ret,
    ret_conditional,
    reti,
    rla,
    rlca,
    rra,
    rrca,
    rst_n,
    sbc_imm8,
    sbc_indir_r16,
    sbc_r8,
    scf,
    stop,
    sub_imm8,
    sub_indir_r16,
    sub_r8,
    xor_imm8,
    xor_indir_r16,
    xor_r8,
};
use crate::memory::Memory;
use crate::registers::{Registers, CARRY_FLAG, R16, R8, ZERO_FLAG};

verus! {

/// One table entry.
pub struct Instruction {
    pub opcode: u8,
    pub prefixed: bool,
    pub op: Op,
    pub data: InstructionData,
    /// Base cost in M-cycles; a branch not taken costs less.
    pub cycles: u16,
    pub text: &'static str,
}

/// The opcodes with no entry: the prefix itself, HALT and the unused bytes.
pub open spec fn is_hole(byte: u8, prefixed: bool) -> bool {
    !prefixed && (byte == 0x76 || byte == 0xCB || byte == 0xD3 || byte == 0xDB || byte == 0xDD
        || byte == 0xE3 || byte == 0xE4 || byte == 0xEB || byte == 0xEC || byte == 0xED || byte
        == 0xF4 || byte == 0xFC || byte == 0xFD)
}

/// The register that a 3-bit operand code names (code 6 names (HL)).
pub open spec fn r8_code(k: u8) -> R8 {
    if k == 0 {
        R8::B
    } else if k == 1 {
        R8::C
    } else if k == 2 {
        R8::D
    } else if k == 3 {
        R8::E
    } else if k == 4 {
        R8::H
    } else if k == 5 {
        R8::L
    } else {
        R8::A
    }
}

/// The accumulator operation of row `g` of the 0x80..0xBF block, on a register or on (HL).
pub open spec fn alu_block_op(g: u8, indirect: bool) -> Op {
    if g == 0 {
        if indirect { Op::AddIndirR16 } else { Op::AddR8 }
    } else if g == 1 {
        if indirect { Op::AdcIndirR16 } else { Op::AdcR8 }
    } else if g == 2 {
        if indirect { Op::SubIndirR16 } else { Op::SubR8 }
    } else if g == 3 {
        if indirect { Op::SbcIndirR16 } else { Op::SbcR8 }
    } else if g == 4 {
        if indirect { Op::AndIndirR16 } else { Op::AndR8 }
    } else if g == 5 {
        if indirect { Op::XorIndirR16 } else { Op::XorR8 }
    } else if g == 6 {
        if indirect { Op::OrIndirR16 } else { Op::OrR8 }
    } else {
        if indirect { Op::CpIndirR16 } else { Op::CpR8 }
    }
}

/// The family of extended opcode `b`.
pub open spec fn cb_op(b: u8) -> Op {
    let ind = b % 8 == 6;
    let g = b / 8;
    if b >= 0xC0 {
        if ind { Op::ExtSetBitIndirR16 } else { Op::ExtSetBitR8 }
    } else if b >= 0x80 {
        if ind { Op::ExtResBitIndirR16 } else { Op::ExtResBitR8 }
    } else if b >= 0x40 {
        if ind { Op::ExtBitIndirR16 } else { Op::ExtBitR8 }
    } else if g == 0 {
        if ind { Op::ExtRlcIndirR16 } else { Op::ExtRlcR8 }
    } else if g == 1 {
        if ind { Op::ExtRrcIndirR16 } else { Op::ExtRrcR8 }
    } else if g == 2 {
        if ind { Op::ExtRlIndirR16 } else { Op::ExtRlR8 }
    } else if g == 3 {
        if ind { Op::ExtRrIndirR16 } else { Op::ExtRrR8 }
    } else if g == 4 {
        if ind { Op::ExtSlaIndirR16 } else { Op::ExtSlaR8 }
    } else if g == 5 {
        if ind { Op::ExtSraIndirR16 } else { Op::ExtSraR8 }
    } else if g == 6 {
        if ind { Op::ExtSwapIndirR16 } else { Op::ExtSwapR8 }
    } else {
        if ind { Op::ExtSrlIndirR16 } else { Op::ExtSrlR8 }
    }
}

/// Extended opcode `b`: the family from its top bits, the operand from its
/// low three bits, the bit index from the middle three; a register costs 2
/// M-cycles, (HL) costs 3 for BIT and 4 for the rest.
pub open spec fn cb_entry(b: u8, i: Instruction) -> bool {
    let k = b % 8;
    &&& i.op == cb_op(b)
    &&& k == 6 && b < 0x40 ==> i.data.r16_dst == Some(R16::HL)
    &&& k == 6 && b >= 0x40 ==> i.data.r16_src == Some(R16::HL)
    &&& k != 6 && b < 0x40 ==> i.data.r8_dst == Some(r8_code(k))
    &&& k != 6 && b >= 0x40 ==> i.data.r8_src == Some(r8_code(k))
    &&& b >= 0x40 ==> i.data.bit == Some(((b / 8) % 8) as u8)
    &&& i.cycles == if k != 6 {
        2u16
    } else if 0x40 <= b < 0x80 {
        3u16
    } else {
        4u16
    }
}

/// The regular blocks of the unprefixed table: loads between registers and
/// (HL) in 0x40..0x7F, accumulator operations in 0x80..0xBF.
pub open spec fn block_entry(b: u8, i: Instruction) -> bool {
    let g = ((b / 8) % 8) as u8;
    let k = b % 8;
    &&& (0x40 <= b < 0x80 && b != 0x76 && g != 6 && k != 6) ==> (i.op == Op::LdR8R8 && i.data.r8_dst
        == Some(r8_code(g)) && i.data.r8_src == Some(r8_code(k)) && i.cycles == 1)
    &&& (0x40 <= b < 0x80 && b != 0x76 && g == 6) ==> (i.op == Op::LdIndirR16R8 && i.data.r16_dst
        == Some(R16::HL) && i.data.r8_src == Some(r8_code(k)) && i.cycles == 2)
    &&& (0x40 <= b < 0x80 && g != 6 && k == 6) ==> (i.op == Op::LdR8IndirR16 && i.data.r16_src
        == Some(R16::HL) && i.data.r8_dst == Some(r8_code(g)) && i.cycles == 2)
    &&& (0x80 <= b < 0xC0 && k != 6) ==> (i.op == alu_block_op(g, false) && i.data.r8_src == Some(
        r8_code(k),
    ) && i.cycles == 1)
    &&& (0x80 <= b < 0xC0 && k == 6) ==> (i.op == alu_block_op(g, true) && i.data.r16_src == Some(
        R16::HL,
    ) && i.cycles == 2)
}

/// The branch condition of bits 3 and 4 of a conditional opcode:
/// NZ, Z, NC, C as (mask, expected).
pub open spec fn condition(c: u8) -> (u8, u8) {
    if c == 0 {
        (ZERO_FLAG, 0)
    } else if c == 1 {
        (ZERO_FLAG, ZERO_FLAG)
    } else if c == 2 {
        (CARRY_FLAG, 0)
    } else {
        (CARRY_FLAG, CARRY_FLAG)
    }
}

/// The register pair of bits 4 and 5: BC, DE, HL, then SP (or AF for the
/// stack opcodes).
pub open spec fn pair_code(p: u8, stack: bool) -> R16 {
    if p == 0 {
        R16::BC
    } else if p == 1 {
        R16::DE
    } else if p == 2 {
        R16::HL
    } else if stack {
        R16::AF
    } else {
        R16::SP
    }
}

pub open spec fn alu_immediate_op(g: u8) -> Op {
    if g == 0 {
        Op::AddImm8
    } else if g == 1 {
        Op::AdcImm8
    } else if g == 2 {
        Op::SubImm8
    } else if g == 3 {
        Op::SbcImm8
    } else if g == 4 {
        Op::AndImm8
    } else if g == 5 {
        Op::XorImm8
    } else if g == 6 {
        Op::OrImm8
    } else {
        Op::CpImm8
    }
}

pub open spec fn branch_entry(i: Instruction, op: Op, cond: (u8, u8), cycles: u16) -> bool {
    i.op == op && i.data.flag_mask == Some(cond.0) && i.data.flag_expected == Some(cond.1)
        && i.cycles == cycles
}

/// The regular columns of the unprefixed table: conditional and plain
/// branches, restarts, stack and 16-bit register groups, INC, DEC and
/// immediate loads of 8-bit registers, and accumulator operations on an
/// immediate byte.
pub open spec fn column_entry(b: u8, i: Instruction) -> bool {
    let quarter = b / 64;
    let g = ((b / 8) % 8) as u8;
    let k = b % 8;
    let c = g % 4;
    let p = g / 2;
    let odd = g % 2 == 1;
    &&& quarter == 0 && k == 0 && g >= 4 ==> branch_entry(i, Op::JumpRelImm8, condition(c), 3)
    &&& b == 0x18 ==> branch_entry(i, Op::JumpRelImm8, (0, 0), 3)
    &&& quarter == 3 && k == 0 && g < 4 ==> branch_entry(i, Op::RetConditional, condition(c), 5)
    &&& quarter == 3 && k == 2 && g < 4 ==> branch_entry(i, Op::JumpImm16, condition(c), 4)
    &&& b == 0xC3 ==> branch_entry(i, Op::JumpImm16, (0, 0), 4)
    &&& quarter == 3 && k == 4 && g < 4 ==> branch_entry(i, Op::Call, condition(c), 6)
    &&& b == 0xCD ==> branch_entry(i, Op::Call, (0, 0), 6)
    &&& b == 0xC9 ==> i.op == Op::Ret && i.cycles == 4
    &&& quarter == 3 && k == 7 ==> i.op == Op::RstN && i.data.code == Some((g * 8) as u8)
        && i.cycles == 4
    &&& quarter == 3 && k == 1 && !odd ==> i.op == Op::PopR16 && i.data.r16_dst == Some(
        pair_code(p, true),
    ) && i.cycles == 3
    &&& quarter == 3 && k == 5 && !odd ==> i.op == Op::PushR16 && i.data.r16_src == Some(
        pair_code(p, true),
    ) && i.cycles == 4
    &&& quarter == 0 && k == 1 && !odd ==> i.op == Op::LdR16Imm16 && i.data.r16_dst == Some(
        pair_code(p, false),
    ) && i.cycles == 3
    &&& quarter == 0 && k == 3 && !odd ==> i.op == Op::IncR16 && i.data.r16_dst == Some(
        pair_code(p, false),
    ) && i.cycles == 2
    &&& quarter == 0 && k == 3 && odd ==> i.op == Op::DecR16 && i.data.r16_dst == Some(
        pair_code(p, false),
    ) && i.cycles == 2
    &&& quarter == 0 && k == 1 && odd ==> i.op == Op::AddR16R16 && i.data.r16_src == Some(
        pair_code(p, false),
    ) && i.data.r16_dst == Some(R16::HL) && i.cycles == 2
    &&& quarter == 0 && k == 4 && g != 6 ==> i.op == Op::IncR8 && i.data.r8_dst == Some(r8_code(g))
        && i.cycles == 1
    &&& quarter == 0 && k == 5 && g != 6 ==> i.op == Op::DecR8 && i.data.r8_dst == Some(r8_code(g))
        && i.cycles == 1
    &&& quarter == 0 && k == 6 && g != 6 ==> i.op == Op::LdR8Imm8 && i.data.r8_dst == Some(
        r8_code(g),
    ) && i.cycles == 1
    &&& b == 0x34 ==> i.op == Op::IncIndirR16 && i.data.r16_dst == Some(R16::HL) && i.cycles == 3
    &&& b == 0x35 ==> i.op == Op::DecIndirR16 && i.data.r16_dst == Some(R16::HL) && i.cycles == 3
    &&& b == 0x36 ==> i.op == Op::LdIndirR16Imm8 && i.data.r16_dst == Some(R16::HL) && i.cycles == 3
    &&& quarter == 3 && k == 6 ==> i.op == alu_immediate_op(g) && i.cycles == if g == 7 {
        1u16
    } else {
        2u16
    }
}

/// An entry whose executor reads only registers, with the given operand
/// fields and cost and every other field unset.
pub open spec fn plain_entry(
    i: Instruction,
    op: Op,
    r8_src: Option<R8>,
    r8_dst: Option<R8>,
    r16_src: Option<R16>,
    r16_dst: Option<R16>,
    cycles: u16,
) -> bool {
    &&& i.op == op
    &&& i.cycles == cycles
    &&& i.data == (InstructionData {
        flag_mask: None,
        flag_expected: None,
        r8_src,
        r8_dst,
        r16_src,
        r16_dst,
        code: None,
        bit: None,
    })
}

/// The unprefixed opcodes outside the regular blocks and columns.
pub open spec fn irregular_entry(b: u8, i: Instruction) -> bool {
    &&& b == 0x00 ==> plain_entry(i, Op::NoOp, None, None, None, None, 1)
    &&& b == 0x02 ==> plain_entry(i, Op::LdIndirR16R8, Some(R8::A), None, None, Some(R16::BC), 2)
    &&& b == 0x07 ==> plain_entry(i, Op::Rlca, None, None, None, None, 1)
    &&& b == 0x08 ==> plain_entry(i, Op::LdIndirImm16Sp, None, None, None, None, 5)
    &&& b == 0x0A ==> plain_entry(i, Op::LdR8IndirR16, None, Some(R8::A), Some(R16::BC), None, 2)
    &&& b == 0x0F ==> plain_entry(i, Op::Rrca, None, None, None, None, 1)
    &&& b == 0x10 ==> plain_entry(i, Op::Stop, None, None, None, None, 1)
    &&& b == 0x12 ==> plain_entry(i, Op::LdIndirR16R8, Some(R8::A), None, None, Some(R16::DE), 2)
    &&& b == 0x17 ==> plain_entry(i, Op::Rla, None, None, None, None, 1)
    &&& b == 0x1A ==> plain_entry(i, Op::LdR8IndirR16, None, Some(R8::A), Some(R16::DE), None, 2)
    &&& b == 0x1F ==> plain_entry(i, Op::Rra, None, None, None, None, 1)
    &&& b == 0x22 ==> plain_entry(i, Op::LdiIndirR16R8, Some(R8::A), None, None, Some(R16::HL), 2)
    &&& b == 0x27 ==> plain_entry(i, Op::Daa, None, None, None, None, 1)
    &&& b == 0x2A ==> plain_entry(i, Op::LdiR8IndirR16, None, Some(R8::A), Some(R16::HL), None, 2)
    &&& b == 0x2F ==> plain_entry(i, Op::Cpl, None, None, None, None, 1)
    &&& b == 0x32 ==> plain_entry(i, Op::LddIndirR16R8, Some(R8::A), None, None, Some(R16::HL), 2)
    &&& b == 0x37 ==> plain_entry(i, Op::Scf, None, None, None, None, 1)
    &&& b == 0x3A ==> plain_entry(i, Op::LddR8IndirR16, None, Some(R8::A), Some(R16::HL), None, 2)
    &&& b == 0x3F ==> plain_entry(i, Op::Ccf, None, None, None, None, 1)
    &&& b == 0xD9 ==> plain_entry(i, Op::Reti, None, None, None, None, 4)
    &&& b == 0xE0 ==> plain_entry(i, Op::LdFf00Imm8R8, Some(R8::A), None, None, None, 3)
    &&& b == 0xE2 ==> plain_entry(i, Op::LdFf00IndirR8R8, Some(R8::A), Some(R8::C), None, None, 2)
    &&& b == 0xE8 ==> plain_entry(i, Op::AddSpImm8, None, None, None, None, 4)
    &&& b == 0xE9 ==> plain_entry(i, Op::JumpR16, None, None, Some(R16::HL), None, 1)
    &&& b == 0xEA ==> plain_entry(i, Op::LdIndirImm16R8, Some(R8::A), None, None, None, 4)
    &&& b == 0xF0 ==> plain_entry(i, Op::LdFf00R8Imm8, None, Some(R8::A), None, None, 3)
    &&& b == 0xF2 ==> plain_entry(i, Op::LdFf00R8IndirR8, Some(R8::C), Some(R8::A), None, None, 2)
    &&& b == 0xF3 ==> plain_entry(i, Op::Di, None, None, None, None, 1)
    &&& b == 0xF8 ==> plain_entry(i, Op::LdHlSpImm8, None, None, None, None, 3)
    &&& b == 0xF9 ==> plain_entry(i, Op::LdR16R16, None, None, Some(R16::HL), Some(R16::SP), 2)
    &&& b == 0xFA ==> plain_entry(i, Op::LdR8IndirImm16, None, Some(R8::A), None, None, 4)
    &&& b == 0xFB ==> plain_entry(i, Op::Ei, None, None, None, None, 1)
}

/// The mnemonic of unprefixed opcode `b`; empty for a hole.
pub open spec fn mnemonic(b: u8) -> &'static str {
    match b {
        0x00 => "nop",
        0x01 => "ld bc, d16",
        0x02 => "ld (bc), a",
        0x03 => "inc bc",
        0x04 => "inc b",
        0x05 => "dec b",
        0x06 => "ld b, d8",
        0x07 => "rlca",
        0x08 => "ld (a16), sp",
        0x09 => "add hl, bc",
        0x0A => "ld a, (bc)",
        0x0B => "dec bc",
        0x0C => "inc c",
        0x0D => "dec c",
        0x0E => "ld c, d8",
        0x0F => "rrca",
        0x10 => "stop",
        0x11 => "ld de, d16",
        0x12 => "ld (de), a",
        0x13 => "inc de",
        0x14 => "inc d",
        0x15 => "dec d",
        0x16 => "ld d, d8",
        0x17 => "rla",
        0x18 => "jr s8",
        0x19 => "add hl, de",
        0x1A => "ld a, (de)",
        0x1B => "dec de",
        0x1C => "inc e",
        0x1D => "dec e",
        0x1E => "ld e, d8",
        0x1F => "rra",
        0x20 => "jr nz, s8",
        0x21 => "ld hl, d16",
        0x22 => "ld (hl+), a",
        0x23 => "inc hl",
        0x24 => "inc h",
        0x25 => "dec h",
        0x26 => "ld h, d8",
        0x27 => "daa",
        0x28 => "jr z, s8",
        0x29 => "add hl, hl",
        0x2A => "ld a, (hl+)",
        0x2B => "dec hl",
        0x2C => "inc l",
        0x2D => "dec l",
        0x2E => "ld l, d8",
        0x2F => "cpl",
        0x30 => "jr nc, s8",
        0x31 => "ld sp, d16",
        0x32 => "ld (hl-), a",
        0x33 => "inc sp",
        0x34 => "inc (hl)",
        0x35 => "dec (hl)",
        0x36 => "ld (hl), d8",
        0x37 => "scf",
        0x38 => "jr c, s8",
        0x39 => "add hl, sp",
        0x3A => "ld a, (hl-)",
        0x3B => "dec sp",
        0x3C => "inc a",
        0x3D => "dec a",
        0x3E => "ld a, d8",
        0x3F => "ccf",
        0x40 => "ld b, b",
        0x41 => "ld b, c",
        0x42 => "ld b, d",
        0x43 => "ld b, e",
        0x44 => "ld b, h",
        0x45 => "ld b, l",
        0x46 => "ld b, (hl)",
        0x47 => "ld b, a",
        0x48 => "ld c, b",
        0x49 => "ld c, c",
        0x4A => "ld c, d",
        0x4B => "ld c, e",
        0x4C => "ld c, h",
        0x4D => "ld c, l",
        0x4E => "ld c, (hl)",
        0x4F => "ld c, a",
        0x50 => "ld d, b",
        0x51 => "ld d, c",
        0x52 => "ld d, d",
        0x53 => "ld d, e",
        0x54 => "ld d, h",
        0x55 => "ld d, l",
        0x56 => "ld d, (hl)",
        0x57 => "ld d, a",
        0x58 => "ld e, b",
        0x59 => "ld e, c",
        0x5A => "ld e, d",
        0x5B => "ld e, e",
        0x5C => "ld e, h",
        0x5D => "ld e, l",
        0x5E => "ld e, (hl)",
        0x5F => "ld e, a",
        0x60 => "ld h, b",
        0x61 => "ld h, c",
        0x62 => "ld h, d",
        0x63 => "ld h, e",
        0x64 => "ld h, h",
        0x65 => "ld h, l",
        0x66 => "ld h, (hl)",
        0x67 => "ld h, a",
        0x68 => "ld l, b",
        0x69 => "ld l, c",
        0x6A => "ld l, d",
        0x6B => "ld l, e",
        0x6C => "ld l, h",
        0x6D => "ld l, l",
        0x6E => "ld l, (hl)",
        0x6F => "ld l, a",
        0x70 => "ld (hl) b",
        0x71 => "ld (hl) c",
        0x72 => "ld (hl) d",
        0x73 => "ld (hl) e",
        0x74 => "ld (hl) h",
        0x75 => "ld (hl) l",
        0x77 => "ld (hl) a",
        0x78 => "ld a b",
        0x79 => "ld a c",
        0x7A => "ld a d",
        0x7B => "ld a e",
        0x7C => "ld a h",
        0x7D => "ld a l",
        0x7E => "ld a (hl)",
        0x7F => "ld a a",
        0x80 => "add a, b",
        0x81 => "add a, c",
        0x82 => "add a, d",
        0x83 => "add a, e",
        0x84 => "add a, h",
        0x85 => "add a, l",
        0x86 => "add a, hl",
        0x87 => "add a, a",
        0x88 => "adc a, b",
        0x89 => "adc a, c",
        0x8A => "adc a, d",
        0x8B => "adc a, e",
        0x8C => "adc a, h",
        0x8D => "adc a, l",
        0x8E => "adc a, hl",
        0x8F => "adc a, a",
        0x90 => "sub a, b",
        0x91 => "sub a, c",
        0x92 => "sub a, d",
        0x93 => "sub a, e",
        0x94 => "sub a, h",
        0x95 => "sub a, l",
        0x96 => "sub a, hl",
        0x97 => "sub a, a",
        0x98 => "sbc a, b",
        0x99 => "sbc a, c",
        0x9A => "sbc a, d",
        0x9B => "sbc a, e",
        0x9C => "sbc a, h",
        0x9D => "sbc a, l",
        0x9E => "sbc a, hl",
        0x9F => "sbc a, a",
        0xA0 => "and b",
        0xA1 => "and c",
        0xA2 => "and d",
        0xA3 => "and e",
        0xA4 => "and h",
        0xA5 => "and l",
        0xA6 => "and hl",
        0xA7 => "and a",
        0xA8 => "xor b",
        0xA9 => "xor c",
        0xAA => "xor d",
        0xAB => "xor e",
        0xAC => "xor h",
        0xAD => "xor l",
        0xAE => "xor hl",
        0xAF => "xor a",
        0xB0 => "or b",
        0xB1 => "or c",
        0xB2 => "or d",
        0xB3 => "or e",
        0xB4 => "or h",
        0xB5 => "or l",
        0xB6 => "or hl",
        0xB7 => "or a",
        0xB8 => "cp b",
        0xB9 => "cp c",
        0xBA => "cp d",
        0xBB => "cp e",
        0xBC => "cp h",
        0xBD => "cp l",
        0xBE => "cp hl",
        0xBF => "cp a",
        0xC0 => "ret nz",
        0xC1 => "pop bc",
        0xC2 => "jp nz, a16",
        0xC3 => "jp a16",
        0xC4 => "call nz, a16",
        0xC5 => "push bc",
        0xC6 => "add a, d8",
        0xC7 => "rst 0",
        0xC8 => "ret z",
        0xC9 => "ret",
        0xCA => "jp z, a16",
        0xCC => "call z, a16",
        0xCD => "call a16",
        0xCE => "adc a, d8",
        0xCF => "rst 1",
        0xD0 => "ret nc",
        0xD1 => "pop de",
        0xD2 => "jp nc, a16",
        0xD4 => "call nc, a16",
        0xD5 => "push de",
        0xD6 => "sub d8",
        0xD7 => "rst 2",
        0xD8 => "ret c",
        0xD9 => "reti",
        0xDA => "jp c, a16",
        0xDC => "call c, a16",
        0xDE => "sbc d8",
        0xDF => "rst 3",
        0xE0 => "ld (a8) a",
        0xE1 => "pop hl",
        0xE2 => "ld (c) a",
        0xE5 => "push hl",
        0xE6 => "and d8",
        0xE7 => "rst 4",
        0xE8 => "add sp, s8",
        0xE9 => "jp hl",
        0xEA => "ld (a16), a",
        0xEE => "xor d8",
        0xEF => "rst 5",
        0xF0 => "ld a, (a8)",
        0xF1 => "pop af",
        0xF2 => "ld a, (c)",
        0xF3 => "di",
        0xF5 => "push af",
        0xF6 => "or d8",
        0xF7 => "rst 6",
        0xF8 => "ld hl, sp+s8",
        0xF9 => "ld sp, hl",
        0xFA => "ld a, (a16)",
        0xFB => "ei",
        0xFE => "cp d8",
        0xFF => "rst 7",
        _ => "",
    }
}

/// The mnemonic of extended opcode `b`.
pub open spec fn cb_mnemonic(b: u8) -> &'static str {
    match b {
        0x00 => "rlc b",
        0x01 => "rlc c",
        0x02 => "rlc d",
        0x03 => "rlc e",
        0x04 => "rlc h",
        0x05 => "rlc l",
        0x06 => "rlc (hl)",
        0x07 => "rlc a",
        0x08 => "rrc b",
        0x09 => "rrc c",
        0x0A => "rrc d",
        0x0B => "rrc e",
        0x0C => "rrc h",
        0x0D => "rrc l",
        0x0E => "rrc (hl)",
        0x0F => "rrc a",
        0x10 => "rl b",
        0x11 => "rl c",
        0x12 => "rl d",
        0x13 => "rl e",
        0x14 => "rl h",
        0x15 => "rl l",
        0x16 => "rl (hl)",
        0x17 => "rl a",
        0x18 => "rr b",
        0x19 => "rr c",
        0x1A => "rr d",
        0x1B => "rr e",
        0x1C => "rr h",
        0x1D => "rr l",
        0x1E => "rr (hl)",
        0x1F => "rr a",
        0x20 => "sla b",
        0x21 => "sla c",
        0x22 => "sla d",
        0x23 => "sla e",
        0x24 => "sla h",
        0x25 => "sla l",
        0x26 => "sla (hl)",
        0x27 => "sla a",
        0x28 => "sra b",
        0x29 => "sra c",
        0x2A => "sra d",
        0x2B => "sra e",
        0x2C => "sra h",
        0x2D => "sra l",
        0x2E => "sra (hl)",
        0x2F => "sra a",
        0x30 => "swap b",
        0x31 => "swap c",
        0x32 => "swap d",
        0x33 => "swap e",
        0x34 => "swap h",
        0x35 => "swap l",
        0x36 => "swap (hl)",
        0x37 => "swap a",
        0x38 => "srl b",
        0x39 => "srl c",
        0x3A => "srl d",
        0x3B => "srl e",
        0x3C => "srl h",
        0x3D => "srl l",
        0x3E => "srl (hl)",
        0x3F => "srl a",
        0x40 => "bit 0, b",
        0x41 => "bit 0, c",
        0x42 => "bit 0, d",
        0x43 => "bit 0, e",
        0x44 => "bit 0, h",
        0x45 => "bit 0, l",
        0x46 => "bit 0, (hl)",
        0x47 => "bit 0, a",
        0x48 => "bit 1, b",
        0x49 => "bit 1, c",
        0x4A => "bit 1, d",
        0x4B => "bit 1, e",
        0x4C => "bit 1, h",
        0x4D => "bit 1, l",
        0x4E => "bit 1, (hl)",
        0x4F => "bit 1, a",
        0x50 => "bit 2, b",
        0x51 => "bit 2, c",
        0x52 => "bit 2, d",
        0x53 => "bit 2, e",
        0x54 => "bit 2, h",
        0x55 => "bit 2, l",
        0x56 => "bit 2, (hl)",
        0x57 => "bit 2, a",
        0x58 => "bit 3, b",
        0x59 => "bit 3, c",
        0x5A => "bit 3, d",
        0x5B => "bit 3, e",
        0x5C => "bit 3, h",
        0x5D => "bit 3, l",
        0x5E => "bit 3, (hl)",
        0x5F => "bit 3, a",
        0x60 => "bit 4, b",
        0x61 => "bit 4, c",
        0x62 => "bit 4, d",
        0x63 => "bit 4, e",
        0x64 => "bit 4, h",
        0x65 => "bit 4, l",
        0x66 => "bit 4, (hl)",
        0x67 => "bit 4, a",
        0x68 => "bit 5, b",
        0x69 => "bit 5, c",
        0x6A => "bit 5, d",
        0x6B => "bit 5, e",
        0x6C => "bit 5, h",
        0x6D => "bit 5, l",
        0x6E => "bit 5, (hl)",
        0x6F => "bit 5, a",
        0x70 => "bit 6, b",
        0x71 => "bit 6, c",
        0x72 => "bit 6, d",
        0x73 => "bit 6, e",
        0x74 => "bit 6, h",
        0x75 => "bit 6, l",
        0x76 => "bit 6, (hl)",
        0x77 => "bit 6, a",
        0x78 => "bit 7, b",
        0x79 => "bit 7, c",
        0x7A => "bit 7, d",
        0x7B => "bit 7, e",
        0x7C => "bit 7, h",
        0x7D => "bit 7, l",
        0x7E => "bit 7, (hl)",
        0x7F => "bit 7, a",
        0x80 => "res 0, b",
        0x81 => "res 0, c",
        0x82 => "res 0, d",
        0x83 => "res 0, e",
        0x84 => "res 0, h",
        0x85 => "res 0, l",
        0x86 => "res 0, (hl)",
        0x87 => "res 0, a",
        0x88 => "res 1, b",
        0x89 => "res 1, c",
        0x8A => "res 1, d",
        0x8B => "res 1, e",
        0x8C => "res 1, h",
        0x8D => "res 1, l",
        0x8E => "res 1, (hl)",
        0x8F => "res 1, a",
        0x90 => "res 2, b",
        0x91 => "res 2, c",
        0x92 => "res 2, d",
        0x93 => "res 2, e",
        0x94 => "res 2, h",
        0x95 => "res 2, l",
        0x96 => "res 2, (hl)",
        0x97 => "res 2, a",
        0x98 => "res 3, b",
        0x99 => "res 3, c",
        0x9A => "res 3, d",
        0x9B => "res 3, e",
        0x9C => "res 3, h",
        0x9D => "res 3, l",
        0x9E => "res 3, (hl)",
        0x9F => "res 3, a",
        0xA0 => "res 4, b",
        0xA1 => "res 4, c",
        0xA2 => "res 4, d",
        0xA3 => "res 4, e",
        0xA4 => "res 4, h",
        0xA5 => "res 4, l",
        0xA6 => "res 4, (hl)",
        0xA7 => "res 4, a",
        0xA8 => "res 5, b",
        0xA9 => "res 5, c",
        0xAA => "res 5, d",
        0xAB => "res 5, e",
        0xAC => "res 5, h",
        0xAD => "res 5, l",
        0xAE => "res 5, (hl)",
        0xAF => "res 5, a",
        0xB0 => "res 6, b",
        0xB1 => "res 6, c",
        0xB2 => "res 6, d",
        0xB3 => "res 6, e",
        0xB4 => "res 6, h",
        0xB5 => "res 6, l",
        0xB6 => "res 6, (hl)",
        0xB7 => "res 6, a",
        0xB8 => "res 7, b",
        0xB9 => "res 7, c",
        0xBA => "res 7, d",
        0xBB => "res 7, e",
        0xBC => "res 7, h",
        0xBD => "res 7, l",
        0xBE => "res 7, (hl)",
        0xBF => "res 7, a",
        0xC0 => "set 0, b",
        0xC1 => "set 0, c",
        0xC2 => "set 0, d",
        0xC3 => "set 0, e",
        0xC4 => "set 0, h",
        0xC5 => "set 0, l",
        0xC6 => "set 0, (hl)",
        0xC7 => "set 0, a",
        0xC8 => "set 1, b",
        0xC9 => "set 1, c",
        0xCA => "set 1, d",
        0xCB => "set 1, e",
        0xCC => "set 1, h",
        0xCD => "set 1, l",
        0xCE => "set 1, (hl)",
        0xCF => "set 1, a",
        0xD0 => "set 2, b",
        0xD1 => "set 2, c",
        0xD2 => "set 2, d",
        0xD3 => "set 2, e",
        0xD4 => "set 2, h",
        0xD5 => "set 2, l",
        0xD6 => "set 2, (hl)",
        0xD7 => "set 2, a",
        0xD8 => "set 3, b",
        0xD9 => "set 3, c",
        0xDA => "set 3, d",
        0xDB => "set 3, e",
        0xDC => "set 3, h",
        0xDD => "set 3, l",
        0xDE => "set 3, (hl)",
        0xDF => "set 3, a",
        0xE0 => "set 4, b",
        0xE1 => "set 4, c",
        0xE2 => "set 4, d",
        0xE3 => "set 4, e",
        0xE4 => "set 4, h",
        0xE5 => "set 4, l",
        0xE6 => "set 4, (hl)",
        0xE7 => "set 4, a",
        0xE8 => "set 5, b",
        0xE9 => "set 5, c",
        0xEA => "set 5, d",
        0xEB => "set 5, e",
        0xEC => "set 5, h",
        0xED => "set 5, l",
        0xEE => "set 5, (hl)",
        0xEF => "set 5, a",
        0xF0 => "set 6, b",
        0xF1 => "set 6, c",
        0xF2 => "set 6, d",
        0xF3 => "set 6, e",
        0xF4 => "set 6, h",
        0xF5 => "set 6, l",
        0xF6 => "set 6, (hl)",
        0xF7 => "set 6, a",
        0xF8 => "set 7, b",
        0xF9 => "set 7, c",
        0xFA => "set 7, d",
        0xFB => "set 7, e",
        0xFC => "set 7, h",
        0xFD => "set 7, l",
        0xFE => "set 7, (hl)",
        0xFF => "set 7, a",
        _ => "",
    }
}

impl Instruction {
    /// The operands suit the family, and a branch has its taken cost: 4 for
    /// JP, 3 for JR, 6 for CALL, 5 for a conditional RET.
    pub open spec fn wf(self) -> bool {
        &&& data_ok(self.op, self.data)
        &&& self.op == Op::JumpImm16 ==> self.cycles == 4
        &&& self.op == Op::JumpRelImm8 ==> self.cycles == 3
        &&& self.op == Op::Call ==> self.cycles == 6
        &&& self.op == Op::RetConditional ==> self.cycles == 5
    }

    /// The entry for `byte` in the extended table when `prefixed`, else in the
    /// unprefixed one; `None` for the holes.
    pub fn from_byte(byte: u8, prefixed: bool) -> (r: Option<Instruction>)
        ensures
            r is Some <==> !is_hole(byte, prefixed),
            r matches Some(i) ==> i.wf() && i.opcode == byte && i.prefixed == prefixed,
            r matches Some(i) ==> i.text == if prefixed {
                cb_mnemonic(byte)
            } else {
                mnemonic(byte)
            },
            r matches Some(i) ==> (if prefixed {
                cb_entry(byte, i)
            } else {
                block_entry(byte, i) && column_entry(byte, i) && irregular_entry(byte, i)
            }),
    {
        if prefixed {
            Instruction::from_byte_prefixed(byte)
        } else {
            Instruction::from_byte_not_prefixed(byte)
        }
    }

    fn from_byte_prefixed(byte: u8) -> (r: Option<Instruction>)
        ensures
            r matches Some(i) && i.wf() && i.opcode == byte && i.prefixed && cb_entry(byte, i)
                && i.text == cb_mnemonic(byte),
    {
        if byte <= 0x1F {
            Instruction::prefixed_00_1f(byte)
        } else if byte <= 0x3F {
            Instruction::prefixed_20_3f(byte)
        } else if byte <= 0x5F {
            Instruction::prefixed_40_5f(byte)
        } else if byte <= 0x7F {
            Instruction::prefixed_60_7f(byte)
        } else if byte <= 0x9F {
            Instruction::prefixed_80_9f(byte)
        } else if byte <= 0xBF {
            Instruction::prefixed_a0_bf(byte)
        } else if byte <= 0xDF {
            Instruction::prefixed_c0_df(byte)
        } else {
            Instruction::prefixed_e0_ff(byte)
        }
    }

    #[verifier::spinoff_prover]
    fn prefixed_00_1f(byte: u8) -> (r: Option<Instruction>)
        requires
            0x00 <= byte <= 0x1F,
        ensures
            r matches Some(i) && i.wf() && i.opcode == byte && i.prefixed && cb_entry(byte, i)
                && i.text == cb_mnemonic(byte),
    {
        match byte {
        0x00 => Some(entry(byte, true, "rlc b", 2, Op::ExtRlcR8, InstructionData::new().r8_dst(R8::B))),
        0x01 => Some(entry(byte, true, "rlc c", 2, Op::ExtRlcR8, InstructionData::new().r8_dst(R8::C))),
        0x02 => Some(entry(byte, true, "rlc d", 2, Op::ExtRlcR8, InstructionData::new().r8_dst(R8::D))),
        0x03 => Some(entry(byte, true, "rlc e", 2, Op::ExtRlcR8, InstructionData::new().r8_dst(R8::E))),
        0x04 => Some(entry(byte, true, "rlc h", 2, Op::ExtRlcR8, InstructionData::new().r8_dst(R8::H))),
        0x05 => Some(entry(byte, true, "rlc l", 2, Op::ExtRlcR8, InstructionData::new().r8_dst(R8::L))),
        0x06 => Some(entry(byte, true, "rlc (hl)", 4, Op::ExtRlcIndirR16, InstructionData::new().r16_dst(R16::HL))),
        0x07 => Some(entry(byte, true, "rlc a", 2, Op::ExtRlcR8, InstructionData::new().r8_dst(R8::A))),
        0x08 => Some(entry(byte, true, "rrc b", 2, Op::ExtRrcR8, InstructionData::new().r8_dst(R8::B))),
        0x09 => Some(entry(byte, true, "rrc c", 2, Op::ExtRrcR8, InstructionData::new().r8_dst(R8::C))),
        0x0A => Some(entry(byte, true, "rrc d", 2, Op::ExtRrcR8, InstructionData::new().r8_dst(R8::D))),
        0x0B => Some(entry(byte, true, "rrc e", 2, Op::ExtRrcR8, InstructionData::new().r8_dst(R8::E))),
        0x0C => Some(entry(byte, true, "rrc h", 2, Op::ExtRrcR8, InstructionData::new().r8_dst(R8::H))),
        0x0D => Some(entry(byte, true, "rrc l", 2, Op::ExtRrcR8, InstructionData::new().r8_dst(R8::L))),
        0x0E => Some(entry(byte, true, "rrc (hl)", 4, Op::ExtRrcIndirR16, InstructionData::new().r16_dst(R16::HL))),
        0x0F => Some(entry(byte, true, "rrc a", 2, Op::ExtRrcR8, InstructionData::new().r8_dst(R8::A))),
        0x10 => Some(entry(byte, true, "rl b", 2, Op::ExtRlR8, InstructionData::new().r8_dst(R8::B))),
        0x11 => Some(entry(byte, true, "rl c", 2, Op::ExtRlR8, InstructionData::new().r8_dst(R8::C))),
        0x12 => Some(entry(byte, true, "rl d", 2, Op::ExtRlR8, InstructionData::new().r8_dst(R8::D))),
        0x13 => Some(entry(byte, true, "rl e", 2, Op::ExtRlR8, InstructionData::new().r8_dst(R8::E))),
        0x14 => Some(entry(byte, true, "rl h", 2, Op::ExtRlR8, InstructionData::new().r8_dst(R8::H))),
        0x15 => Some(entry(byte, true, "rl l", 2, Op::ExtRlR8, InstructionData::new().r8_dst(R8::L))),
        0x16 => Some(entry(byte, true, "rl (hl)", 4, Op::ExtRlIndirR16, InstructionData::new().r16_dst(R16::HL))),
        0x17 => Some(entry(byte, true, "rl a", 2, Op::ExtRlR8, InstructionData::new().r8_dst(R8::A))),
        0x18 => Some(entry(byte, true, "rr b", 2, Op::ExtRrR8, InstructionData::new().r8_dst(R8::B))),
        0x19 => Some(entry(byte, true, "rr c", 2, Op::ExtRrR8, InstructionData::new().r8_dst(R8::C))),
        0x1A => Some(entry(byte, true, "rr d", 2, Op::ExtRrR8, InstructionData::new().r8_dst(R8::D))),
        0x1B => Some(entry(byte, true, "rr e", 2, Op::ExtRrR8, InstructionData::new().r8_dst(R8::E))),
        0x1C => Some(entry(byte, true, "rr h", 2, Op::ExtRrR8, InstructionData::new().r8_dst(R8::H))),
        0x1D => Some(entry(byte, true, "rr l", 2, Op::ExtRrR8, InstructionData::new().r8_dst(R8::L))),
        0x1E => Some(entry(byte, true, "rr (hl)", 4, Op::ExtRrIndirR16, InstructionData::new().r16_dst(R16::HL))),
        0x1F => Some(entry(byte, true, "rr a", 2, Op::ExtRrR8, InstructionData::new().r8_dst(R8::A))),
            _ => None,
        }
    }

    #[verifier::spinoff_prover]
    fn prefixed_20_3f(byte: u8) -> (r: Option<Instruction>)
        requires
            0x20 <= byte <= 0x3F,
        ensures
            r matches Some(i) && i.wf() && i.opcode == byte && i.prefixed && cb_entry(byte, i)
                && i.text == cb_mnemonic(byte),
    {
        match byte {
        0x20 => Some(entry(byte, true, "sla b", 2, Op::ExtSlaR8, InstructionData::new().r8_dst(R8::B))),
        0x21 => Some(entry(byte, true, "sla c", 2, Op::ExtSlaR8, InstructionData::new().r8_dst(R8::C))),
        0x22 => Some(entry(byte, true, "sla d", 2, Op::ExtSlaR8, InstructionData::new().r8_dst(R8::D))),
        0x23 => Some(entry(byte, true, "sla e", 2, Op::ExtSlaR8, InstructionData::new().r8_dst(R8::E))),
        0x24 => Some(entry(byte, true, "sla h", 2, Op::ExtSlaR8, InstructionData::new().r8_dst(R8::H))),
        0x25 => Some(entry(byte, true, "sla l", 2, Op::ExtSlaR8, InstructionData::new().r8_dst(R8::L))),
        0x26 => Some(entry(byte, true, "sla (hl)", 4, Op::ExtSlaIndirR16, InstructionData::new().r16_dst(R16::HL))),
        0x27 => Some(entry(byte, true, "sla a", 2, Op::ExtSlaR8, InstructionData::new().r8_dst(R8::A))),
        0x28 => Some(entry(byte, true, "sra b", 2, Op::ExtSraR8, InstructionData::new().r8_dst(R8::B))),
        0x29 => Some(entry(byte, true, "sra c", 2, Op::ExtSraR8, InstructionData::new().r8_dst(R8::C))),
        0x2A => Some(entry(byte, true, "sra d", 2, Op::ExtSraR8, InstructionData::new().r8_dst(R8::D))),
        0x2B => Some(entry(byte, true, "sra e", 2, Op::ExtSraR8, InstructionData::new().r8_dst(R8::E))),
        0x2C => Some(entry(byte, true, "sra h", 2, Op::ExtSraR8, InstructionData::new().r8_dst(R8::H))),
        0x2D => Some(entry(byte, true, "sra l", 2, Op::ExtSraR8, InstructionData::new().r8_dst(R8::L))),
        0x2E => Some(entry(byte, true, "sra (hl)", 4, Op::ExtSraIndirR16, InstructionData::new().r16_dst(R16::HL))),
        0x2F => Some(entry(byte, true, "sra a", 2, Op::ExtSraR8, InstructionData::new().r8_dst(R8::A))),
        0x30 => Some(entry(byte, true, "swap b", 2, Op::ExtSwapR8, InstructionData::new().r8_dst(R8::B))),
        0x31 => Some(entry(byte, true, "swap c", 2, Op::ExtSwapR8, InstructionData::new().r8_dst(R8::C))),
        0x32 => Some(entry(byte, true, "swap d", 2, Op::ExtSwapR8, InstructionData::new().r8_dst(R8::D))),
        0x33 => Some(entry(byte, true, "swap e", 2, Op::ExtSwapR8, InstructionData::new().r8_dst(R8::E))),
        0x34 => Some(entry(byte, true, "swap h", 2, Op::ExtSwapR8, InstructionData::new().r8_dst(R8::H))),
        0x35 => Some(entry(byte, true, "swap l", 2, Op::ExtSwapR8, InstructionData::new().r8_dst(R8::L))),
        0x36 => Some(entry(byte, true, "swap (hl)", 4, Op::ExtSwapIndirR16, InstructionData::new().r16_dst(R16::HL))),
        0x37 => Some(entry(byte, true, "swap a", 2, Op::ExtSwapR8, InstructionData::new().r8_dst(R8::A))),
        0x38 => Some(entry(byte, true, "srl b", 2, Op::ExtSrlR8, InstructionData::new().r8_dst(R8::B))),
        0x39 => Some(entry(byte, true, "srl c", 2, Op::ExtSrlR8, InstructionData::new().r8_dst(R8::C))),
        0x3A => Some(entry(byte, true, "srl d", 2, Op::ExtSrlR8, InstructionData::new().r8_dst(R8::D))),
        0x3B => Some(entry(byte, true, "srl e", 2, Op::ExtSrlR8, InstructionData::new().r8_dst(R8::E))),
        0x3C => Some(entry(byte, true, "srl h", 2, Op::ExtSrlR8, InstructionData::new().r8_dst(R8::H))),
        0x3D => Some(entry(byte, true, "srl l", 2, Op::ExtSrlR8, InstructionData::new().r8_dst(R8::L))),
        0x3E => Some(entry(byte, true, "srl (hl)", 4, Op::ExtSrlIndirR16, InstructionData::new().r16_dst(R16::HL))),
        0x3F => Some(entry(byte, true, "srl a", 2, Op::ExtSrlR8, InstructionData::new().r8_dst(R8::A))),
            _ => None,
        }
    }

    #[verifier::spinoff_prover]
    fn prefixed_40_5f(byte: u8) -> (r: Option<Instruction>)
        requires
            0x40 <= byte <= 0x5F,
        ensures
            r matches Some(i) && i.wf() && i.opcode == byte && i.prefixed && cb_entry(byte, i)
                && i.text == cb_mnemonic(byte),
    {
        match byte {
        0x40 => Some(entry(byte, true, "bit 0, b", 2, Op::ExtBitR8, InstructionData::new().r8_src(R8::B).bit(0))),
        0x41 => Some(entry(byte, true, "bit 0, c", 2, Op::ExtBitR8, InstructionData::new().r8_src(R8::C).bit(0))),
        0x42 => Some(entry(byte, true, "bit 0, d", 2, Op::ExtBitR8, InstructionData::new().r8_src(R8::D).bit(0))),
        0x43 => Some(entry(byte, true, "bit 0, e", 2, Op::ExtBitR8, InstructionData::new().r8_src(R8::E).bit(0))),
        0x44 => Some(entry(byte, true, "bit 0, h", 2, Op::ExtBitR8, InstructionData::new().r8_src(R8::H).bit(0))),
        0x45 => Some(entry(byte, true, "bit 0, l", 2, Op::ExtBitR8, InstructionData::new().r8_src(R8::L).bit(0))),
        0x46 => Some(entry(byte, true, "bit 0, (hl)", 3, Op::ExtBitIndirR16, InstructionData::new().r16_src(R16::HL).bit(0))),
        0x47 => Some(entry(byte, true, "bit 0, a", 2, Op::ExtBitR8, InstructionData::new().r8_src(R8::A).bit(0))),
        0x48 => Some(entry(byte, true, "bit 1, b", 2, Op::ExtBitR8, InstructionData::new().r8_src(R8::B).bit(1))),
        0x49 => Some(entry(byte, true, "bit 1, c", 2, Op::ExtBitR8, InstructionData::new().r8_src(R8::C).bit(1))),
        0x4A => Some(entry(byte, true, "bit 1, d", 2, Op::ExtBitR8, InstructionData::new().r8_src(R8::D).bit(1))),
        0x4B => Some(entry(byte, true, "bit 1, e", 2, Op::ExtBitR8, InstructionData::new().r8_src(R8::E).bit(1))),
        0x4C => Some(entry(byte, true, "bit 1, h", 2, Op::ExtBitR8, InstructionData::new().r8_src(R8::H).bit(1))),
        0x4D => Some(entry(byte, true, "bit 1, l", 2, Op::ExtBitR8, InstructionData::new().r8_src(R8::L).bit(1))),
        0x4E => Some(entry(byte, true, "bit 1, (hl)", 3, Op::ExtBitIndirR16, InstructionData::new().r16_src(R16::HL).bit(1))),
        0x4F => Some(entry(byte, true, "bit 1, a", 2, Op::ExtBitR8, InstructionData::new().r8_src(R8::A).bit(1))),
        0x50 => Some(entry(byte, true, "bit 2, b", 2, Op::ExtBitR8, InstructionData::new().r8_src(R8::B).bit(2))),
        0x51 => Some(entry(byte, true, "bit 2, c", 2, Op::ExtBitR8, InstructionData::new().r8_src(R8::C).bit(2))),
        0x52 => Some(entry(byte, true, "bit 2, d", 2, Op::ExtBitR8, InstructionData::new().r8_src(R8::D).bit(2))),
        0x53 => Some(entry(byte, true, "bit 2, e", 2, Op::ExtBitR8, InstructionData::new().r8_src(R8::E).bit(2))),
        0x54 => Some(entry(byte, true, "bit 2, h", 2, Op::ExtBitR8, InstructionData::new().r8_src(R8::H).bit(2))),
        0x55 => Some(entry(byte, true, "bit 2, l", 2, Op::ExtBitR8, InstructionData::new().r8_src(R8::L).bit(2))),
        0x56 => Some(entry(byte, true, "bit 2, (hl)", 3, Op::ExtBitIndirR16, InstructionData::new().r16_src(R16::HL).bit(2))),
        0x57 => Some(entry(byte, true, "bit 2, a", 2, Op::ExtBitR8, InstructionData::new().r8_src(R8::A).bit(2))),
        0x58 => Some(entry(byte, true, "bit 3, b", 2, Op::ExtBitR8, InstructionData::new().r8_src(R8::B).bit(3))),
        0x59 => Some(entry(byte, true, "bit 3, c", 2, Op::ExtBitR8, InstructionData::new().r8_src(R8::C).bit(3))),
        0x5A => Some(entry(byte, true, "bit 3, d", 2, Op::ExtBitR8, InstructionData::new().r8_src(R8::D).bit(3))),
        0x5B => Some(entry(byte, true, "bit 3, e", 2, Op::ExtBitR8, InstructionData::new().r8_src(R8::E).bit(3))),
        0x5C => Some(entry(byte, true, "bit 3, h", 2, Op::ExtBitR8, InstructionData::new().r8_src(R8::H).bit(3))),
        0x5D => Some(entry(byte, true, "bit 3, l", 2, Op::ExtBitR8, InstructionData::new().r8_src(R8::L).bit(3))),
        0x5E => Some(entry(byte, true, "bit 3, (hl)", 3, Op::ExtBitIndirR16, InstructionData::new().r16_src(R16::HL).bit(3))),
        0x5F => Some(entry(byte, true, "bit 3, a", 2, Op::ExtBitR8, InstructionData::new().r8_src(R8::A).bit(3))),
            _ => None,
        }
    }

    #[verifier::spinoff_prover]
    fn prefixed_60_7f(byte: u8) -> (r: Option<Instruction>)
        requires
            0x60 <= byte <= 0x7F,
        ensures
            r matches Some(i) && i.wf() && i.opcode == byte && i.prefixed && cb_entry(byte, i)
                && i.text == cb_mnemonic(byte),
    {
        match byte {
        0x60 => Some(entry(byte, true, "bit 4, b", 2, Op::ExtBitR8, InstructionData::new().r8_src(R8::B).bit(4))),
        0x61 => Some(entry(byte, true, "bit 4, c", 2, Op::ExtBitR8, InstructionData::new().r8_src(R8::C).bit(4))),
        0x62 => Some(entry(byte, true, "bit 4, d", 2, Op::ExtBitR8, InstructionData::new().r8_src(R8::D).bit(4))),
        0x63 => Some(entry(byte, true, "bit 4, e", 2, Op::ExtBitR8, InstructionData::new().r8_src(R8::E).bit(4))),
        0x64 => Some(entry(byte, true, "bit 4, h", 2, Op::ExtBitR8, InstructionData::new().r8_src(R8::H).bit(4))),
        0x65 => Some(entry(byte, true, "bit 4, l", 2, Op::ExtBitR8, InstructionData::new().r8_src(R8::L).bit(4))),
        0x66 => Some(entry(byte, true, "bit 4, (hl)", 3, Op::ExtBitIndirR16, InstructionData::new().r16_src(R16::HL).bit(4))),
        0x67 => Some(entry(byte, true, "bit 4, a", 2, Op::ExtBitR8, InstructionData::new().r8_src(R8::A).bit(4))),
        0x68 => Some(entry(byte, true, "bit 5, b", 2, Op::ExtBitR8, InstructionData::new().r8_src(R8::B).bit(5))),
        0x69 => Some(entry(byte, true, "bit 5, c", 2, Op::ExtBitR8, InstructionData::new().r8_src(R8::C).bit(5))),
        0x6A => Some(entry(byte, true, "bit 5, d", 2, Op::ExtBitR8, InstructionData::new().r8_src(R8::D).bit(5))),
        0x6B => Some(entry(byte, true, "bit 5, e", 2, Op::ExtBitR8, InstructionData::new().r8_src(R8::E).bit(5))),
        0x6C => Some(entry(byte, true, "bit 5, h", 2, Op::ExtBitR8, InstructionData::new().r8_src(R8::H).bit(5))),
        0x6D => Some(entry(byte, true, "bit 5, l", 2, Op::ExtBitR8, InstructionData::new().r8_src(R8::L).bit(5))),
        0x6E => Some(entry(byte, true, "bit 5, (hl)", 3, Op::ExtBitIndirR16, InstructionData::new().r16_src(R16::HL).bit(5))),
        0x6F => Some(entry(byte, true, "bit 5, a", 2, Op::ExtBitR8, InstructionData::new().r8_src(R8::A).bit(5))),
        0x70 => Some(entry(byte, true, "bit 6, b", 2, Op::ExtBitR8, InstructionData::new().r8_src(R8::B).bit(6))),
        0x71 => Some(entry(byte, true, "bit 6, c", 2, Op::ExtBitR8, InstructionData::new().r8_src(R8::C).bit(6))),
        0x72 => Some(entry(byte, true, "bit 6, d", 2, Op::ExtBitR8, InstructionData::new().r8_src(R8::D).bit(6))),
        0x73 => Some(entry(byte, true, "bit 6, e", 2, Op::ExtBitR8, InstructionData::new().r8_src(R8::E).bit(6))),
        0x74 => Some(entry(byte, true, "bit 6, h", 2, Op::ExtBitR8, InstructionData::new().r8_src(R8::H).bit(6))),
        0x75 => Some(entry(byte, true, "bit 6, l", 2, Op::ExtBitR8, InstructionData::new().r8_src(R8::L).bit(6))),
        0x76 => Some(entry(byte, true, "bit 6, (hl)", 3, Op::ExtBitIndirR16, InstructionData::new().r16_src(R16::HL).bit(6))),
        0x77 => Some(entry(byte, true, "bit 6, a", 2, Op::ExtBitR8, InstructionData::new().r8_src(R8::A).bit(6))),
        0x78 => Some(entry(byte, true, "bit 7, b", 2, Op::ExtBitR8, InstructionData::new().r8_src(R8::B).bit(7))),
        0x79 => Some(entry(byte, true, "bit 7, c", 2, Op::ExtBitR8, InstructionData::new().r8_src(R8::C).bit(7))),
        0x7A => Some(entry(byte, true, "bit 7, d", 2, Op::ExtBitR8, InstructionData::new().r8_src(R8::D).bit(7))),
        0x7B => Some(entry(byte, true, "bit 7, e", 2, Op::ExtBitR8, InstructionData::new().r8_src(R8::E).bit(7))),
        0x7C => Some(entry(byte, true, "bit 7, h", 2, Op::ExtBitR8, InstructionData::new().r8_src(R8::H).bit(7))),
        0x7D => Some(entry(byte, true, "bit 7, l", 2, Op::ExtBitR8, InstructionData::new().r8_src(R8::L).bit(7))),
        0x7E => Some(entry(byte, true, "bit 7, (hl)", 3, Op::ExtBitIndirR16, InstructionData::new().r16_src(R16::HL).bit(7))),
        0x7F => Some(entry(byte, true, "bit 7, a", 2, Op::ExtBitR8, InstructionData::new().r8_src(R8::A).bit(7))),
            _ => None,
        }
    }

    #[verifier::spinoff_prover]
    fn prefixed_80_9f(byte: u8) -> (r: Option<Instruction>)
        requires
            0x80 <= byte <= 0x9F,
        ensures
            r matches Some(i) && i.wf() && i.opcode == byte && i.prefixed && cb_entry(byte, i)
                && i.text == cb_mnemonic(byte),
    {
        match byte {
        0x80 => Some(entry(byte, true, "res 0, b", 2, Op::ExtResBitR8, InstructionData::new().r8_src(R8::B).bit(0))),
        0x81 => Some(entry(byte, true, "res 0, c", 2, Op::ExtResBitR8, InstructionData::new().r8_src(R8::C).bit(0))),
        0x82 => Some(entry(byte, true, "res 0, d", 2, Op::ExtResBitR8, InstructionData::new().r8_src(R8::D).bit(0))),
        0x83 => Some(entry(byte, true, "res 0, e", 2, Op::ExtResBitR8, InstructionData::new().r8_src(R8::E).bit(0))),
        0x84 => Some(entry(byte, true, "res 0, h", 2, Op::ExtResBitR8, InstructionData::new().r8_src(R8::H).bit(0))),
        0x85 => Some(entry(byte, true, "res 0, l", 2, Op::ExtResBitR8, InstructionData::new().r8_src(R8::L).bit(0))),
        0x86 => Some(entry(byte, true, "res 0, (hl)", 4, Op::ExtResBitIndirR16, InstructionData::new().r16_src(R16::HL).bit(0))),
        0x87 => Some(entry(byte, true, "res 0, a", 2, Op::ExtResBitR8, InstructionData::new().r8_src(R8::A).bit(0))),
        0x88 => Some(entry(byte, true, "res 1, b", 2, Op::ExtResBitR8, InstructionData::new().r8_src(R8::B).bit(1))),
        0x89 => Some(entry(byte, true, "res 1, c", 2, Op::ExtResBitR8, InstructionData::new().r8_src(R8::C).bit(1))),
        0x8A => Some(entry(byte, true, "res 1, d", 2, Op::ExtResBitR8, InstructionData::new().r8_src(R8::D).bit(1))),
        0x8B => Some(entry(byte, true, "res 1, e", 2, Op::ExtResBitR8, InstructionData::new().r8_src(R8::E).bit(1))),
        0x8C => Some(entry(byte, true, "res 1, h", 2, Op::ExtResBitR8, InstructionData::new().r8_src(R8::H).bit(1))),
        0x8D => Some(entry(byte, true, "res 1, l", 2, Op::ExtResBitR8, InstructionData::new().r8_src(R8::L).bit(1))),
        0x8E => Some(entry(byte, true, "res 1, (hl)", 4, Op::ExtResBitIndirR16, InstructionData::new().r16_src(R16::HL).bit(1))),
        0x8F => Some(entry(byte, true, "res 1, a", 2, Op::ExtResBitR8, InstructionData::new().r8_src(R8::A).bit(1))),
        0x90 => Some(entry(byte, true, "res 2, b", 2, Op::ExtResBitR8, InstructionData::new().r8_src(R8::B).bit(2))),
        0x91 => Some(entry(byte, true, "res 2, c", 2, Op::ExtResBitR8, InstructionData::new().r8_src(R8::C).bit(2))),
        0x92 => Some(entry(byte, true, "res 2, d", 2, Op::ExtResBitR8, InstructionData::new().r8_src(R8::D).bit(2))),
        0x93 => Some(entry(byte, true, "res 2, e", 2, Op::ExtResBitR8, InstructionData::new().r8_src(R8::E).bit(2))),
        0x94 => Some(entry(byte, true, "res 2, h", 2, Op::ExtResBitR8, InstructionData::new().r8_src(R8::H).bit(2))),
        0x95 => Some(entry(byte, true, "res 2, l", 2, Op::ExtResBitR8, InstructionData::new().r8_src(R8::L).bit(2))),
        0x96 => Some(entry(byte, true, "res 2, (hl)", 4, Op::ExtResBitIndirR16, InstructionData::new().r16_src(R16::HL).bit(2))),
        0x97 => Some(entry(byte, true, "res 2, a", 2, Op::ExtResBitR8, InstructionData::new().r8_src(R8::A).bit(2))),
        0x98 => Some(entry(byte, true, "res 3, b", 2, Op::ExtResBitR8, InstructionData::new().r8_src(R8::B).bit(3))),
        0x99 => Some(entry(byte, true, "res 3, c", 2, Op::ExtResBitR8, InstructionData::new().r8_src(R8::C).bit(3))),
        0x9A => Some(entry(byte, true, "res 3, d", 2, Op::ExtResBitR8, InstructionData::new().r8_src(R8::D).bit(3))),
        0x9B => Some(entry(byte, true, "res 3, e", 2, Op::ExtResBitR8, InstructionData::new().r8_src(R8::E).bit(3))),
        0x9C => Some(entry(byte, true, "res 3, h", 2, Op::ExtResBitR8, InstructionData::new().r8_src(R8::H).bit(3))),
        0x9D => Some(entry(byte, true, "res 3, l", 2, Op::ExtResBitR8, InstructionData::new().r8_src(R8::L).bit(3))),
        0x9E => Some(entry(byte, true, "res 3, (hl)", 4, Op::ExtResBitIndirR16, InstructionData::new().r16_src(R16::HL).bit(3))),
        0x9F => Some(entry(byte, true, "res 3, a", 2, Op::ExtResBitR8, InstructionData::new().r8_src(R8::A).bit(3))),
            _ => None,
        }
    }

    #[verifier::spinoff_prover]
    fn prefixed_a0_bf(byte: u8) -> (r: Option<Instruction>)
        requires
            0xA0 <= byte <= 0xBF,
        ensures
            r matches Some(i) && i.wf() && i.opcode == byte && i.prefixed && cb_entry(byte, i)
                && i.text == cb_mnemonic(byte),
    {
        match byte {
        0xA0 => Some(entry(byte, true, "res 4, b", 2, Op::ExtResBitR8, InstructionData::new().r8_src(R8::B).bit(4))),
        0xA1 => Some(entry(byte, true, "res 4, c", 2, Op::ExtResBitR8, InstructionData::new().r8_src(R8::C).bit(4))),
        0xA2 => Some(entry(byte, true, "res 4, d", 2, Op::ExtResBitR8, InstructionData::new().r8_src(R8::D).bit(4))),
        0xA3 => Some(entry(byte, true, "res 4, e", 2, Op::ExtResBitR8, InstructionData::new().r8_src(R8::E).bit(4))),
        0xA4 => Some(entry(byte, true, "res 4, h", 2, Op::ExtResBitR8, InstructionData::new().r8_src(R8::H).bit(4))),
        0xA5 => Some(entry(byte, true, "res 4, l", 2, Op::ExtResBitR8, InstructionData::new().r8_src(R8::L).bit(4))),
        0xA6 => Some(entry(byte, true, "res 4, (hl)", 4, Op::ExtResBitIndirR16, InstructionData::new().r16_src(R16::HL).bit(4))),
        0xA7 => Some(entry(byte, true, "res 4, a", 2, Op::ExtResBitR8, InstructionData::new().r8_src(R8::A).bit(4))),
        0xA8 => Some(entry(byte, true, "res 5, b", 2, Op::ExtResBitR8, InstructionData::new().r8_src(R8::B).bit(5))),
        0xA9 => Some(entry(byte, true, "res 5, c", 2, Op::ExtResBitR8, InstructionData::new().r8_src(R8::C).bit(5))),
        0xAA => Some(entry(byte, true, "res 5, d", 2, Op::ExtResBitR8, InstructionData::new().r8_src(R8::D).bit(5))),
        0xAB => Some(entry(byte, true, "res 5, e", 2, Op::ExtResBitR8, InstructionData::new().r8_src(R8::E).bit(5))),
        0xAC => Some(entry(byte, true, "res 5, h", 2, Op::ExtResBitR8, InstructionData::new().r8_src(R8::H).bit(5))),
        0xAD => Some(entry(byte, true, "res 5, l", 2, Op::ExtResBitR8, InstructionData::new().r8_src(R8::L).bit(5))),
        0xAE => Some(entry(byte, true, "res 5, (hl)", 4, Op::ExtResBitIndirR16, InstructionData::new().r16_src(R16::HL).bit(5))),
        0xAF => Some(entry(byte, true, "res 5, a", 2, Op::ExtResBitR8, InstructionData::new().r8_src(R8::A).bit(5))),
        0xB0 => Some(entry(byte, true, "res 6, b", 2, Op::ExtResBitR8, InstructionData::new().r8_src(R8::B).bit(6))),
        0xB1 => Some(entry(byte, true, "res 6, c", 2, Op::ExtResBitR8, InstructionData::new().r8_src(R8::C).bit(6))),
        0xB2 => Some(entry(byte, true, "res 6, d", 2, Op::ExtResBitR8, InstructionData::new().r8_src(R8::D).bit(6))),
        0xB3 => Some(entry(byte, true, "res 6, e", 2, Op::ExtResBitR8, InstructionData::new().r8_src(R8::E).bit(6))),
        0xB4 => Some(entry(byte, true, "res 6, h", 2, Op::ExtResBitR8, InstructionData::new().r8_src(R8::H).bit(6))),
        0xB5 => Some(entry(byte, true, "res 6, l", 2, Op::ExtResBitR8, InstructionData::new().r8_src(R8::L).bit(6))),
        0xB6 => Some(entry(byte, true, "res 6, (hl)", 4, Op::ExtResBitIndirR16, InstructionData::new().r16_src(R16::HL).bit(6))),
        0xB7 => Some(entry(byte, true, "res 6, a", 2, Op::ExtResBitR8, InstructionData::new().r8_src(R8::A).bit(6))),
        0xB8 => Some(entry(byte, true, "res 7, b", 2, Op::ExtResBitR8, InstructionData::new().r8_src(R8::B).bit(7))),
        0xB9 => Some(entry(byte, true, "res 7, c", 2, Op::ExtResBitR8, InstructionData::new().r8_src(R8::C).bit(7))),
        0xBA => Some(entry(byte, true, "res 7, d", 2, Op::ExtResBitR8, InstructionData::new().r8_src(R8::D).bit(7))),
        0xBB => Some(entry(byte, true, "res 7, e", 2, Op::ExtResBitR8, InstructionData::new().r8_src(R8::E).bit(7))),
        0xBC => Some(entry(byte, true, "res 7, h", 2, Op::ExtResBitR8, InstructionData::new().r8_src(R8::H).bit(7))),
        0xBD => Some(entry(byte, true, "res 7, l", 2, Op::ExtResBitR8, InstructionData::new().r8_src(R8::L).bit(7))),
        0xBE => Some(entry(byte, true, "res 7, (hl)", 4, Op::ExtResBitIndirR16, InstructionData::new().r16_src(R16::HL).bit(7))),
        0xBF => Some(entry(byte, true, "res 7, a", 2, Op::ExtResBitR8, InstructionData::new().r8_src(R8::A).bit(7))),
            _ => None,
        }
    }

    #[verifier::spinoff_prover]
    fn prefixed_c0_df(byte: u8) -> (r: Option<Instruction>)
        requires
            0xC0 <= byte <= 0xDF,
        ensures
            r matches Some(i) && i.wf() && i.opcode == byte && i.prefixed && cb_entry(byte, i)
                && i.text == cb_mnemonic(byte),
    {
        match byte {
        0xC0 => Some(entry(byte, true, "set 0, b", 2, Op::ExtSetBitR8, InstructionData::new().r8_src(R8::B).bit(0))),
        0xC1 => Some(entry(byte, true, "set 0, c", 2, Op::ExtSetBitR8, InstructionData::new().r8_src(R8::C).bit(0))),
        0xC2 => Some(entry(byte, true, "set 0, d", 2, Op::ExtSetBitR8, InstructionData::new().r8_src(R8::D).bit(0))),
        0xC3 => Some(entry(byte, true, "set 0, e", 2, Op::ExtSetBitR8, InstructionData::new().r8_src(R8::E).bit(0))),
        0xC4 => Some(entry(byte, true, "set 0, h", 2, Op::ExtSetBitR8, InstructionData::new().r8_src(R8::H).bit(0))),
        0xC5 => Some(entry(byte, true, "set 0, l", 2, Op::ExtSetBitR8, InstructionData::new().r8_src(R8::L).bit(0))),
        0xC6 => Some(entry(byte, true, "set 0, (hl)", 4, Op::ExtSetBitIndirR16, InstructionData::new().r16_src(R16::HL).bit(0))),
        0xC7 => Some(entry(byte, true, "set 0, a", 2, Op::ExtSetBitR8, InstructionData::new().r8_src(R8::A).bit(0))),
        0xC8 => Some(entry(byte, true, "set 1, b", 2, Op::ExtSetBitR8, InstructionData::new().r8_src(R8::B).bit(1))),
        0xC9 => Some(entry(byte, true, "set 1, c", 2, Op::ExtSetBitR8, InstructionData::new().r8_src(R8::C).bit(1))),
        0xCA => Some(entry(byte, true, "set 1, d", 2, Op::ExtSetBitR8, InstructionData::new().r8_src(R8::D).bit(1))),
        0xCB => Some(entry(byte, true, "set 1, e", 2, Op::ExtSetBitR8, InstructionData::new().r8_src(R8::E).bit(1))),
        0xCC => Some(entry(byte, true, "set 1, h", 2, Op::ExtSetBitR8, InstructionData::new().r8_src(R8::H).bit(1))),
        0xCD => Some(entry(byte, true, "set 1, l", 2, Op::ExtSetBitR8, InstructionData::new().r8_src(R8::L).bit(1))),
        0xCE => Some(entry(byte, true, "set 1, (hl)", 4, Op::ExtSetBitIndirR16, InstructionData::new().r16_src(R16::HL).bit(1))),
        0xCF => Some(entry(byte, true, "set 1, a", 2, Op::ExtSetBitR8, InstructionData::new().r8_src(R8::A).bit(1))),
        0xD0 => Some(entry(byte, true, "set 2, b", 2, Op::ExtSetBitR8, InstructionData::new().r8_src(R8::B).bit(2))),
        0xD1 => Some(entry(byte, true, "set 2, c", 2, Op::ExtSetBitR8, InstructionData::new().r8_src(R8::C).bit(2))),
        0xD2 => Some(entry(byte, true, "set 2, d", 2, Op::ExtSetBitR8, InstructionData::new().r8_src(R8::D).bit(2))),
        0xD3 => Some(entry(byte, true, "set 2, e", 2, Op::ExtSetBitR8, InstructionData::new().r8_src(R8::E).bit(2))),
        0xD4 => Some(entry(byte, true, "set 2, h", 2, Op::ExtSetBitR8, InstructionData::new().r8_src(R8::H).bit(2))),
        0xD5 => Some(entry(byte, true, "set 2, l", 2, Op::ExtSetBitR8, InstructionData::new().r8_src(R8::L).bit(2))),
        0xD6 => Some(entry(byte, true, "set 2, (hl)", 4, Op::ExtSetBitIndirR16, InstructionData::new().r16_src(R16::HL).bit(2))),
        0xD7 => Some(entry(byte, true, "set 2, a", 2, Op::ExtSetBitR8, InstructionData::new().r8_src(R8::A).bit(2))),
        0xD8 => Some(entry(byte, true, "set 3, b", 2, Op::ExtSetBitR8, InstructionData::new().r8_src(R8::B).bit(3))),
        0xD9 => Some(entry(byte, true, "set 3, c", 2, Op::ExtSetBitR8, InstructionData::new().r8_src(R8::C).bit(3))),
        0xDA => Some(entry(byte, true, "set 3, d", 2, Op::ExtSetBitR8, InstructionData::new().r8_src(R8::D).bit(3))),
        0xDB => Some(entry(byte, true, "set 3, e", 2, Op::ExtSetBitR8, InstructionData::new().r8_src(R8::E).bit(3))),
        0xDC => Some(entry(byte, true, "set 3, h", 2, Op::ExtSetBitR8, InstructionData::new().r8_src(R8::H).bit(3))),
        0xDD => Some(entry(byte, true, "set 3, l", 2, Op::ExtSetBitR8, InstructionData::new().r8_src(R8::L).bit(3))),
        0xDE => Some(entry(byte, true, "set 3, (hl)", 4, Op::ExtSetBitIndirR16, InstructionData::new().r16_src(R16::HL).bit(3))),
        0xDF => Some(entry(byte, true, "set 3, a", 2, Op::ExtSetBitR8, InstructionData::new().r8_src(R8::A).bit(3))),
            _ => None,
        }
    }

    #[verifier::spinoff_prover]
    fn prefixed_e0_ff(byte: u8) -> (r: Option<Instruction>)
        requires
            0xE0 <= byte <= 0xFF,
        ensures
            r matches Some(i) && i.wf() && i.opcode == byte && i.prefixed && cb_entry(byte, i)
                && i.text == cb_mnemonic(byte),
    {
        match byte {
        0xE0 => Some(entry(byte, true, "set 4, b", 2, Op::ExtSetBitR8, InstructionData::new().r8_src(R8::B).bit(4))),
        0xE1 => Some(entry(byte, true, "set 4, c", 2, Op::ExtSetBitR8, InstructionData::new().r8_src(R8::C).bit(4))),
        0xE2 => Some(entry(byte, true, "set 4, d", 2, Op::ExtSetBitR8, InstructionData::new().r8_src(R8::D).bit(4))),
        0xE3 => Some(entry(byte, true, "set 4, e", 2, Op::ExtSetBitR8, InstructionData::new().r8_src(R8::E).bit(4))),
        0xE4 => Some(entry(byte, true, "set 4, h", 2, Op::ExtSetBitR8, InstructionData::new().r8_src(R8::H).bit(4))),
        0xE5 => Some(entry(byte, true, "set 4, l", 2, Op::ExtSetBitR8, InstructionData::new().r8_src(R8::L).bit(4))),
        0xE6 => Some(entry(byte, true, "set 4, (hl)", 4, Op::ExtSetBitIndirR16, InstructionData::new().r16_src(R16::HL).bit(4))),
        0xE7 => Some(entry(byte, true, "set 4, a", 2, Op::ExtSetBitR8, InstructionData::new().r8_src(R8::A).bit(4))),
        0xE8 => Some(entry(byte, true, "set 5, b", 2, Op::ExtSetBitR8, InstructionData::new().r8_src(R8::B).bit(5))),
        0xE9 => Some(entry(byte, true, "set 5, c", 2, Op::ExtSetBitR8, InstructionData::new().r8_src(R8::C).bit(5))),
        0xEA => Some(entry(byte, true, "set 5, d", 2, Op::ExtSetBitR8, InstructionData::new().r8_src(R8::D).bit(5))),
        0xEB => Some(entry(byte, true, "set 5, e", 2, Op::ExtSetBitR8, InstructionData::new().r8_src(R8::E).bit(5))),
        0xEC => Some(entry(byte, true, "set 5, h", 2, Op::ExtSetBitR8, InstructionData::new().r8_src(R8::H).bit(5))),
        0xED => Some(entry(byte, true, "set 5, l", 2, Op::ExtSetBitR8, InstructionData::new().r8_src(R8::L).bit(5))),
        0xEE => Some(entry(byte, true, "set 5, (hl)", 4, Op::ExtSetBitIndirR16, InstructionData::new().r16_src(R16::HL).bit(5))),
        0xEF => Some(entry(byte, true, "set 5, a", 2, Op::ExtSetBitR8, InstructionData::new().r8_src(R8::A).bit(5))),
        0xF0 => Some(entry(byte, true, "set 6, b", 2, Op::ExtSetBitR8, InstructionData::new().r8_src(R8::B).bit(6))),
        0xF1 => Some(entry(byte, true, "set 6, c", 2, Op::ExtSetBitR8, InstructionData::new().r8_src(R8::C).bit(6))),
        0xF2 => Some(entry(byte, true, "set 6, d", 2, Op::ExtSetBitR8, InstructionData::new().r8_src(R8::D).bit(6))),
        0xF3 => Some(entry(byte, true, "set 6, e", 2, Op::ExtSetBitR8, InstructionData::new().r8_src(R8::E).bit(6))),
        0xF4 => Some(entry(byte, true, "set 6, h", 2, Op::ExtSetBitR8, InstructionData::new().r8_src(R8::H).bit(6))),
        0xF5 => Some(entry(byte, true, "set 6, l", 2, Op::ExtSetBitR8, InstructionData::new().r8_src(R8::L).bit(6))),
        0xF6 => Some(entry(byte, true, "set 6, (hl)", 4, Op::ExtSetBitIndirR16, InstructionData::new().r16_src(R16::HL).bit(6))),
        0xF7 => Some(entry(byte, true, "set 6, a", 2, Op::ExtSetBitR8, InstructionData::new().r8_src(R8::A).bit(6))),
        0xF8 => Some(entry(byte, true, "set 7, b", 2, Op::ExtSetBitR8, InstructionData::new().r8_src(R8::B).bit(7))),
        0xF9 => Some(entry(byte, true, "set 7, c", 2, Op::ExtSetBitR8, InstructionData::new().r8_src(R8::C).bit(7))),
        0xFA => Some(entry(byte, true, "set 7, d", 2, Op::ExtSetBitR8, InstructionData::new().r8_src(R8::D).bit(7))),
        0xFB => Some(entry(byte, true, "set 7, e", 2, Op::ExtSetBitR8, InstructionData::new().r8_src(R8::E).bit(7))),
        0xFC => Some(entry(byte, true, "set 7, h", 2, Op::ExtSetBitR8, InstructionData::new().r8_src(R8::H).bit(7))),
        0xFD => Some(entry(byte, true, "set 7, l", 2, Op::ExtSetBitR8, InstructionData::new().r8_src(R8::L).bit(7))),
        0xFE => Some(entry(byte, true, "set 7, (hl)", 4, Op::ExtSetBitIndirR16, InstructionData::new().r16_src(R16::HL).bit(7))),
        0xFF => Some(entry(byte, true, "set 7, a", 2, Op::ExtSetBitR8, InstructionData::new().r8_src(R8::A).bit(7))),
            _ => None,
        }
    }

    fn from_byte_not_prefixed(byte: u8) -> (r: Option<Instruction>)
        ensures
            r is Some <==> !is_hole(byte, false),
            r matches Some(i) ==> i.wf() && i.opcode == byte && !i.prefixed && block_entry(byte, i)
                && column_entry(byte, i) && irregular_entry(byte, i) && i.text == mnemonic(byte),
    {
        if byte <= 0x1F {
            Instruction::unprefixed_00_1f(byte)
        } else if byte <= 0x3F {
            Instruction::unprefixed_20_3f(byte)
        } else if byte <= 0x5F {
            Instruction::unprefixed_40_5f(byte)
        } else if byte <= 0x7F {
            Instruction::unprefixed_60_7f(byte)
        } else if byte <= 0x9F {
            Instruction::unprefixed_80_9f(byte)
        } else if byte <= 0xBF {
            Instruction::unprefixed_a0_bf(byte)
        } else if byte <= 0xDF {
            Instruction::unprefixed_c0_df(byte)
        } else {
            Instruction::unprefixed_e0_ff(byte)
        }
    }

    #[verifier::spinoff_prover]
    fn unprefixed_00_1f(byte: u8) -> (r: Option<Instruction>)
        requires
            0x00 <= byte <= 0x1F,
        ensures
            r is Some <==> !is_hole(byte, false),
            r matches Some(i) ==> i.wf() && i.opcode == byte && !i.prefixed && block_entry(byte, i)
                && column_entry(byte, i) && irregular_entry(byte, i) && i.text == mnemonic(byte),
    {
        match byte {
        0x00 => Some(entry(byte, false, "nop", 1, Op::NoOp, InstructionData::new())),
        0x01 => Some(entry(byte, false, "ld bc, d16", 3, Op::LdR16Imm16, InstructionData::new().r16_dst(R16::BC))),
        0x02 => Some(entry(byte, false, "ld (bc), a", 2, Op::LdIndirR16R8, InstructionData::new().r16_dst(R16::BC).r8_src(R8::A))),
        0x03 => Some(entry(byte, false, "inc bc", 2, Op::IncR16, InstructionData::new().r16_dst(R16::BC))),
        0x04 => Some(entry(byte, false, "inc b", 1, Op::IncR8, InstructionData::new().r8_dst(R8::B))),
        0x05 => Some(entry(byte, false, "dec b", 1, Op::DecR8, InstructionData::new().r8_dst(R8::B))),
        0x06 => Some(entry(byte, false, "ld b, d8", 1, Op::LdR8Imm8, InstructionData::new().r8_dst(R8::B))),
        0x07 => Some(entry(byte, false, "rlca", 1, Op::Rlca, InstructionData::new())),
        0x08 => Some(entry(byte, false, "ld (a16), sp", 5, Op::LdIndirImm16Sp, InstructionData::new())),
        0x09 => Some(entry(byte, false, "add hl, bc", 2, Op::AddR16R16, InstructionData::new().r16_src(R16::BC).r16_dst(R16::HL))),
        0x0A => Some(entry(byte, false, "ld a, (bc)", 2, Op::LdR8IndirR16, InstructionData::new().r8_dst(R8::A).r16_src(R16::BC))),
        0x0B => Some(entry(byte, false, "dec bc", 2, Op::DecR16, InstructionData::new().r16_dst(R16::BC))),
        0x0C => Some(entry(byte, false, "inc c", 1, Op::IncR8, InstructionData::new().r8_dst(R8::C))),
        0x0D => Some(entry(byte, false, "dec c", 1, Op::DecR8, InstructionData::new().r8_dst(R8::C))),
        0x0E => Some(entry(byte, false, "ld c, d8", 1, Op::LdR8Imm8, InstructionData::new().r8_dst(R8::C))),
        0x0F => Some(entry(byte, false, "rrca", 1, Op::Rrca, InstructionData::new())),
        0x10 => Some(entry(byte, false, "stop", 1, Op::Stop, InstructionData::new())),
        0x11 => Some(entry(byte, false, "ld de, d16", 3, Op::LdR16Imm16, InstructionData::new().r16_dst(R16::DE))),
        0x12 => Some(entry(byte, false, "ld (de), a", 2, Op::LdIndirR16R8, InstructionData::new().r16_dst(R16::DE).r8_src(R8::A))),
        0x13 => Some(entry(byte, false, "inc de", 2, Op::IncR16, InstructionData::new().r16_dst(R16::DE))),
        0x14 => Some(entry(byte, false, "inc d", 1, Op::IncR8, InstructionData::new().r8_dst(R8::D))),
        0x15 => Some(entry(byte, false, "dec d", 1, Op::DecR8, InstructionData::new().r8_dst(R8::D))),
        0x16 => Some(entry(byte, false, "ld d, d8", 1, Op::LdR8Imm8, InstructionData::new().r8_dst(R8::D))),
        0x17 => Some(entry(byte, false, "rla", 1, Op::Rla, InstructionData::new())),
        0x18 => Some(entry(byte, false, "jr s8", 3, Op::JumpRelImm8, InstructionData::new().with_flags(0, 0))),
        0x19 => Some(entry(byte, false, "add hl, de", 2, Op::AddR16R16, InstructionData::new().r16_src(R16::DE).r16_dst(R16::HL))),
        0x1A => Some(entry(byte, false, "ld a, (de)", 2, Op::LdR8IndirR16, InstructionData::new().r8_dst(R8::A).r16_src(R16::DE))),
        0x1B => Some(entry(byte, false, "dec de", 2, Op::DecR16, InstructionData::new().r16_dst(R16::DE))),
        0x1C => Some(entry(byte, false, "inc e", 1, Op::IncR8, InstructionData::new().r8_dst(R8::E))),
        0x1D => Some(entry(byte, false, "dec e", 1, Op::DecR8, InstructionData::new().r8_dst(R8::E))),
        0x1E => Some(entry(byte, false, "ld e, d8", 1, Op::LdR8Imm8, InstructionData::new().r8_dst(R8::E))),
        0x1F => Some(entry(byte, false, "rra", 1, Op::Rra, InstructionData::new())),
            _ => None,
        }
    }

    #[verifier::spinoff_prover]
    fn unprefixed_20_3f(byte: u8) -> (r: Option<Instruction>)
        requires
            0x20 <= byte <= 0x3F,
        ensures
            r is Some <==> !is_hole(byte, false),
            r matches Some(i) ==> i.wf() && i.opcode == byte && !i.prefixed && block_entry(byte, i)
                && column_entry(byte, i) && irregular_entry(byte, i) && i.text == mnemonic(byte),
    {
        match byte {
        0x20 => Some(entry(byte, false, "jr nz, s8", 3, Op::JumpRelImm8, InstructionData::new().with_flags(ZERO_FLAG, 0))),
        0x21 => Some(entry(byte, false, "ld hl, d16", 3, Op::LdR16Imm16, InstructionData::new().r16_dst(R16::HL))),
        0x22 => Some(entry(byte, false, "ld (hl+), a", 2, Op::LdiIndirR16R8, InstructionData::new().r8_src(R8::A).r16_dst(R16::HL))),
        0x23 => Some(entry(byte, false, "inc hl", 2, Op::IncR16, InstructionData::new().r16_dst(R16::HL))),
        0x24 => Some(entry(byte, false, "inc h", 1, Op::IncR8, InstructionData::new().r8_dst(R8::H))),
        0x25 => Some(entry(byte, false, "dec h", 1, Op::DecR8, InstructionData::new().r8_dst(R8::H))),
        0x26 => Some(entry(byte, false, "ld h, d8", 1, Op::LdR8Imm8, InstructionData::new().r8_dst(R8::H))),
        0x27 => Some(entry(byte, false, "daa", 1, Op::Daa, InstructionData::new())),
        0x28 => Some(entry(byte, false, "jr z, s8", 3, Op::JumpRelImm8, InstructionData::new().with_flags(ZERO_FLAG, ZERO_FLAG))),
        0x29 => Some(entry(byte, false, "add hl, hl", 2, Op::AddR16R16, InstructionData::new().r16_src(R16::HL).r16_dst(R16::HL))),
        0x2A => Some(entry(byte, false, "ld a, (hl+)", 2, Op::LdiR8IndirR16, InstructionData::new().r16_src(R16::HL).r8_dst(R8::A))),
        0x2B => Some(entry(byte, false, "dec hl", 2, Op::DecR16, InstructionData::new().r16_dst(R16::HL))),
        0x2C => Some(entry(byte, false, "inc l", 1, Op::IncR8, InstructionData::new().r8_dst(R8::L))),
        0x2D => Some(entry(byte, false, "dec l", 1, Op::DecR8, InstructionData::new().r8_dst(R8::L))),
        0x2E => Some(entry(byte, false, "ld l, d8", 1, Op::LdR8Imm8, InstructionData::new().r8_dst(R8::L))),
        0x2F => Some(entry(byte, false, "cpl", 1, Op::Cpl, InstructionData::new())),
        0x30 => Some(entry(byte, false, "jr nc, s8", 3, Op::JumpRelImm8, InstructionData::new().with_flags(CARRY_FLAG, 0))),
        0x31 => Some(entry(byte, false, "ld sp, d16", 3, Op::LdR16Imm16, InstructionData::new().r16_dst(R16::SP))),
        0x32 => Some(entry(byte, false, "ld (hl-), a", 2, Op::LddIndirR16R8, InstructionData::new().r8_src(R8::A).r16_dst(R16::HL))),
        0x33 => Some(entry(byte, false, "inc sp", 2, Op::IncR16, InstructionData::new().r16_dst(R16::SP))),
        0x34 => Some(entry(byte, false, "inc (hl)", 3, Op::IncIndirR16, InstructionData::new().r16_dst(R16::HL))),
        0x35 => Some(entry(byte, false, "dec (hl)", 3, Op::DecIndirR16, InstructionData::new().r16_dst(R16::HL))),
        0x36 => Some(entry(byte, false, "ld (hl), d8", 3, Op::LdIndirR16Imm8, InstructionData::new().r16_dst(R16::HL))),
        0x37 => Some(entry(byte, false, "scf", 1, Op::Scf, InstructionData::new())),
        // Jumps when the carry flag is set.
        0x38 => Some(entry(byte, false, "jr c, s8", 3, Op::JumpRelImm8, InstructionData::new().with_flags(CARRY_FLAG, CARRY_FLAG))),
        0x39 => Some(entry(byte, false, "add hl, sp", 2, Op::AddR16R16, InstructionData::new().r16_src(R16::SP).r16_dst(R16::HL))),
        0x3A => Some(entry(byte, false, "ld a, (hl-)", 2, Op::LddR8IndirR16, InstructionData::new().r16_src(R16::HL).r8_dst(R8::A))),
        0x3B => Some(entry(byte, false, "dec sp", 2, Op::DecR16, InstructionData::new().r16_dst(R16::SP))),
        0x3C => Some(entry(byte, false, "inc a", 1, Op::IncR8, InstructionData::new().r8_dst(R8::A))),
        0x3D => Some(entry(byte, false, "dec a", 1, Op::DecR8, InstructionData::new().r8_dst(R8::A))),
        0x3E => Some(entry(byte, false, "ld a, d8", 1, Op::LdR8Imm8, InstructionData::new().r8_dst(R8::A))),
        0x3F => Some(entry(byte, false, "ccf", 1, Op::Ccf, InstructionData::new())),
            _ => None,
        }
    }

    #[verifier::spinoff_prover]
    fn unprefixed_40_5f(byte: u8) -> (r: Option<Instruction>)
        requires
            0x40 <= byte <= 0x5F,
        ensures
            r is Some <==> !is_hole(byte, false),
            r matches Some(i) ==> i.wf() && i.opcode == byte && !i.prefixed && block_entry(byte, i)
                && column_entry(byte, i) && irregular_entry(byte, i) && i.text == mnemonic(byte),
    {
        match byte {
        0x40 => Some(entry(byte, false, "ld b, b", 1, Op::LdR8R8, InstructionData::new().r8_src(R8::B).r8_dst(R8::B))),
        0x41 => Some(entry(byte, false, "ld b, c", 1, Op::LdR8R8, InstructionData::new().r8_src(R8::C).r8_dst(R8::B))),
        0x42 => Some(entry(byte, false, "ld b, d", 1, Op::LdR8R8, InstructionData::new().r8_src(R8::D).r8_dst(R8::B))),
        0x43 => Some(entry(byte, false, "ld b, e", 1, Op::LdR8R8, InstructionData::new().r8_src(R8::E).r8_dst(R8::B))),
        0x44 => Some(entry(byte, false, "ld b, h", 1, Op::LdR8R8, InstructionData::new().r8_src(R8::H).r8_dst(R8::B))),
        0x45 => Some(entry(byte, false, "ld b, l", 1, Op::LdR8R8, InstructionData::new().r8_src(R8::L).r8_dst(R8::B))),
        0x46 => Some(entry(byte, false, "ld b, (hl)", 2, Op::LdR8IndirR16, InstructionData::new().r16_src(R16::HL).r8_dst(R8::B))),
        0x47 => Some(entry(byte, false, "ld b, a", 1, Op::LdR8R8, InstructionData::new().r8_src(R8::A).r8_dst(R8::B))),
        0x48 => Some(entry(byte, false, "ld c, b", 1, Op::LdR8R8, InstructionData::new().r8_src(R8::B).r8_dst(R8::C))),
        0x49 => Some(entry(byte, false, "ld c, c", 1, Op::LdR8R8, InstructionData::new().r8_src(R8::C).r8_dst(R8::C))),
        0x4A => Some(entry(byte, false, "ld c, d", 1, Op::LdR8R8, InstructionData::new().r8_src(R8::D).r8_dst(R8::C))),
        0x4B => Some(entry(byte, false, "ld c, e", 1, Op::LdR8R8, InstructionData::new().r8_src(R8::E).r8_dst(R8::C))),
        0x4C => Some(entry(byte, false, "ld c, h", 1, Op::LdR8R8, InstructionData::new().r8_src(R8::H).r8_dst(R8::C))),
        0x4D => Some(entry(byte, false, "ld c, l", 1, Op::LdR8R8, InstructionData::new().r8_src(R8::L).r8_dst(R8::C))),
        0x4E => Some(entry(byte, false, "ld c, (hl)", 2, Op::LdR8IndirR16, InstructionData::new().r16_src(R16::HL).r8_dst(R8::C))),
        0x4F => Some(entry(byte, false, "ld c, a", 1, Op::LdR8R8, InstructionData::new().r8_src(R8::A).r8_dst(R8::C))),
        0x50 => Some(entry(byte, false, "ld d, b", 1, Op::LdR8R8, InstructionData::new().r8_src(R8::B).r8_dst(R8::D))),
        0x51 => Some(entry(byte, false, "ld d, c", 1, Op::LdR8R8, InstructionData::new().r8_src(R8::C).r8_dst(R8::D))),
        0x52 => Some(entry(byte, false, "ld d, d", 1, Op::LdR8R8, InstructionData::new().r8_src(R8::D).r8_dst(R8::D))),
        0x53 => Some(entry(byte, false, "ld d, e", 1, Op::LdR8R8, InstructionData::new().r8_src(R8::E).r8_dst(R8::D))),
        0x54 => Some(entry(byte, false, "ld d, h", 1, Op::LdR8R8, InstructionData::new().r8_src(R8::H).r8_dst(R8::D))),
        0x55 => Some(entry(byte, false, "ld d, l", 1, Op::LdR8R8, InstructionData::new().r8_src(R8::L).r8_dst(R8::D))),
        0x56 => Some(entry(byte, false, "ld d, (hl)", 2, Op::LdR8IndirR16, InstructionData::new().r16_src(R16::HL).r8_dst(R8::D))),
        0x57 => Some(entry(byte, false, "ld d, a", 1, Op::LdR8R8, InstructionData::new().r8_src(R8::A).r8_dst(R8::D))),
        0x58 => Some(entry(byte, false, "ld e, b", 1, Op::LdR8R8, InstructionData::new().r8_src(R8::B).r8_dst(R8::E))),
        0x59 => Some(entry(byte, false, "ld e, c", 1, Op::LdR8R8, InstructionData::new().r8_src(R8::C).r8_dst(R8::E))),
        0x5A => Some(entry(byte, false, "ld e, d", 1, Op::LdR8R8, InstructionData::new().r8_src(R8::D).r8_dst(R8::E))),
        0x5B => Some(entry(byte, false, "ld e, e", 1, Op::LdR8R8, InstructionData::new().r8_src(R8::E).r8_dst(R8::E))),
        0x5C => Some(entry(byte, false, "ld e, h", 1, Op::LdR8R8, InstructionData::new().r8_src(R8::H).r8_dst(R8::E))),
        0x5D => Some(entry(byte, false, "ld e, l", 1, Op::LdR8R8, InstructionData::new().r8_src(R8::L).r8_dst(R8::E))),
        0x5E => Some(entry(byte, false, "ld e, (hl)", 2, Op::LdR8IndirR16, InstructionData::new().r16_src(R16::HL).r8_dst(R8::E))),
        0x5F => Some(entry(byte, false, "ld e, a", 1, Op::LdR8R8, InstructionData::new().r8_src(R8::A).r8_dst(R8::E))),
            _ => None,
        }
    }

    #[verifier::spinoff_prover]
    fn unprefixed_60_7f(byte: u8) -> (r: Option<Instruction>)
        requires
            0x60 <= byte <= 0x7F,
        ensures
            r is Some <==> !is_hole(byte, false),
            r matches Some(i) ==> i.wf() && i.opcode == byte && !i.prefixed && block_entry(byte, i)
                && column_entry(byte, i) && irregular_entry(byte, i) && i.text == mnemonic(byte),
    {
        match byte {
        0x60 => Some(entry(byte, false, "ld h, b", 1, Op::LdR8R8, InstructionData::new().r8_src(R8::B).r8_dst(R8::H))),
        0x61 => Some(entry(byte, false, "ld h, c", 1, Op::LdR8R8, InstructionData::new().r8_src(R8::C).r8_dst(R8::H))),
        0x62 => Some(entry(byte, false, "ld h, d", 1, Op::LdR8R8, InstructionData::new().r8_src(R8::D).r8_dst(R8::H))),
        0x63 => Some(entry(byte, false, "ld h, e", 1, Op::LdR8R8, InstructionData::new().r8_src(R8::E).r8_dst(R8::H))),
        0x64 => Some(entry(byte, false, "ld h, h", 1, Op::LdR8R8, InstructionData::new().r8_src(R8::H).r8_dst(R8::H))),
        0x65 => Some(entry(byte, false, "ld h, l", 1, Op::LdR8R8, InstructionData::new().r8_src(R8::L).r8_dst(R8::H))),
        0x66 => Some(entry(byte, false, "ld h, (hl)", 2, Op::LdR8IndirR16, InstructionData::new().r16_src(R16::HL).r8_dst(R8::H))),
        0x67 => Some(entry(byte, false, "ld h, a", 1, Op::LdR8R8, InstructionData::new().r8_src(R8::A).r8_dst(R8::H))),
        0x68 => Some(entry(byte, false, "ld l, b", 1, Op::LdR8R8, InstructionData::new().r8_src(R8::B).r8_dst(R8::L))),
        0x69 => Some(entry(byte, false, "ld l, c", 1, Op::LdR8R8, InstructionData::new().r8_src(R8::C).r8_dst(R8::L))),
        0x6A => Some(entry(byte, false, "ld l, d", 1, Op::LdR8R8, InstructionData::new().r8_src(R8::D).r8_dst(R8::L))),
        0x6B => Some(entry(byte, false, "ld l, e", 1, Op::LdR8R8, InstructionData::new().r8_src(R8::E).r8_dst(R8::L))),
        0x6C => Some(entry(byte, false, "ld l, h", 1, Op::LdR8R8, InstructionData::new().r8_src(R8::H).r8_dst(R8::L))),
        0x6D => Some(entry(byte, false, "ld l, l", 1, Op::LdR8R8, InstructionData::new().r8_src(R8::L).r8_dst(R8::L))),
        0x6E => Some(entry(byte, false, "ld l, (hl)", 2, Op::LdR8IndirR16, InstructionData::new().r16_src(R16::HL).r8_dst(R8::L))),
        0x6F => Some(entry(byte, false, "ld l, a", 1, Op::LdR8R8, InstructionData::new().r8_src(R8::A).r8_dst(R8::L))),
        0x70 => Some(entry(byte, false, "ld (hl) b", 2, Op::LdIndirR16R8, InstructionData::new().r16_dst(R16::HL).r8_src(R8::B))),
        0x71 => Some(entry(byte, false, "ld (hl) c", 2, Op::LdIndirR16R8, InstructionData::new().r16_dst(R16::HL).r8_src(R8::C))),
        0x72 => Some(entry(byte, false, "ld (hl) d", 2, Op::LdIndirR16R8, InstructionData::new().r16_dst(R16::HL).r8_src(R8::D))),
        0x73 => Some(entry(byte, false, "ld (hl) e", 2, Op::LdIndirR16R8, InstructionData::new().r16_dst(R16::HL).r8_src(R8::E))),
        0x74 => Some(entry(byte, false, "ld (hl) h", 2, Op::LdIndirR16R8, InstructionData::new().r16_dst(R16::HL).r8_src(R8::H))),
        0x75 => Some(entry(byte, false, "ld (hl) l", 2, Op::LdIndirR16R8, InstructionData::new().r16_dst(R16::HL).r8_src(R8::L))),
        0x76 => None,
        0x77 => Some(entry(byte, false, "ld (hl) a", 2, Op::LdIndirR16R8, InstructionData::new().r16_dst(R16::HL).r8_src(R8::A))),
        0x78 => Some(entry(byte, false, "ld a b", 1, Op::LdR8R8, InstructionData::new().r8_dst(R8::A).r8_src(R8::B))),
        0x79 => Some(entry(byte, false, "ld a c", 1, Op::LdR8R8, InstructionData::new().r8_dst(R8::A).r8_src(R8::C))),
        0x7A => Some(entry(byte, false, "ld a d", 1, Op::LdR8R8, InstructionData::new().r8_dst(R8::A).r8_src(R8::D))),
        0x7B => Some(entry(byte, false, "ld a e", 1, Op::LdR8R8, InstructionData::new().r8_dst(R8::A).r8_src(R8::E))),
        0x7C => Some(entry(byte, false, "ld a h", 1, Op::LdR8R8, InstructionData::new().r8_dst(R8::A).r8_src(R8::H))),
        0x7D => Some(entry(byte, false, "ld a l", 1, Op::LdR8R8, InstructionData::new().r8_dst(R8::A).r8_src(R8::L))),
        0x7E => Some(entry(byte, false, "ld a (hl)", 2, Op::LdR8IndirR16, InstructionData::new().r8_dst(R8::A).r16_src(R16::HL))),
        0x7F => Some(entry(byte, false, "ld a a", 1, Op::LdR8R8, InstructionData::new().r8_dst(R8::A).r8_src(R8::A))),
            _ => None,
        }
    }

    #[verifier::spinoff_prover]
    fn unprefixed_80_9f(byte: u8) -> (r: Option<Instruction>)
        requires
            0x80 <= byte <= 0x9F,
        ensures
            r is Some <==> !is_hole(byte, false),
            r matches Some(i) ==> i.wf() && i.opcode == byte && !i.prefixed && block_entry(byte, i)
                && column_entry(byte, i) && irregular_entry(byte, i) && i.text == mnemonic(byte),
    {
        match byte {
        0x80 => Some(entry(byte, false, "add a, b", 1, Op::AddR8, InstructionData::new().r8_src(R8::B))),
        0x81 => Some(entry(byte, false, "add a, c", 1, Op::AddR8, InstructionData::new().r8_src(R8::C))),
        0x82 => Some(entry(byte, false, "add a, d", 1, Op::AddR8, InstructionData::new().r8_src(R8::D))),
        0x83 => Some(entry(byte, false, "add a, e", 1, Op::AddR8, InstructionData::new().r8_src(R8::E))),
        0x84 => Some(entry(byte, false, "add a, h", 1, Op::AddR8, InstructionData::new().r8_src(R8::H))),
        0x85 => Some(entry(byte, false, "add a, l", 1, Op::AddR8, InstructionData::new().r8_src(R8::L))),
        0x86 => Some(entry(byte, false, "add a, hl", 2, Op::AddIndirR16, InstructionData::new().r16_src(R16::HL))),
        0x87 => Some(entry(byte, false, "add a, a", 1, Op::AddR8, InstructionData::new().r8_src(R8::A))),
        0x88 => Some(entry(byte, false, "adc a, b", 1, Op::AdcR8, InstructionData::new().r8_src(R8::B))),
        0x89 => Some(entry(byte, false, "adc a, c", 1, Op::AdcR8, InstructionData::new().r8_src(R8::C))),
        0x8A => Some(entry(byte, false, "adc a, d", 1, Op::AdcR8, InstructionData::new().r8_src(R8::D))),
        0x8B => Some(entry(byte, false, "adc a, e", 1, Op::AdcR8, InstructionData::new().r8_src(R8::E))),
        0x8C => Some(entry(byte, false, "adc a, h", 1, Op::AdcR8, InstructionData::new().r8_src(R8::H))),
        0x8D => Some(entry(byte, false, "adc a, l", 1, Op::AdcR8, InstructionData::new().r8_src(R8::L))),
        0x8E => Some(entry(byte, false, "adc a, hl", 2, Op::AdcIndirR16, InstructionData::new().r16_src(R16::HL))),
        0x8F => Some(entry(byte, false, "adc a, a", 1, Op::AdcR8, InstructionData::new().r8_src(R8::A))),
        0x90 => Some(entry(byte, false, "sub a, b", 1, Op::SubR8, InstructionData::new().r8_src(R8::B))),
        0x91 => Some(entry(byte, false, "sub a, c", 1, Op::SubR8, InstructionData::new().r8_src(R8::C))),
        0x92 => Some(entry(byte, false, "sub a, d", 1, Op::SubR8, InstructionData::new().r8_src(R8::D))),
        0x93 => Some(entry(byte, false, "sub a, e", 1, Op::SubR8, InstructionData::new().r8_src(R8::E))),
        0x94 => Some(entry(byte, false, "sub a, h", 1, Op::SubR8, InstructionData::new().r8_src(R8::H))),
        0x95 => Some(entry(byte, false, "sub a, l", 1, Op::SubR8, InstructionData::new().r8_src(R8::L))),
        0x96 => Some(entry(byte, false, "sub a, hl", 2, Op::SubIndirR16, InstructionData::new().r16_src(R16::HL))),
        0x97 => Some(entry(byte, false, "sub a, a", 1, Op::SubR8, InstructionData::new().r8_src(R8::A))),
        0x98 => Some(entry(byte, false, "sbc a, b", 1, Op::SbcR8, InstructionData::new().r8_src(R8::B))),
        0x99 => Some(entry(byte, false, "sbc a, c", 1, Op::SbcR8, InstructionData::new().r8_src(R8::C))),
        0x9A => Some(entry(byte, false, "sbc a, d", 1, Op::SbcR8, InstructionData::new().r8_src(R8::D))),
        0x9B => Some(entry(byte, false, "sbc a, e", 1, Op::SbcR8, InstructionData::new().r8_src(R8::E))),
        0x9C => Some(entry(byte, false, "sbc a, h", 1, Op::SbcR8, InstructionData::new().r8_src(R8::H))),
        0x9D => Some(entry(byte, false, "sbc a, l", 1, Op::SbcR8, InstructionData::new().r8_src(R8::L))),
        0x9E => Some(entry(byte, false, "sbc a, hl", 2, Op::SbcIndirR16, InstructionData::new().r16_src(R16::HL))),
        0x9F => Some(entry(byte, false, "sbc a, a", 1, Op::SbcR8, InstructionData::new().r8_src(R8::A))),
            _ => None,
        }
    }

    #[verifier::spinoff_prover]
    fn unprefixed_a0_bf(byte: u8) -> (r: Option<Instruction>)
        requires
            0xA0 <= byte <= 0xBF,
        ensures
            r is Some <==> !is_hole(byte, false),
            r matches Some(i) ==> i.wf() && i.opcode == byte && !i.prefixed && block_entry(byte, i)
                && column_entry(byte, i) && irregular_entry(byte, i) && i.text == mnemonic(byte),
    {
        match byte {
        0xA0 => Some(entry(byte, false, "and b", 1, Op::AndR8, InstructionData::new().r8_src(R8::B))),
        0xA1 => Some(entry(byte, false, "and c", 1, Op::AndR8, InstructionData::new().r8_src(R8::C))),
        0xA2 => Some(entry(byte, false, "and d", 1, Op::AndR8, InstructionData::new().r8_src(R8::D))),
        0xA3 => Some(entry(byte, false, "and e", 1, Op::AndR8, InstructionData::new().r8_src(R8::E))),
        0xA4 => Some(entry(byte, false, "and h", 1, Op::AndR8, InstructionData::new().r8_src(R8::H))),
        0xA5 => Some(entry(byte, false, "and l", 1, Op::AndR8, InstructionData::new().r8_src(R8::L))),
        0xA6 => Some(entry(byte, false, "and hl", 2, Op::AndIndirR16, InstructionData::new().r16_src(R16::HL))),
        0xA7 => Some(entry(byte, false, "and a", 1, Op::AndR8, InstructionData::new().r8_src(R8::A))),
        0xA8 => Some(entry(byte, false, "xor b", 1, Op::XorR8, InstructionData::new().r8_src(R8::B))),
        0xA9 => Some(entry(byte, false, "xor c", 1, Op::XorR8, InstructionData::new().r8_src(R8::C))),
        0xAA => Some(entry(byte, false, "xor d", 1, Op::XorR8, InstructionData::new().r8_src(R8::D))),
        0xAB => Some(entry(byte, false, "xor e", 1, Op::XorR8, InstructionData::new().r8_src(R8::E))),
        0xAC => Some(entry(byte, false, "xor h", 1, Op::XorR8, InstructionData::new().r8_src(R8::H))),
        0xAD => Some(entry(byte, false, "xor l", 1, Op::XorR8, InstructionData::new().r8_src(R8::L))),
        0xAE => Some(entry(byte, false, "xor hl", 2, Op::XorIndirR16, InstructionData::new().r16_src(R16::HL))),
        0xAF => Some(entry(byte, false, "xor a", 1, Op::XorR8, InstructionData::new().r8_src(R8::A))),
        0xB0 => Some(entry(byte, false, "or b", 1, Op::OrR8, InstructionData::new().r8_src(R8::B))),
        0xB1 => Some(entry(byte, false, "or c", 1, Op::OrR8, InstructionData::new().r8_src(R8::C))),
        0xB2 => Some(entry(byte, false, "or d", 1, Op::OrR8, InstructionData::new().r8_src(R8::D))),
        0xB3 => Some(entry(byte, false, "or e", 1, Op::OrR8, InstructionData::new().r8_src(R8::E))),
        0xB4 => Some(entry(byte, false, "or h", 1, Op::OrR8, InstructionData::new().r8_src(R8::H))),
        0xB5 => Some(entry(byte, false, "or l", 1, Op::OrR8, InstructionData::new().r8_src(R8::L))),
        0xB6 => Some(entry(byte, false, "or hl", 2, Op::OrIndirR16, InstructionData::new().r16_src(R16::HL))),
        0xB7 => Some(entry(byte, false, "or a", 1, Op::OrR8, InstructionData::new().r8_src(R8::A))),
        0xB8 => Some(entry(byte, false, "cp b", 1, Op::CpR8, InstructionData::new().r8_src(R8::B))),
        0xB9 => Some(entry(byte, false, "cp c", 1, Op::CpR8, InstructionData::new().r8_src(R8::C))),
        0xBA => Some(entry(byte, false, "cp d", 1, Op::CpR8, InstructionData::new().r8_src(R8::D))),
        0xBB => Some(entry(byte, false, "cp e", 1, Op::CpR8, InstructionData::new().r8_src(R8::E))),
        0xBC => Some(entry(byte, false, "cp h", 1, Op::CpR8, InstructionData::new().r8_src(R8::H))),
        0xBD => Some(entry(byte, false, "cp l", 1, Op::CpR8, InstructionData::new().r8_src(R8::L))),
        0xBE => Some(entry(byte, false, "cp hl", 2, Op::CpIndirR16, InstructionData::new().r16_src(R16::HL))),
        0xBF => Some(entry(byte, false, "cp a", 1, Op::CpR8, InstructionData::new().r8_src(R8::A))),
            _ => None,
        }
    }

    #[verifier::spinoff_prover]
    fn unprefixed_c0_df(byte: u8) -> (r: Option<Instruction>)
        requires
            0xC0 <= byte <= 0xDF,
        ensures
            r is Some <==> !is_hole(byte, false),
            r matches Some(i) ==> i.wf() && i.opcode == byte && !i.prefixed && block_entry(byte, i)
                && column_entry(byte, i) && irregular_entry(byte, i) && i.text == mnemonic(byte),
    {
        match byte {
        0xC0 => Some(entry(byte, false, "ret nz", 5, Op::RetConditional, InstructionData::new().with_flags(ZERO_FLAG, 0))),
        0xC1 => Some(entry(byte, false, "pop bc", 3, Op::PopR16, InstructionData::new().r16_dst(R16::BC))),
        0xC2 => Some(entry(byte, false, "jp nz, a16", 4, Op::JumpImm16, InstructionData::new().with_flags(ZERO_FLAG, 0))),
        0xC3 => Some(entry(byte, false, "jp a16", 4, Op::JumpImm16, InstructionData::new().with_flags(0, 0))),
        0xC4 => Some(entry(byte, false, "call nz, a16", 6, Op::Call, InstructionData::new().with_flags(ZERO_FLAG, 0))),
        0xC5 => Some(entry(byte, false, "push bc", 4, Op::PushR16, InstructionData::new().r16_src(R16::BC))),
        0xC6 => Some(entry(byte, false, "add a, d8", 2, Op::AddImm8, InstructionData::new())),
        0xC7 => Some(entry(byte, false, "rst 0", 4, Op::RstN, InstructionData::new().rst_code(0x00))),
        0xC8 => Some(entry(byte, false, "ret z", 5, Op::RetConditional, InstructionData::new().with_flags(ZERO_FLAG, ZERO_FLAG))),
        0xC9 => Some(entry(byte, false, "ret", 4, Op::Ret, InstructionData::new())),
        0xCA => Some(entry(byte, false, "jp z, a16", 4, Op::JumpImm16, InstructionData::new().with_flags(ZERO_FLAG, ZERO_FLAG))),
        0xCB => None,
        0xCC => Some(entry(byte, false, "call z, a16", 6, Op::Call, InstructionData::new().with_flags(ZERO_FLAG, ZERO_FLAG))),
        0xCD => Some(entry(byte, false, "call a16", 6, Op::Call, InstructionData::new().with_flags(0, 0))),
        0xCE => Some(entry(byte, false, "adc a, d8", 2, Op::AdcImm8, InstructionData::new())),
        0xCF => Some(entry(byte, false, "rst 1", 4, Op::RstN, InstructionData::new().rst_code(0x08))),
        0xD0 => Some(entry(byte, false, "ret nc", 5, Op::RetConditional, InstructionData::new().with_flags(CARRY_FLAG, 0))),
        0xD1 => Some(entry(byte, false, "pop de", 3, Op::PopR16, InstructionData::new().r16_dst(R16::DE))),
        0xD2 => Some(entry(byte, false, "jp nc, a16", 4, Op::JumpImm16, InstructionData::new().with_flags(CARRY_FLAG, 0))),
        0xD3 => None,
        0xD4 => Some(entry(byte, false, "call nc, a16", 6, Op::Call, InstructionData::new().with_flags(CARRY_FLAG, 0))),
        0xD5 => Some(entry(byte, false, "push de", 4, Op::PushR16, InstructionData::new().r16_src(R16::DE))),
        0xD6 => Some(entry(byte, false, "sub d8", 2, Op::SubImm8, InstructionData::new())),
        0xD7 => Some(entry(byte, false, "rst 2", 4, Op::RstN, InstructionData::new().rst_code(0x10))),
        0xD8 => Some(entry(byte, false, "ret c", 5, Op::RetConditional, InstructionData::new().with_flags(CARRY_FLAG, CARRY_FLAG))),
        0xD9 => Some(entry(byte, false, "reti", 4, Op::Reti, InstructionData::new())),
        0xDA => Some(entry(byte, false, "jp c, a16", 4, Op::JumpImm16, InstructionData::new().with_flags(CARRY_FLAG, CARRY_FLAG))),
        0xDB => None,
        0xDC => Some(entry(byte, false, "call c, a16", 6, Op::Call, InstructionData::new().with_flags(CARRY_FLAG, CARRY_FLAG))),
        0xDD => None,
        0xDE => Some(entry(byte, false, "sbc d8", 2, Op::SbcImm8, InstructionData::new())),
        0xDF => Some(entry(byte, false, "rst 3", 4, Op::RstN, InstructionData::new().rst_code(0x18))),
            _ => None,
        }
    }

    #[verifier::spinoff_prover]
    fn unprefixed_e0_ff(byte: u8) -> (r: Option<Instruction>)
        requires
            0xE0 <= byte <= 0xFF,
        ensures
            r is Some <==> !is_hole(byte, false),
            r matches Some(i) ==> i.wf() && i.opcode == byte && !i.prefixed && block_entry(byte, i)
                && column_entry(byte, i) && irregular_entry(byte, i) && i.text == mnemonic(byte),
    {
        match byte {
        0xE0 => Some(entry(byte, false, "ld (a8) a", 3, Op::LdFf00Imm8R8, InstructionData::new().r8_src(R8::A))),
        0xE1 => Some(entry(byte, false, "pop hl", 3, Op::PopR16, InstructionData::new().r16_dst(R16::HL))),
        0xE2 => Some(entry(byte, false, "ld (c) a", 2, Op::LdFf00IndirR8R8, InstructionData::new().r8_src(R8::A).r8_dst(R8::C))),
        0xE3 => None,
        0xE4 => None,
        0xE5 => Some(entry(byte, false, "push hl", 4, Op::PushR16, InstructionData::new().r16_src(R16::HL))),
        0xE6 => Some(entry(byte, false, "and d8", 2, Op::AndImm8, InstructionData::new())),
        0xE7 => Some(entry(byte, false, "rst 4", 4, Op::RstN, InstructionData::new().rst_code(0x20))),
        0xE8 => Some(entry(byte, false, "add sp, s8", 4, Op::AddSpImm8, InstructionData::new())),
        0xE9 => Some(entry(byte, false, "jp hl", 1, Op::JumpR16, InstructionData::new().r16_src(R16::HL))),
        0xEA => Some(entry(byte, false, "ld (a16), a", 4, Op::LdIndirImm16R8, InstructionData::new().r8_src(R8::A))),
        0xEB => None,
        0xEC => None,
        0xED => None,
        0xEE => Some(entry(byte, false, "xor d8", 2, Op::XorImm8, InstructionData::new())),
        0xEF => Some(entry(byte, false, "rst 5", 4, Op::RstN, InstructionData::new().rst_code(0x28))),
        0xF0 => Some(entry(byte, false, "ld a, (a8)", 3, Op::LdFf00R8Imm8, InstructionData::new().r8_dst(R8::A))),
        0xF1 => Some(entry(byte, false, "pop af", 3, Op::PopR16, InstructionData::new().r16_dst(R16::AF))),
        0xF2 => Some(entry(byte, false, "ld a, (c)", 2, Op::LdFf00R8IndirR8, InstructionData::new().r8_src(R8::C).r8_dst(R8::A))),
        0xF3 => Some(entry(byte, false, "di", 1, Op::Di, InstructionData::new())),
        0xF4 => None,
        0xF5 => Some(entry(byte, false, "push af", 4, Op::PushR16, InstructionData::new().r16_src(R16::AF))),
        0xF6 => Some(entry(byte, false, "or d8", 2, Op::OrImm8, InstructionData::new())),
        0xF7 => Some(entry(byte, false, "rst 6", 4, Op::RstN, InstructionData::new().rst_code(0x30))),
        0xF8 => Some(entry(byte, false, "ld hl, sp+s8", 3, Op::LdHlSpImm8, InstructionData::new())),
        // Copies HL into SP.
        0xF9 => Some(entry(byte, false, "ld sp, hl", 2, Op::LdR16R16, InstructionData::new().r16_src(R16::HL).r16_dst(R16::SP))),
        0xFA => Some(entry(byte, false, "ld a, (a16)", 4, Op::LdR8IndirImm16, InstructionData::new().r8_dst(R8::A))),
        0xFB => Some(entry(byte, false, "ei", 1, Op::Ei, InstructionData::new())),
        0xFC => None,
        0xFD => None,
        0xFE => Some(entry(byte, false, "cp d8", 1, Op::CpImm8, InstructionData::new())),
        0xFF => Some(entry(byte, false, "rst 7", 4, Op::RstN, InstructionData::new().rst_code(0x38))),
            _ => None,
        }
    }

    /// Runs the entry's executor.
    pub fn execute(&self, registers: &mut Registers, memory: &mut Memory)
        requires
            self.wf(),
            old(registers).wf(),
            old(memory)@.wf(),
        ensures
            executes(self.op, self.data, *old(registers), old(memory)@, *final(registers), final(memory)@),
    {
        match self.op {
            Op::NoOp => no_op(registers, memory, &self.data),
            Op::JumpR16 => jump_r16(registers, memory, &self.data),
            Op::JumpImm16 => jump_imm16(registers, memory, &self.data),
            Op::JumpRelImm8 => jump_rel_imm8(registers, memory, &self.data),
            Op::LdR8R8 => ld_r8_r8(registers, memory, &self.data),
            Op::LdR8IndirR16 => ld_r8_indir_r16(registers, memory, &self.data),
            Op::LdR8Imm8 => ld_r8_imm8(registers, memory, &self.data),
            Op::LdR16R16 => ld_r16_r16(registers, memory, &self.data),
            Op::LdR16Imm16 => ld_r16_imm16(registers, memory, &self.data),
            Op::LdIndirR16R8 => ld_indir_r16_r8(registers, memory, &self.data),
            Op::LdiIndirR16R8 => ldi_indir_r16_r8(registers, memory, &self.data),
            Op::LddIndirR16R8 => ldd_indir_r16_r8(registers, memory, &self.data),
            Op::LdIndirR16Imm8 => ld_indir_r16_imm8(registers, memory, &self.data),
            Op::LdIndirImm16Sp => ld_indir_imm16_sp(registers, memory, &self.data),
            Op::LdFf00Imm8R8 => ld_ff00_imm8_r8(registers, memory, &self.data),
            Op::LdFf00R8Imm8 => ld_ff00_r8_imm8(registers, memory, &self.data),
            Op::LdFf00IndirR8R8 => ld_ff00_indir_r8_r8(registers, memory, &self.data),
            Op::LdFf00R8IndirR8 => ld_ff00_r8_indir_r8(registers, memory, &self.data),
            Op::LdIndirImm16R8 => ld_indir_imm16_r8(registers, memory, &self.data),
            Op::LdR8IndirImm16 => ld_r8_indir_imm16(registers, memory, &self.data),
            Op::LdiR8IndirR16 => ldi_r8_indir_r16(registers, memory, &self.data),
            Op::LddR8IndirR16 => ldd_r8_indir_r16(registers, memory, &self.data),
            Op::AddR16R16 => add_r16_r16(registers, memory, &self.data),
            Op::IncR8 => inc_r8(registers, memory, &self.data),
            Op::IncR16 => inc_r16(registers, memory, &self.data),
            Op::IncIndirR16 => inc_indir_r16(registers, memory, &self.data),
            Op::DecR8 => dec_r8(registers, memory, &self.data),
            Op::DecR16 => dec_r16(registers, memory, &self.data),
            Op::DecIndirR16 => dec_indir_r16(registers, memory, &self.data),
            Op::Ret => ret(registers, memory, &self.data),
            Op::RetConditional => ret_conditional(registers, memory, &self.data),
            Op::Reti => reti(registers, memory, &self.data),
            Op::RstN => rst_n(registers, memory, &self.data),
            Op::PushR16 => push_r16(registers, memory, &self.data),
            Op::PopR16 => pop_r16(registers, memory, &self.data),
            Op::Call => call(registers, memory, &self.data),
            Op::Stop => stop(registers, memory, &self.data),
            Op::Rlca => rlca(registers, memory, &self.data),
            Op::Rla => rla(registers, memory, &self.data),
            Op::Rrca => rrca(registers, memory, &self.data),
            Op::Rra => rra(registers, memory, &self.data),
            Op::Cpl => cpl(registers, memory, &self.data),
            Op::Di => di(registers, memory, &self.data),
            Op::Ei => ei(registers, memory, &self.data),
            Op::Scf => scf(registers, memory, &self.data),
            Op::Ccf => ccf(registers, memory, &self.data),
            Op::Daa => daa(registers, memory, &self.data),
            Op::AddSpImm8 => add_sp_imm8(registers, memory, &self.data),
            Op::LdHlSpImm8 => ld_hl_sp_imm8(registers, memory, &self.data),
            Op::ExtBitR8 => ext_bit_r8(registers, memory, &self.data),
            Op::ExtBitIndirR16 => ext_bit_indir_r16(registers, memory, &self.data),
            Op::ExtResBitR8 => ext_res_bit_r8(registers, memory, &self.data),
            Op::ExtResBitIndirR16 => ext_res_bit_indir_r16(registers, memory, &self.data),
            Op::ExtSetBitR8 => ext_set_bit_r8(registers, memory, &self.data),
            Op::ExtSetBitIndirR16 => ext_set_bit_indir_r16(registers, memory, &self.data),
            Op::AndR8 => and_r8(registers, memory, &self.data),
            Op::AndIndirR16 => and_indir_r16(registers, memory, &self.data),
            Op::AndImm8 => and_imm8(registers, memory, &self.data),
            Op::XorR8 => xor_r8(registers, memory, &self.data),
            Op::XorIndirR16 => xor_indir_r16(registers, memory, &self.data),
            Op::XorImm8 => xor_imm8(registers, memory, &self.data),
            Op::OrR8 => or_r8(registers, memory, &self.data),
            Op::OrIndirR16 => or_indir_r16(registers, memory, &self.data),
            Op::OrImm8 => or_imm8(registers, memory, &self.data),
            Op::CpR8 => cp_r8(registers, memory, &self.data),
            Op::CpIndirR16 => cp_indir_r16(registers, memory, &self.data),
            Op::CpImm8 => cp_imm8(registers, memory, &self.data),
            Op::AddR8 => add_r8(registers, memory, &self.data),
            Op::AddIndirR16 => add_indir_r16(registers, memory, &self.data),
            Op::AddImm8 => add_imm8(registers, memory, &self.data),
            Op::AdcR8 => adc_r8(registers, memory, &self.data),
            Op::AdcIndirR16 => adc_indir_r16(registers, memory, &self.data),
            Op::AdcImm8 => adc_imm8(registers, memory, &self.data),
            Op::SubR8 => sub_r8(registers, memory, &self.data),
            Op::SubIndirR16 => sub_indir_r16(registers, memory, &self.data),
            Op::SubImm8 => sub_imm8(registers, memory, &self.data),
            Op::SbcR8 => sbc_r8(registers, memory, &self.data),
            Op::SbcIndirR16 => sbc_indir_r16(registers, memory, &self.data),
            Op::SbcImm8 => sbc_imm8(registers, memory, &self.data),
            Op::ExtRlcR8 => ext_rlc_r8(registers, memory, &self.data),
            Op::ExtRlcIndirR16 => ext_rlc_indir_r16(registers, memory, &self.data),
            Op::ExtRrcR8 => ext_rrc_r8(registers, memory, &self.data),
            Op::ExtRrcIndirR16 => ext_rrc_indir_r16(registers, memory, &self.data),
            Op::ExtRlR8 => ext_rl_r8(registers, memory, &self.data),
            Op::ExtRlIndirR16 => ext_rl_indir_r16(registers, memory, &self.data),
            Op::ExtRrR8 => ext_rr_r8(registers, memory, &self.data),
            Op::ExtRrIndirR16 => ext_rr_indir_r16(registers, memory, &self.data),
            Op::ExtSlaR8 => ext_sla_r8(registers, memory, &self.data),
            Op::ExtSlaIndirR16 => ext_sla_indir_r16(registers, memory, &self.data),
            Op::ExtSraR8 => ext_sra_r8(registers, memory, &self.data),
            Op::ExtSraIndirR16 => ext_sra_indir_r16(registers, memory, &self.data),
            Op::ExtSrlR8 => ext_srl_r8(registers, memory, &self.data),
            Op::ExtSrlIndirR16 => ext_srl_indir_r16(registers, memory, &self.data),
            Op::ExtSwapR8 => ext_swap_r8(registers, memory, &self.data),
            Op::ExtSwapIndirR16 => ext_swap_indir_r16(registers, memory, &self.data),
        }
    }
}

fn entry(
    opcode: u8,
    prefixed: bool,
    text: &'static str,
    cycles: u16,
    op: Op,
    data: InstructionData,
) -> (r: Instruction)
    ensures
        r == (Instruction { opcode, prefixed, op, data, cycles, text }),
{
    Instruction { opcode, prefixed, op, data, cycles, text }
}

} // verus!

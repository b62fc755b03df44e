//! The 8-bit arithmetic, logic, rotate and shift primitives, with the flags
//! each one produces.

use vstd::prelude::*;

verus! {

/// The eight accumulator operations.
#[derive(Clone, Copy, Debug, PartialEq, Eq, Structural)]
pub enum AluOp {
    Add,
    Adc,
    Sub,
    Sbc,
    And,
    Xor,
    Or,
    Cp,
}

/// The rotates and shifts of the extended table.
#[derive(Clone, Copy, Debug, PartialEq, Eq, Structural)]
pub enum ShiftOp {
    Rlc,
    Rrc,
    Rl,
    Rr,
    Sla,
    Sra,
    Srl,
    Swap,
}

/// Result byte and the four flags (Z, N, H, C).
pub struct AluResult {
    pub value: u8,
    pub z: bool,
    pub n: bool,
    pub h: bool,
    pub c: bool,
}

pub open spec fn bit_value(b: bool) -> int {
    if b {
        1
    } else {
        0
    }
}

/// What `op` computes from the accumulator `a`, the operand `b` and the
/// carry flag. Additions and subtractions are taken on whole integers, so the
/// carry and half-carry come from the true sum or difference.
pub open spec fn alu_spec(op: AluOp, a: u8, b: u8, carry: bool) -> AluResult {
    let ci = bit_value(carry);
    match op {
        AluOp::Add => {
            let s = a + b;
            AluResult {
                value: (s % 256) as u8,
                z: s % 256 == 0,
                n: false,
                h: a % 16 + b % 16 > 15,
                c: s > 255,
            }
        },
        AluOp::Adc => {
            let s = a + b + ci;
            AluResult {
                value: (s % 256) as u8,
                z: s % 256 == 0,
                n: false,
                h: a % 16 + b % 16 + ci > 15,
                c: s > 255,
            }
        },
        AluOp::Sub | AluOp::Cp => {
            let d = (a - b + 256) % 256;
            AluResult { value: d as u8, z: d == 0, n: true, h: a % 16 < b % 16, c: a < b }
        },
        AluOp::Sbc => {
            let d = (a - b - ci + 512) % 256;
            AluResult {
                value: d as u8,
                z: d == 0,
                n: true,
                h: a % 16 < b % 16 + ci,
                c: a < b + ci,
            }
        },
        AluOp::And => AluResult { value: a & b, z: a & b == 0, n: false, h: true, c: false },
        AluOp::Xor => AluResult { value: a ^ b, z: a ^ b == 0, n: false, h: false, c: false },
        AluOp::Or => AluResult { value: a | b, z: a | b == 0, n: false, h: false, c: false },
    }
}

/// The byte that `op` leaves and the bit it ejects (the new carry).
pub open spec fn shift_spec(op: ShiftOp, v: u8, carry: bool) -> (u8, bool) {
    let ci: u8 = if carry {
        1
    } else {
        0
    };
    match op {
        ShiftOp::Rlc => ((v << 1u8) | (v >> 7u8), v & 0x80 != 0),
        ShiftOp::Rrc => ((v >> 1u8) | (v << 7u8), v & 1 != 0),
        ShiftOp::Rl => ((v << 1u8) | ci, v & 0x80 != 0),
        ShiftOp::Rr => ((v >> 1u8) | (ci << 7u8), v & 1 != 0),
        ShiftOp::Sla => (v << 1u8, v & 0x80 != 0),
        ShiftOp::Sra => ((v >> 1u8) | (v & 0x80), v & 1 != 0),
        ShiftOp::Srl => (v >> 1u8, v & 1 != 0),
        ShiftOp::Swap => ((v << 4u8) | (v >> 4u8), false),
    }
}

/// Runs `op` on `a` and `b` with the given carry.
pub fn alu(op: AluOp, a: u8, b: u8, carry: bool) -> (r: AluResult)
    ensures
        r == alu_spec(op, a, b, carry),
{
    let ci: u16 = if carry {
        1
    } else {
        0
    };
    match op {
        AluOp::Add | AluOp::Adc => {
            let ci: u16 = if op == AluOp::Adc {
                ci
            } else {
                0
            };
            let s: u16 = a as u16 + b as u16 + ci;
            let value = (s % 256) as u8;
            AluResult {
                value,
                z: value == 0,
                n: false,
                h: (a % 16) as u16 + (b % 16) as u16 + ci > 15,
                c: s > 255,
            }
        },
        AluOp::Sub | AluOp::Sbc | AluOp::Cp => {
            let ci: u16 = if op == AluOp::Sbc {
                ci
            } else {
                0
            };
            let d: u16 = ((a as u16 + 512) - b as u16 - ci) % 256;
            AluResult {
                value: d as u8,
                z: d == 0,
                n: true,
                h: ((a % 16) as u16) < (b % 16) as u16 + ci,
                c: (a as u16) < b as u16 + ci,
            }
        },
        AluOp::And => {
            let value = a & b;
            AluResult { value, z: value == 0, n: false, h: true, c: false }
        },
        AluOp::Xor => {
            let value = a ^ b;
            AluResult { value, z: value == 0, n: false, h: false, c: false }
        },
        AluOp::Or => {
            let value = a | b;
            AluResult { value, z: value == 0, n: false, h: false, c: false }
        },
    }
}

/// Runs the rotate or shift `op` on `v` with the given carry.
pub fn shift(op: ShiftOp, v: u8, carry: bool) -> (r: (u8, bool))
    ensures
        r == shift_spec(op, v, carry),
{
    let ci: u8 = if carry {
        1
    } else {
        0
    };
    match op {
        ShiftOp::Rlc => ((v << 1) | (v >> 7), v & 0x80 != 0),
        ShiftOp::Rrc => ((v >> 1) | (v << 7), v & 1 != 0),
        ShiftOp::Rl => ((v << 1) | ci, v & 0x80 != 0),
        ShiftOp::Rr => ((v >> 1) | (ci << 7), v & 1 != 0),
        ShiftOp::Sla => (v << 1, v & 0x80 != 0),
        ShiftOp::Sra => ((v >> 1) | (v & 0x80), v & 1 != 0),
        ShiftOp::Srl => (v >> 1, v & 1 != 0),
        ShiftOp::Swap => ((v << 4) | (v >> 4), false),
    }
}

/// Swapping the nibbles of a byte twice gives the byte back.
pub proof fn lemma_swap_twice(v: u8)
    ensures
        shift_spec(ShiftOp::Swap, shift_spec(ShiftOp::Swap, v, false).0, false).0 == v,
{
    let w = (v << 4u8) | (v >> 4u8);
    assert((w << 4u8) | (w >> 4u8) == v) by (bit_vector)
        requires
            w == (v << 4u8) | (v >> 4u8),
    ;
}

/// `n` rotations left through the carry, starting from byte `v` and carry `c`.
pub open spec fn rl_iter(v: u8, c: bool, n: nat) -> (u8, bool)
    decreases n,
{
    if n == 0 {
        (v, c)
    } else {
        let (v1, c1) = shift_spec(ShiftOp::Rl, v, c);
        rl_iter(v1, c1, (n - 1) as nat)
    }
}

/// Nine rotations left through the carry bring byte and carry back to where
/// they started: together they form a nine-bit ring.
pub proof fn lemma_rl_nine(v: u8, c: bool)
    ensures
        rl_iter(v, c, 9) == (v, c),
{
    reveal_with_fuel(rl_iter, 10);
    let b = |c: bool| -> u8 { if c { 1u8 } else { 0u8 } };
    let v1 = (v << 1u8) | b(c);
    let c1 = v & 0x80 != 0;
    let v2 = (v1 << 1u8) | b(c1);
    let c2 = v1 & 0x80 != 0;
    let v3 = (v2 << 1u8) | b(c2);
    let c3 = v2 & 0x80 != 0;
    let v4 = (v3 << 1u8) | b(c3);
    let c4 = v3 & 0x80 != 0;
    let v5 = (v4 << 1u8) | b(c4);
    let c5 = v4 & 0x80 != 0;
    let v6 = (v5 << 1u8) | b(c5);
    let c6 = v5 & 0x80 != 0;
    let v7 = (v6 << 1u8) | b(c6);
    let c7 = v6 & 0x80 != 0;
    let v8 = (v7 << 1u8) | b(c7);
    let c8 = v7 & 0x80 != 0;
    let v9 = (v8 << 1u8) | b(c8);
    let c9 = v8 & 0x80 != 0;
    assert(v9 == v && c9 == c) by (bit_vector)
        requires
            v1 == (v << 1u8) | (if c { 1u8 } else { 0u8 }),
            c1 == (v & 0x80 != 0),
            v2 == (v1 << 1u8) | (if c1 { 1u8 } else { 0u8 }),
            c2 == (v1 & 0x80 != 0),
            v3 == (v2 << 1u8) | (if c2 { 1u8 } else { 0u8 }),
            c3 == (v2 & 0x80 != 0),
            v4 == (v3 << 1u8) | (if c3 { 1u8 } else { 0u8 }),
            c4 == (v3 & 0x80 != 0),
            v5 == (v4 << 1u8) | (if c4 { 1u8 } else { 0u8 }),
            c5 == (v4 & 0x80 != 0),
            v6 == (v5 << 1u8) | (if c5 { 1u8 } else { 0u8 }),
            c6 == (v5 & 0x80 != 0),
            v7 == (v6 << 1u8) | (if c6 { 1u8 } else { 0u8 }),
            c7 == (v6 & 0x80 != 0),
            v8 == (v7 << 1u8) | (if c7 { 1u8 } else { 0u8 }),
            c8 == (v7 & 0x80 != 0),
            v9 == (v8 << 1u8) | (if c8 { 1u8 } else { 0u8 }),
            c9 == (v8 & 0x80 != 0),
    ;
}

} // verus!

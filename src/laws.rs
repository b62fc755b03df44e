//! Properties of the instruction semantics that hold for every input.

use vstd::prelude::*;

use crate::instruction_data::InstructionData;
use crate::instructions::{
    and_imm8_spec, and_indir_r16_spec, and_r8_spec, cpl_spec, data_ok, dec_r16_spec, execute_spec,
    inc_r16_spec, pop_r16_spec, sub_r8_spec, taken, with_cycles, xor_r8_spec, Op,
};
use crate::memory::MemoryModel;
use crate::cpu::{entry_ran, fetch_spec, step_spec, CpuError};
use crate::opcodes::{condition, Instruction};
use crate::registers::{lemma_push_pop, Registers, R16, R8};

verus! {

broadcast use crate::registers::lemma_with_flags, crate::registers::lemma_with_af;

/// POP AF clears F's low nibble: AF reads back as the popped word with its
/// low four bits cleared.
pub proof fn lemma_pop_af_masks(d: InstructionData, r: Registers, m: MemoryModel)
    requires
        d.r16_dst == Some(R16::AF),
        m.wf(),
    ensures
        pop_r16_spec(d, r, m).0.af.low & 0x0F == 0,
        pop_r16_spec(d, r, m).0.r16(R16::AF) == m.read16(r.sp) & 0xFFF0,
{
    let v = m.read16(r.sp);
    crate::registers::lemma_pair_round_trip(v & 0xFFF0);
    assert((v & 0xFFF0u16) & 0xFFF0u16 == v & 0xFFF0u16) by (bit_vector);
}

/// INC r16 and DEC r16 leave the flags as they were.
pub proof fn lemma_inc_dec_r16_keep_flags(d: InstructionData, r: Registers, m: MemoryModel)
    requires
        data_ok(Op::IncR16, d),
    ensures
        inc_r16_spec(d, r, m).0.af.low == r.af.low,
        dec_r16_spec(d, r, m).0.af.low == r.af.low,
{
}

/// After any AND: Z says whether A is zero, N = 0, H = 1, C = 0.
pub proof fn lemma_and_flags(d: InstructionData, r: Registers, m: MemoryModel)
    ensures
        ({
            let r1 = and_r8_spec(d, r, m).0;
            r1.zf() == (r1.af.high == 0) && !r1.nf() && r1.hf() && !r1.cf()
        }),
        ({
            let r1 = and_indir_r16_spec(d, r, m).0;
            r1.zf() == (r1.af.high == 0) && !r1.nf() && r1.hf() && !r1.cf()
        }),
        ({
            let r1 = and_imm8_spec(d, r, m).0;
            r1.zf() == (r1.af.high == 0) && !r1.nf() && r1.hf() && !r1.cf()
        }),
{
}

/// XOR A,A and SUB A,A clear A and set Z; N is 0 for XOR and 1 for SUB; H
/// and C are 0.
pub proof fn lemma_clear_a(d: InstructionData, r: Registers, m: MemoryModel)
    requires
        d.r8_src == Some(R8::A),
    ensures
        ({
            let r1 = xor_r8_spec(d, r, m).0;
            r1.af.high == 0 && r1.zf() && !r1.nf() && !r1.hf() && !r1.cf()
        }),
        ({
            let r1 = sub_r8_spec(d, r, m).0;
            r1.af.high == 0 && r1.zf() && r1.nf() && !r1.hf() && !r1.cf()
        }),
{
    let a = r.af.high;
    assert(a ^ a == 0) by (bit_vector);
}

/// The register pairs that PUSH and POP name.
pub open spec fn stack_pair(p: Option<R16>) -> bool {
    p == Some(R16::BC) || p == Some(R16::DE) || p == Some(R16::HL) || p == Some(R16::AF)
}

/// PUSH of a pair followed at once by POP into a pair gives back the pushed
/// word, with F's low nibble cleared when the target is AF, and SP back where
/// it was.
pub proof fn lemma_push_then_pop(
    push: InstructionData,
    pop: InstructionData,
    r: Registers,
    m: MemoryModel,
)
    requires
        stack_pair(push.r16_src),
        stack_pair(pop.r16_dst),
        m.wf(),
    ensures
        ({
            let v = r.r16(push.r16_src.unwrap());
            let (r1, m1) = execute_spec(Op::PushR16, push, r, m);
            let (r2, m2) = execute_spec(Op::PopR16, pop, r1, m1);
            &&& r2.r16(pop.r16_dst.unwrap()) == if pop.r16_dst.unwrap() == R16::AF {
                v & 0xFFF0
            } else {
                v
            }
            &&& r2.sp == r.sp
            &&& m2 == m1
        }),
{
    let v = r.r16(push.r16_src.unwrap());
    assert(r.advance(1).r16(push.r16_src.unwrap()) == v);
    lemma_push_pop(r.advance(1), m, v);
    crate::registers::lemma_pair_round_trip(v);
    crate::registers::lemma_pair_round_trip(v & 0xFFF0);
    assert((v & 0xFFF0u16) & 0xFFF0u16 == v & 0xFFF0u16) by (bit_vector);
}

/// A conditional branch costs its table cost when taken and less when not:
/// the cost reported for a taken branch is at least that of the branch not
/// taken.
pub proof fn lemma_branch_cycles(i: Instruction, r: Registers, m: MemoryModel)
    requires
        i.wf(),
        i.op == Op::JumpImm16 || i.op == Op::JumpRelImm8 || i.op == Op::Call || i.op
            == Op::RetConditional,
    ensures
        ({
            let m1 = execute_spec(i.op, i.data, r, with_cycles(m, i.cycles)).1;
            &&& taken(r, i.data) ==> m1.cycles == i.cycles
            &&& !taken(r, i.data) ==> m1.cycles < i.cycles
        }),
{
    let m0 = with_cycles(m, i.cycles);
    if i.op == Op::Call && taken(r, i.data) {
        let r3 = r.advance(3);
        let sp1 = crate::registers::sub_wrap(r3.sp, 1);
        let sp2 = crate::registers::sub_wrap(r3.sp, 2);
        let hi = (r3.pc >> 8u16) as u8;
        let lo = (r3.pc & 0xFFu16) as u8;
        assert(m0.write8(sp1, hi).cycles == m0.cycles);
        assert(m0.write8(sp1, hi).write8(sp2, lo).cycles == m0.cycles);
    }
}

/// Whether `b` is a conditional JR, JP, CALL or RET.
pub open spec fn is_conditional_branch(b: u8) -> bool {
    let g = (b / 8) % 8;
    let k = b % 8;
    (b / 64 == 0 && k == 0 && g >= 4) || (b / 64 == 3 && (k == 0 || k == 2 || k == 4) && g < 4)
}

/// Whether the condition of conditional branch `b` holds in `r`.
pub open spec fn condition_holds(r: Registers, b: u8) -> bool {
    let cond = condition((((b / 8) % 8) % 4) as u8);
    r.af.low & cond.0 == cond.1
}

/// At the CPU step: a conditional branch whose condition holds reports at
/// least the cost of the same branch whose condition fails.
pub proof fn lemma_step_branch_cycles(
    rt: Registers,
    mt: MemoryModel,
    rt1: Registers,
    mt1: MemoryModel,
    ct: u16,
    rn: Registers,
    mn: MemoryModel,
    rn1: Registers,
    mn1: MemoryModel,
    cn: u16,
)
    requires
        step_spec(rt, mt, rt1, mt1, Ok::<u16, CpuError>(ct)),
        step_spec(rn, mn, rn1, mn1, Ok::<u16, CpuError>(cn)),
        !fetch_spec(mt, rt.pc).0,
        fetch_spec(mt, rt.pc) == fetch_spec(mn, rn.pc),
        is_conditional_branch(fetch_spec(mt, rt.pc).1),
        condition_holds(rt, fetch_spec(mt, rt.pc).1),
        !condition_holds(rn, fetch_spec(mt, rt.pc).1),
    ensures
        ct >= cn,
{
    let b = fetch_spec(mt, rt.pc).1;
    let it = choose|i: Instruction| entry_ran(rt, mt, rt1, mt1, i);
    let iN = choose|i: Instruction| entry_ran(rn, mn, rn1, mn1, i);
    lemma_branch_cycles(it, rt, mt);
    lemma_branch_cycles(iN, rn, mn);
    assert(it.cycles == iN.cycles);
}

/// CPL twice gives back A.
pub proof fn lemma_cpl_twice(d: InstructionData, r: Registers, m: MemoryModel)
    ensures
        cpl_spec(d, cpl_spec(d, r, m).0, m).0.af.high == r.af.high,
{
    let a = r.af.high;
    assert(!(!a) == a) by (bit_vector);
}

} // verus!

//! The operand descriptor of an instruction: which registers, condition,
//! restart vector or bit index its executor reads.

use vstd::prelude::*;

use crate::registers::{R16, R8};

verus! {

/// Operands of one table entry; a field that the executor does not read is `None`.
#[derive(Clone, Copy, Debug, PartialEq, Eq, Structural)]
pub struct InstructionData {
    pub flag_mask: Option<u8>,
    pub flag_expected: Option<u8>,
    pub r8_src: Option<R8>,
    pub r8_dst: Option<R8>,
    pub r16_src: Option<R16>,
    pub r16_dst: Option<R16>,
    pub code: Option<u8>,
    pub bit: Option<u8>,
}

impl InstructionData {
    /// A descriptor with every field unset.
    pub fn new() -> (r: Self)
        ensures
            r == (InstructionData {
                flag_mask: None,
                flag_expected: None,
                r8_src: None,
                r8_dst: None,
                r16_src: None,
                r16_dst: None,
                code: None,
                bit: None,
            }),
    {
        Self {
            flag_mask: None,
            flag_expected: None,
            r8_src: None,
            r8_dst: None,
            r16_src: None,
            r16_dst: None,
            code: None,
            bit: None,
        }
    }

    pub fn r8_src(self, src: R8) -> (r: Self)
        ensures
            r == (InstructionData { r8_src: Some(src), ..self }),
    {
        Self { r8_src: Some(src), ..self }
    }

    pub fn r8_dst(self, dst: R8) -> (r: Self)
        ensures
            r == (InstructionData { r8_dst: Some(dst), ..self }),
    {
        Self { r8_dst: Some(dst), ..self }
    }

    pub fn r16_src(self, src: R16) -> (r: Self)
        ensures
            r == (InstructionData { r16_src: Some(src), ..self }),
    {
        Self { r16_src: Some(src), ..self }
    }

    pub fn r16_dst(self, dst: R16) -> (r: Self)
        ensures
            r == (InstructionData { r16_dst: Some(dst), ..self }),
    {
        Self { r16_dst: Some(dst), ..self }
    }

    /// The branch condition: taken when `F & flag_mask == flag_expected`.
    pub fn with_flags(self, flag_mask: u8, flag_expected: u8) -> (r: Self)
        ensures
            r == (InstructionData {
                flag_mask: Some(flag_mask),
                flag_expected: Some(flag_expected),
                ..self
            }),
    {
        Self { flag_mask: Some(flag_mask), flag_expected: Some(flag_expected), ..self }
    }

    pub fn rst_code(self, code: u8) -> (r: Self)
        ensures
            r == (InstructionData { code: Some(code), ..self }),
    {
        Self { code: Some(code), ..self }
    }

    pub fn bit(self, bit: u8) -> (r: Self)
        ensures
            r == (InstructionData { bit: Some(bit), ..self }),
    {
        Self { bit: Some(bit), ..self }
    }
}

} // verus!

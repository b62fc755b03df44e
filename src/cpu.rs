//! The CPU step: fetch one opcode (two after the extended prefix), look it
//! up, seed the bus with its cost, run it, and report the cycles spent.

use vstd::prelude::*;

use crate::instructions::{executes, with_cycles};
use crate::memory::{Memory, MemoryModel};
use crate::opcodes::{
    block_entry, cb_entry, cb_mnemonic, column_entry, irregular_entry, is_hole, mnemonic, Instruction,
};
use crate::registers::{add_wrap, Registers};

verus! {

/// The byte that marks an opcode of the extended table.
pub const PREFIX: u8 = 0xCB;

/// Why a step could not run.
#[derive(Clone, Copy, Debug, PartialEq, Eq, Structural)]
pub enum CpuError {
    /// No instruction has this opcode.
    UnknownOpcode { pc: u16, opcode: u8, prefixed: bool },
}

impl CpuError {
    /// Where the unknown opcode was met.
    pub fn pc(&self) -> (r: u16)
        ensures
            r == match *self {
                CpuError::UnknownOpcode { pc, .. } => pc,
            },
    {
        match self {
            CpuError::UnknownOpcode { pc, .. } => *pc,
        }
    }
}

/// Whether the opcode at `pc` is extended, and which opcode it is.
pub open spec fn fetch_spec(m: MemoryModel, pc: u16) -> (bool, u8) {
    let first = m.read8(pc);
    if first == PREFIX {
        (true, m.read8(add_wrap(pc, 1)))
    } else {
        (false, first)
    }
}

/// Entry `i` is the table entry for the opcode at `r0.pc`, and running it
/// from bus `m0` seeded with its cost turned `r0`, `m0` into `r1`, `m1`.
pub open spec fn entry_ran(r0: Registers, m0: MemoryModel, r1: Registers, m1: MemoryModel, i: Instruction) -> bool {
    let (prefixed, opcode) = fetch_spec(m0, r0.pc);
    &&& i.wf()
    &&& i.opcode == opcode
    &&& i.prefixed == prefixed
    &&& if prefixed {
        cb_entry(opcode, i) && i.text == cb_mnemonic(opcode)
    } else {
        block_entry(opcode, i) && column_entry(opcode, i) && irregular_entry(opcode, i) && i.text
            == mnemonic(opcode)
    }
    &&& executes(i.op, i.data, r0, with_cycles(m0, i.cycles), r1, m1)
}

/// One step from registers `r0` and bus `m0` ended in `r1`, `m1` with
/// result `res`: an unknown opcode changes nothing and is reported with PC;
/// otherwise some table entry for the fetched opcode ran from a bus seeded
/// with the entry's cost, and the step reports the cost left on the bus.
pub open spec fn step_spec(
    r0: Registers,
    m0: MemoryModel,
    r1: Registers,
    m1: MemoryModel,
    res: Result<u16, CpuError>,
) -> bool {
    let (prefixed, opcode) = fetch_spec(m0, r0.pc);
    if is_hole(opcode, prefixed) {
        &&& res == Err::<u16, CpuError>(CpuError::UnknownOpcode { pc: r0.pc, opcode, prefixed })
        &&& r1 == r0
        &&& m1 == m0
    } else {
        &&& res == Ok::<u16, CpuError>(m1.cycles)
        &&& exists|i: Instruction| #[trigger] entry_ran(r0, m0, r1, m1, i)
    }
}

/// The processor: its register file.
pub struct Cpu {
    pub registers: Registers,
}

impl Cpu {
    /// A processor at reset: every register zero.
    pub fn new() -> (r: Cpu)
        ensures
            r.registers == Registers::new_spec(),
            r.registers.wf(),
    {
        Cpu { registers: Registers::new() }
    }

    /// Runs one instruction and returns its cost in M-cycles.
    pub fn step(&mut self, memory: &mut Memory) -> (r: Result<u16, CpuError>)
        requires
            old(self).registers.wf(),
            old(memory)@.wf(),
        ensures
            step_spec(old(self).registers, old(memory)@, final(self).registers, final(memory)@, r),
            final(self).registers.wf(),
            final(memory)@.wf(),
    {
        let ghost r0 = self.registers;
        let ghost m0 = memory@;
        let pc = self.registers.get_pc();
        let mut opcode = memory.read_u8(pc);
        let prefixed = opcode == PREFIX;
        if prefixed {
            opcode = memory.read_u8(pc.wrapping_add(1));
        }
        match Instruction::from_byte(opcode, prefixed) {
            Some(instruction) => {
                memory.set_cpu_cycles(instruction.cycles);
                instruction.execute(&mut self.registers, memory);
                proof {
                    assert(entry_ran(r0, m0, self.registers, memory@, instruction));
                }
                Ok(memory.cpu_cycles())
            },
            None => Err(CpuError::UnknownOpcode { pc, opcode, prefixed }),
        }
    }
}

} // verus!

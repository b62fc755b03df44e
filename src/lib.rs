//! A handheld-console emulator core: register file, memory bus, instruction
//! table and executors, CPU step and pixel-processing unit, with contracts
//! checked by Verus.

pub mod alu;
pub mod cpu;
pub mod emu;
pub mod gameboy;
pub mod instruction_data;
pub mod instructions;
pub mod laws;
pub mod memory;
pub mod opcodes;
pub mod ppu;
pub mod registers;

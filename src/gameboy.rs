//! The whole machine: CPU, PPU and bus, stepped one instruction at a time.

use vstd::prelude::*;

use crate::cpu::{step_spec, Cpu, CpuError};
use crate::memory::{
    window, zero_bytes, Memory, MemoryModel, RomChunk, BOOT_SIZE, HIGH_RAM_SIZE, RAM_BANK_SIZE,
    ROM_BANK_SIZE,
};
use crate::ppu::{lcd_control_of, ppu_step_spec, Ppu, PpuMode, FRAME_BYTES};
use crate::registers::Registers;

verus! {

pub struct GameBoy {
    pub cpu: Cpu,
    pub ppu: Ppu,
    pub memory: Memory,
}

impl GameBoy {
    pub open spec fn wf(&self) -> bool {
        &&& self.cpu.registers.wf()
        &&& self.memory@.wf()
        &&& self.ppu.wf()
    }

    /// A machine at reset: every register zero, the PPU at the start of a
    /// frame, and the bus built from the given boot image and cartridge as
    /// `Memory::new` builds it.
    pub fn new(boot_rom: RomChunk, cart_rom: RomChunk) -> (r: GameBoy)
        ensures
            r.wf(),
            r.cpu.registers == Registers::new_spec(),
            r.memory@ == (MemoryModel {
                boot: window(boot_rom.view(), 0, BOOT_SIZE as nat),
                cart0: window(cart_rom.view(), 0, ROM_BANK_SIZE as nat),
                cartn: window(cart_rom.view(), ROM_BANK_SIZE as int, ROM_BANK_SIZE as nat),
                vram: zero_bytes(RAM_BANK_SIZE as nat),
                cram: zero_bytes(RAM_BANK_SIZE as nat),
                iram: zero_bytes(RAM_BANK_SIZE as nat),
                hram: zero_bytes(HIGH_RAM_SIZE as nat),
                boot_enabled: true,
                cycles: 0,
            }),
            r.ppu.current_mode == PpuMode::OAM,
            r.ppu.scanline == 0,
            r.ppu.dots_in_mode == 0,
            r.ppu.wx == 0 && r.ppu.wy == 0,
            r.ppu.total_cycles == 0,
            r.ppu.lcd_control == lcd_control_of(0),
    {
        GameBoy { cpu: Cpu::new(), ppu: Ppu::new(), memory: Memory::new(boot_rom, cart_rom) }
    }

    /// Runs one instruction, then the PPU for the cycles it took. Returns
    /// whether a frame was finished, or the CPU's error, in which case
    /// nothing changed.
    pub fn step(&mut self, pixel_buffer: &mut Vec<u8>) -> (r: Result<bool, CpuError>)
        requires
            old(self).wf(),
            old(pixel_buffer)@.len() == FRAME_BYTES,
        ensures
            final(self).wf(),
            final(pixel_buffer)@.len() == FRAME_BYTES,
            r matches Err(e) ==> step_spec(
                old(self).cpu.registers,
                old(self).memory@,
                final(self).cpu.registers,
                final(self).memory@,
                Err(e),
            ) && final(self).ppu == old(self).ppu && final(pixel_buffer)@ == old(pixel_buffer)@,
            r is Ok ==> exists|m: MemoryModel|
                #![trigger m.cycles]
                step_spec(
                    old(self).cpu.registers,
                    old(self).memory@,
                    final(self).cpu.registers,
                    m,
                    Ok(m.cycles),
                ) && ppu_step_spec(
                    old(self).ppu,
                    m,
                    old(pixel_buffer)@,
                    final(self).ppu,
                    final(self).memory@,
                    final(pixel_buffer)@,
                    r->Ok_0,
                ),
    {
        let cycles = self.cpu.step(&mut self.memory);
        match cycles {
            Ok(_) => {
                let ghost m = self.memory@;
                proof {
                    assert(step_spec(
                        old(self).cpu.registers,
                        old(self).memory@,
                        self.cpu.registers,
                        m,
                        Ok(m.cycles),
                    ));
                }
                let ready = self.ppu.step(&mut self.memory, pixel_buffer);
                Ok(ready)
            },
            Err(e) => Err(e),
        }
    }
}

} // verus!

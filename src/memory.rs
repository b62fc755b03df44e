//! The memory bus: address decoding over boot ROM, cartridge banks, video
//! RAM, cartridge RAM, internal RAM (with its echo) and high memory.

use vstd::prelude::*;

verus! {

pub const BOOT_SIZE: usize = 0x100;
pub const ROM_BANK_SIZE: usize = 0x4000;
pub const RAM_BANK_SIZE: usize = 0x2000;
pub const HIGH_RAM_SIZE: usize = 0x200;

pub const END_OF_BOOT: u16 = 0xFF;
pub const END_OF_FIXED_ROM: u16 = 0x3FFF;
pub const START_OF_BANKED_ROM: u16 = 0x4000;
pub const END_OF_BANKED_ROM: u16 = 0x7FFF;
pub const START_OF_VRAM: u16 = 0x8000;
pub const END_OF_VRAM: u16 = 0x9FFF;
pub const START_OF_CARTRIDGE_RAM: u16 = 0xA000;
pub const END_OF_CARTRIDGE_RAM: u16 = 0xBFFF;
pub const START_OF_INTERNAL_RAM: u16 = 0xC000;
pub const END_OF_INTERNAL_RAM: u16 = 0xDFFF;
pub const START_OF_ECHO_RAM: u16 = 0xE000;
pub const END_OF_ECHO_RAM: u16 = 0xFDFF;
pub const START_OF_HIGH_RAM: u16 = 0xFE00;

/// Writing any value here turns the boot overlay off for good.
pub const BOOT_ROM_ADDRESS: u16 = 0xFF50;

/// The bytes of `s` from `start`, `n` of them, with zeros past its end.
pub open spec fn window(s: Seq<u8>, start: int, n: nat) -> Seq<u8> {
    Seq::new(n, |i: int| if start + i < s.len() { s[start + i] } else { 0u8 })
}

/// `n` zero bytes.
pub open spec fn zero_bytes(n: nat) -> Seq<u8> {
    Seq::new(n, |i: int| 0u8)
}

/// The contents of the bus as the CPU sees them.
pub struct MemoryModel {
    pub boot: Seq<u8>,
    pub cart0: Seq<u8>,
    pub cartn: Seq<u8>,
    pub vram: Seq<u8>,
    pub cram: Seq<u8>,
    pub iram: Seq<u8>,
    pub hram: Seq<u8>,
    pub boot_enabled: bool,
    /// M-cycles that the instruction being run costs.
    pub cycles: u16,
}

/// `a + 1`, wrapping at 16 bits.
pub open spec fn next_addr(a: u16) -> u16 {
    ((a + 1) % 0x10000) as u16
}

impl MemoryModel {
    pub open spec fn wf(self) -> bool {
        &&& self.boot.len() == BOOT_SIZE
        &&& self.cart0.len() == ROM_BANK_SIZE
        &&& self.cartn.len() == ROM_BANK_SIZE
        &&& self.vram.len() == RAM_BANK_SIZE
        &&& self.cram.len() == RAM_BANK_SIZE
        &&& self.iram.len() == RAM_BANK_SIZE
        &&& self.hram.len() == HIGH_RAM_SIZE
    }

    /// The byte that a read at `a` returns.
    pub open spec fn read8(self, a: u16) -> u8 {
        if a <= END_OF_FIXED_ROM {
            if self.boot_enabled && a <= END_OF_BOOT {
                self.boot[a as int]
            } else {
                self.cart0[a as int]
            }
        } else if a <= END_OF_BANKED_ROM {
            self.cartn[a - START_OF_BANKED_ROM]
        } else if a <= END_OF_VRAM {
            self.vram[a - START_OF_VRAM]
        } else if a <= END_OF_CARTRIDGE_RAM {
            self.cram[a - START_OF_CARTRIDGE_RAM]
        } else if a <= END_OF_INTERNAL_RAM {
            self.iram[a - START_OF_INTERNAL_RAM]
        } else if a <= END_OF_ECHO_RAM {
            self.iram[a - START_OF_ECHO_RAM]
        } else {
            self.hram[a - START_OF_HIGH_RAM]
        }
    }

    /// The bus after writing `v` at `a`.
    pub open spec fn write8(self, a: u16, v: u8) -> MemoryModel {
        if a <= END_OF_FIXED_ROM {
            if self.boot_enabled && a <= END_OF_BOOT {
                MemoryModel { boot: self.boot.update(a as int, v), ..self }
            } else {
                MemoryModel { cart0: self.cart0.update(a as int, v), ..self }
            }
        } else if a <= END_OF_BANKED_ROM {
            MemoryModel { cartn: self.cartn.update(a - START_OF_BANKED_ROM, v), ..self }
        } else if a <= END_OF_VRAM {
            MemoryModel { vram: self.vram.update(a - START_OF_VRAM, v), ..self }
        } else if a <= END_OF_CARTRIDGE_RAM {
            MemoryModel { cram: self.cram.update(a - START_OF_CARTRIDGE_RAM, v), ..self }
        } else if a <= END_OF_INTERNAL_RAM {
            MemoryModel { iram: self.iram.update(a - START_OF_INTERNAL_RAM, v), ..self }
        } else if a <= END_OF_ECHO_RAM {
            MemoryModel { iram: self.iram.update(a - START_OF_ECHO_RAM, v), ..self }
        } else {
            MemoryModel {
                hram: self.hram.update(a - START_OF_HIGH_RAM, v),
                boot_enabled: self.boot_enabled && a != BOOT_ROM_ADDRESS,
                ..self
            }
        }
    }

    /// The little-endian 16-bit value at `a` and `a + 1`.
    pub open spec fn read16(self, a: u16) -> u16 {
        ((self.read8(next_addr(a)) as u16) << 8u16) | (self.read8(a) as u16)
    }

    /// The bus after writing the high byte of `v` at `a + 1`, then its low byte at `a`.
    pub open spec fn write16(self, a: u16, v: u16) -> MemoryModel {
        self.write8(next_addr(a), (v >> 8u16) as u8).write8(a, (v & 0xFFu16) as u8)
    }
}

/// The internal RAM offset that `a` reaches, directly or through its echo.
pub open spec fn iram_offset(a: u16) -> int {
    if START_OF_INTERNAL_RAM <= a <= END_OF_INTERNAL_RAM {
        a - START_OF_INTERNAL_RAM
    } else if START_OF_ECHO_RAM <= a <= END_OF_ECHO_RAM {
        a - START_OF_ECHO_RAM
    } else {
        -1
    }
}

/// A read at `b` after a write of `v` at `a`: the value written where `b`
/// reaches the same cell, cartridge bank 0 under the overlay once the write
/// turned it off, and the earlier contents elsewhere.
pub proof fn lemma_read_after_write(m: MemoryModel, a: u16, v: u8, b: u16)
    requires
        m.wf(),
    ensures
        m.write8(a, v).wf(),
        m.write8(a, v).read8(b) == if b == a || (iram_offset(a) >= 0 && iram_offset(a)
            == iram_offset(b)) {
            v
        } else if a == BOOT_ROM_ADDRESS && m.boot_enabled && b <= END_OF_BOOT {
            m.cart0[b as int]
        } else {
            m.read8(b)
        },
{
}

/// Little-endianness: after a 16-bit write of `v` at `a`, the byte at `a` is
/// the low byte of `v` and the byte at `a + 1` its high byte.
pub proof fn lemma_write16_little_endian(m: MemoryModel, a: u16, v: u16)
    requires
        m.wf(),
    ensures
        m.write16(a, v).read8(a) == v & 0xFF,
        m.write16(a, v).read8(next_addr(a)) == v >> 8,
        m.write16(a, v).read16(a) == v,
{
    let hi = (v >> 8u16) as u8;
    let lo = (v & 0xFFu16) as u8;
    let m1 = m.write8(next_addr(a), hi);
    lemma_read_after_write(m, next_addr(a), hi, next_addr(a));
    lemma_read_after_write(m1, a, lo, a);
    lemma_read_after_write(m1, a, lo, next_addr(a));
    assert(v >> 8u16 == (v >> 8u16) as u8 as u16) by (bit_vector);
    assert(v & 0xFFu16 == (v & 0xFFu16) as u8 as u16) by (bit_vector);
    assert(((((v >> 8u16) as u8) as u16) << 8u16) | (((v & 0xFFu16) as u8) as u16) == v)
        by (bit_vector);
}

/// The boot overlay: while the latch is set the low 256 addresses read the
/// boot image; a write to the latch address makes them read cartridge bank 0;
/// and no write sets the latch again.
pub proof fn lemma_boot_overlay(m: MemoryModel, k: u16, v: u8, a: u16, w: u8)
    requires
        m.wf(),
        k <= END_OF_BOOT,
    ensures
        m.boot_enabled ==> m.read8(k) == m.boot[k as int],
        m.write8(BOOT_ROM_ADDRESS, v).read8(k) == m.cart0[k as int],
        !m.write8(BOOT_ROM_ADDRESS, v).boot_enabled,
        !m.boot_enabled ==> !m.write8(a, w).boot_enabled,
{
}

/// A read-only image: the boot ROM or a cartridge.
pub struct RomChunk {
    bytes: Vec<u8>,
}

/// A block of RAM.
pub struct RamChunk {
    bytes: Vec<u8>,
}

/// `n` zero bytes.
fn zeros(n: usize) -> (r: Vec<u8>)
    ensures
        r@ == zero_bytes(n as nat),
{
    let mut v: Vec<u8> = Vec::with_capacity(n);
    let mut i: usize = 0;
    while i < n
        invariant
            i <= n,
            v@ == zero_bytes(i as nat),
        decreases n - i,
    {
        v.push(0);
        i = i + 1;
        proof {
            assert(v@ =~= zero_bytes(i as nat));
        }
    }
    v
}

/// The `n` bytes of `src` from `start`, with zeros past its end.
fn copy_window(src: &Vec<u8>, start: usize, n: usize) -> (r: Vec<u8>)
    requires
        start + n <= usize::MAX,
    ensures
        r@ == window(src@, start as int, n as nat),
{
    let mut v: Vec<u8> = Vec::with_capacity(n);
    let mut i: usize = 0;
    while i < n
        invariant
            i <= n,
            start + n <= usize::MAX,
            v@ == window(src@, start as int, i as nat),
        decreases n - i,
    {
        let b: u8 = if start + i < src.len() {
            src[start + i]
        } else {
            0
        };
        v.push(b);
        i = i + 1;
        proof {
            assert(v@ =~= window(src@, start as int, i as nat));
        }
    }
    v
}

impl RomChunk {
    pub closed spec fn view(&self) -> Seq<u8> {
        self.bytes@
    }

    /// The given image, or a blank two-bank cartridge when there is none.
    pub fn new(contents: Option<Vec<u8>>) -> (r: RomChunk)
        ensures
            r.view() == match contents {
                Some(b) => b@,
                None => zero_bytes(2 * ROM_BANK_SIZE as nat),
            },
    {
        match contents {
            Some(bytes) => RomChunk { bytes },
            None => RomChunk { bytes: zeros(2 * ROM_BANK_SIZE) },
        }
    }

    pub fn len(&self) -> (r: usize)
        ensures
            r == self.view().len(),
    {
        self.bytes.len()
    }

    /// The `n` bytes from `start`, zero past the image's end.
    fn window(&self, start: usize, n: usize) -> (r: RomChunk)
        requires
            start + n <= usize::MAX,
        ensures
            r.view() == window(self.view(), start as int, n as nat),
    {
        RomChunk { bytes: copy_window(&self.bytes, start, n) }
    }

    fn read_u8(&self, address: u16) -> (r: u8)
        requires
            address < self.view().len(),
        ensures
            r == self.view()[address as int],
    {
        self.bytes[address as usize]
    }

    fn write_u8(&mut self, address: u16, value: u8)
        requires
            address < old(self).view().len(),
        ensures
            final(self).view() == old(self).view().update(address as int, value),
    {
        self.bytes.set(address as usize, value);
    }
}

impl RamChunk {
    pub closed spec fn view(&self) -> Seq<u8> {
        self.bytes@
    }

    /// `size` zero bytes.
    pub fn new(size: usize) -> (r: RamChunk)
        ensures
            r.view() == zero_bytes(size as nat),
    {
        RamChunk { bytes: zeros(size) }
    }

    fn read_u8(&self, address: u16) -> (r: u8)
        requires
            address < self.view().len(),
        ensures
            r == self.view()[address as int],
    {
        self.bytes[address as usize]
    }

    fn write_u8(&mut self, address: u16, value: u8)
        requires
            address < old(self).view().len(),
        ensures
            final(self).view() == old(self).view().update(address as int, value),
    {
        self.bytes.set(address as usize, value);
    }
}

/// The memory bus, with the cycle count of the instruction being run.
pub struct Memory {
    boot: RomChunk,
    cart_bank_0: RomChunk,
    cart_bank_n: RomChunk,
    cart_ram: RamChunk,
    vram: RamChunk,
    iram: RamChunk,
    high_ram: RamChunk,
    boot_enabled: bool,
    cpu_cycles: u16,
}

impl View for Memory {
    type V = MemoryModel;

    closed spec fn view(&self) -> MemoryModel {
        MemoryModel {
            boot: self.boot.view(),
            cart0: self.cart_bank_0.view(),
            cartn: self.cart_bank_n.view(),
            vram: self.vram.view(),
            cram: self.cart_ram.view(),
            iram: self.iram.view(),
            hram: self.high_ram.view(),
            boot_enabled: self.boot_enabled,
            cycles: self.cpu_cycles,
        }
    }
}

impl Memory {
    /// The bus at reset: the boot overlay on, the first 256 bytes of `boot`
    /// over the first two 16 KiB banks of `cart` (zero-filled where an image
    /// is shorter), all RAM zero.
    pub fn new(boot: RomChunk, cart: RomChunk) -> (r: Memory)
        ensures
            r@ == (MemoryModel {
                boot: window(boot.view(), 0, BOOT_SIZE as nat),
                cart0: window(cart.view(), 0, ROM_BANK_SIZE as nat),
                cartn: window(cart.view(), ROM_BANK_SIZE as int, ROM_BANK_SIZE as nat),
                vram: zero_bytes(RAM_BANK_SIZE as nat),
                cram: zero_bytes(RAM_BANK_SIZE as nat),
                iram: zero_bytes(RAM_BANK_SIZE as nat),
                hram: zero_bytes(HIGH_RAM_SIZE as nat),
                boot_enabled: true,
                cycles: 0,
            }),
            r@.wf(),
    {
        Memory {
            boot: boot.window(0, BOOT_SIZE),
            cart_bank_0: cart.window(0, ROM_BANK_SIZE),
            cart_bank_n: cart.window(ROM_BANK_SIZE, ROM_BANK_SIZE),
            cart_ram: RamChunk::new(RAM_BANK_SIZE),
            vram: RamChunk::new(RAM_BANK_SIZE),
            iram: RamChunk::new(RAM_BANK_SIZE),
            high_ram: RamChunk::new(HIGH_RAM_SIZE),
            boot_enabled: true,
            cpu_cycles: 0,
        }
    }

    /// The M-cycle count of the instruction being run.
    pub fn cpu_cycles(&self) -> (r: u16)
        ensures
            r == self@.cycles,
    {
        self.cpu_cycles
    }

    pub fn set_cpu_cycles(&mut self, cycles: u16)
        ensures
            final(self)@ == (MemoryModel { cycles, ..old(self)@ }),
    {
        self.cpu_cycles = cycles;
    }

    pub fn read_u8(&self, address: u16) -> (r: u8)
        requires
            self@.wf(),
        ensures
            r == self@.read8(address),
    {
        if address <= END_OF_FIXED_ROM {
            if self.boot_enabled && address <= END_OF_BOOT {
                self.boot.read_u8(address)
            } else {
                self.cart_bank_0.read_u8(address)
            }
        } else if address <= END_OF_BANKED_ROM {
            self.cart_bank_n.read_u8(address - START_OF_BANKED_ROM)
        } else if address <= END_OF_VRAM {
            self.vram.read_u8(address - START_OF_VRAM)
        } else if address <= END_OF_CARTRIDGE_RAM {
            self.cart_ram.read_u8(address - START_OF_CARTRIDGE_RAM)
        } else if address <= END_OF_INTERNAL_RAM {
            self.iram.read_u8(address - START_OF_INTERNAL_RAM)
        } else if address <= END_OF_ECHO_RAM {
            self.iram.read_u8(address - START_OF_ECHO_RAM)
        } else {
            self.high_ram.read_u8(address - START_OF_HIGH_RAM)
        }
    }

    /// Little-endian: the byte at `address` is the low one.
    pub fn read_u16(&self, address: u16) -> (r: u16)
        requires
            self@.wf(),
        ensures
            r == self@.read16(address),
    {
        (self.read_u8(address.wrapping_add(1)) as u16) << 8 | self.read_u8(address) as u16
    }

    pub fn write_u8(&mut self, address: u16, value: u8)
        requires
            old(self)@.wf(),
        ensures
            final(self)@ == old(self)@.write8(address, value),
            final(self)@.wf(),
    {
        if address <= END_OF_FIXED_ROM {
            if self.boot_enabled && address <= END_OF_BOOT {
                self.boot.write_u8(address, value);
            } else {
                self.cart_bank_0.write_u8(address, value);
            }
        } else if address <= END_OF_BANKED_ROM {
            self.cart_bank_n.write_u8(address - START_OF_BANKED_ROM, value);
        } else if address <= END_OF_VRAM {
            self.vram.write_u8(address - START_OF_VRAM, value);
        } else if address <= END_OF_CARTRIDGE_RAM {
            self.cart_ram.write_u8(address - START_OF_CARTRIDGE_RAM, value);
        } else if address <= END_OF_INTERNAL_RAM {
            self.iram.write_u8(address - START_OF_INTERNAL_RAM, value);
        } else if address <= END_OF_ECHO_RAM {
            self.iram.write_u8(address - START_OF_ECHO_RAM, value);
        } else {
            self.write_high_mem(address, value);
        }
    }

    /// Writes the high byte at `address + 1`, then the low byte at `address`.
    pub fn write_u16(&mut self, address: u16, value: u16)
        requires
            old(self)@.wf(),
        ensures
            final(self)@ == old(self)@.write16(address, value),
            final(self)@.wf(),
    {
        let lower = value & 0xFF;
        let upper = value >> 8;
        self.write_u8(address.wrapping_add(1), upper as u8);
        self.write_u8(address, lower as u8);
    }

    /// Stores `value` in high memory at `address`, with no other effect.
    pub fn write_special_regsiter(&mut self, address: u16, value: u8)
        requires
            old(self)@.wf(),
            address > END_OF_ECHO_RAM,
        ensures
            final(self)@ == (MemoryModel {
                hram: old(self)@.hram.update(address - START_OF_HIGH_RAM, value),
                ..old(self)@
            }),
            final(self)@.wf(),
    {
        self.high_ram.write_u8(address - START_OF_HIGH_RAM, value);
    }

    fn write_high_mem(&mut self, address: u16, value: u8)
        requires
            old(self)@.wf(),
            address > END_OF_ECHO_RAM,
        ensures
            final(self)@ == old(self)@.write8(address, value),
    {
        if address == BOOT_ROM_ADDRESS {
            self.boot_enabled = false;
        }
        self.high_ram.write_u8(address - START_OF_HIGH_RAM, value);
    }
}

} // verus!

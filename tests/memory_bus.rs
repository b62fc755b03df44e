use rust_boi::alu::{alu, shift, AluOp, ShiftOp};
use rust_boi::instruction_data::InstructionData;
use rust_boi::memory::{Memory, RamChunk, RomChunk};
use rust_boi::opcodes::Instruction;
use rust_boi::registers::{Registers, R16, R8};

fn bus() -> Memory {
    let boot: Vec<u8> = (0..256).map(|i| (255 - i) as u8).collect();
    let cart: Vec<u8> = (0..0x8000).map(|i| (i % 251) as u8).collect();
    Memory::new(RomChunk::new(Some(boot)), RomChunk::new(Some(cart)))
}

#[test]
fn write16_is_little_endian() {
    let mut memory = bus();
    for &address in &[0xC000u16, 0x8123, 0xFF80, 0xFF4F, 0xFFFF] {
        memory.write_u16(address, 0xBEEF);
        assert_eq!(memory.read_u8(address), 0xEF);
        assert_eq!(memory.read_u8(address.wrapping_add(1)), 0xBE);
        assert_eq!(memory.read_u16(address), 0xBEEF);
    }
}

#[test]
fn boot_overlay_until_latch_written() {
    let mut memory = bus();
    for k in 0..256u16 {
        assert_eq!(memory.read_u8(k), (255 - k) as u8);
    }
    assert_eq!(memory.read_u8(0x100), (0x100 % 251) as u8);
    memory.write_u8(0xFF50, 0);
    for k in 0..256u16 {
        assert_eq!(memory.read_u8(k), (k % 251) as u8);
    }
    memory.write_u8(0xFF50, 1);
    memory.write_u8(0x0005, 0x42);
    assert_eq!(memory.read_u8(0x0005), 0x42);
    assert_eq!(memory.read_u8(0x0006), 6);
}

#[test]
fn echo_ram_mirrors_internal_ram() {
    let mut memory = bus();
    memory.write_u8(0xC123, 0x99);
    assert_eq!(memory.read_u8(0xE123), 0x99);
    memory.write_u8(0xFDFF, 0x11);
    assert_eq!(memory.read_u8(0xDDFF), 0x11);
}

#[test]
fn short_images_are_zero_filled() {
    let memory = Memory::new(RomChunk::new(Some(vec![1, 2, 3])), RomChunk::new(None));
    assert_eq!(memory.read_u8(0x0002), 3);
    assert_eq!(memory.read_u8(0x0003), 0);
    assert_eq!(memory.read_u8(0x7FFF), 0);
    assert_eq!(RomChunk::new(None).len(), 0x8000);
    let _ram = RamChunk::new(16);
}

#[test]
fn special_register_write_lands_in_high_memory() {
    let mut memory = bus();
    memory.write_special_regsiter(0xFF44, 0x90);
    assert_eq!(memory.read_u8(0xFF44), 0x90);
    assert_eq!(memory.cpu_cycles(), 0);
    memory.set_cpu_cycles(4);
    assert_eq!(memory.cpu_cycles(), 4);
}

#[test]
fn stack_helpers() {
    let mut memory = bus();
    let mut registers = Registers::new();
    registers.write_r16(R16::SP, 0xD000);
    registers.stack_push16(0xABCD, &mut memory);
    assert_eq!(registers.read_r16(R16::SP), 0xCFFE);
    assert_eq!(memory.read_u8(0xCFFE), 0xCD);
    assert_eq!(memory.read_u8(0xCFFF), 0xAB);
    assert_eq!(registers.stack_peek16(&memory), 0xABCD);
    assert_eq!(registers.stack_pop16(&mut memory), 0xABCD);
    assert_eq!(registers.read_r16(R16::SP), 0xD000);
}

#[test]
fn register_pairs_and_f_mask() {
    let mut registers = Registers::default();
    registers.write_r16(R16::BC, 0x1234);
    assert_eq!(registers.read_r8(R8::B), 0x12);
    assert_eq!(registers.read_r8(R8::C), 0x34);
    registers.write_r8(R8::F, 0xFF);
    assert_eq!(registers.get_flags(), 0xF0);
    registers.write_r16(R16::AF, 0xFFFF);
    assert_eq!(registers.read_r16(R16::AF), 0xFFF0);
    registers.set_flags(Some(false), None, Some(false), None);
    assert_eq!(registers.get_flags(), 0x50);
    registers.inc_pc(0xFFFF);
    registers.inc_pc(2);
    assert_eq!(registers.get_pc(), 1);
    assert_eq!(Registers::set_bit_flag(0x00, 0x80, true), 0x80);
    assert_eq!(Registers::set_bit_flag(0xF0, 0x10, false), 0xE0);
}

#[test]
fn alu_formulas() {
    let r = alu(AluOp::Add, 0x3A, 0xC6, false);
    assert_eq!((r.value, r.z, r.n, r.h, r.c), (0x00, true, false, true, true));
    let r = alu(AluOp::Sub, 0x3E, 0x3E, false);
    assert_eq!((r.value, r.z, r.n, r.h, r.c), (0x00, true, true, false, false));
    let r = alu(AluOp::Cp, 0x3E, 0x40, false);
    assert_eq!((r.value, r.z, r.n, r.h, r.c), (0xFE, false, true, false, true));
    let r = alu(AluOp::Sbc, 0x00, 0xFF, true);
    assert_eq!((r.value, r.z, r.n, r.h, r.c), (0x00, true, true, true, true));
    let r = alu(AluOp::Or, 0x0F, 0xF0, false);
    assert_eq!((r.value, r.z, r.h, r.c), (0xFF, false, false, false));
    assert_eq!(shift(ShiftOp::Sra, 0x81, false), (0xC0, true));
    assert_eq!(shift(ShiftOp::Srl, 0x81, false), (0x40, true));
    assert_eq!(shift(ShiftOp::Rrc, 0x01, false), (0x80, true));
    assert_eq!(shift(ShiftOp::Swap, 0xAB, true), (0xBA, false));
}

#[test]
fn table_holes_and_entries() {
    let holes = [0x76u8, 0xCB, 0xD3, 0xDB, 0xDD, 0xE3, 0xE4, 0xEB, 0xEC, 0xED, 0xF4, 0xFC, 0xFD];
    for b in 0..=255u8 {
        assert_eq!(Instruction::from_byte(b, false).is_none(), holes.contains(&b));
        assert!(Instruction::from_byte(b, true).is_some());
    }
    let i = Instruction::from_byte(0xC3, false).unwrap();
    assert_eq!((i.opcode, i.cycles, i.text), (0xC3, 4, "jp a16"));
    let i = Instruction::from_byte(0x46, true).unwrap();
    assert_eq!((i.cycles, i.text), (3, "bit 0, (hl)"));
    assert_eq!(i.data, InstructionData::new().r16_src(R16::HL).bit(0));
    let d = InstructionData::new().r8_src(R8::A).r8_dst(R8::B).with_flags(0x80, 0).rst_code(0x38).r16_dst(R16::SP);
    assert_eq!(d.flag_mask, Some(0x80));
    assert_eq!(d.code, Some(0x38));
    assert_eq!(d.r16_dst, Some(R16::SP));
}

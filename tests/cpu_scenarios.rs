use rust_boi::cpu::{Cpu, CpuError};
use rust_boi::memory::{Memory, RomChunk};
use rust_boi::registers::{R16, R8};

fn machine(program: &[u8]) -> (Cpu, Memory) {
    let mut cart = vec![0u8; 0x8000];
    cart[..program.len()].copy_from_slice(program);
    let mut memory = Memory::new(RomChunk::new(Some(vec![0xAA; 256])), RomChunk::new(Some(cart)));
    memory.write_u8(0xFF50, 1);
    (Cpu::new(), memory)
}

fn run(cpu: &mut Cpu, memory: &mut Memory, steps: usize) -> Vec<u16> {
    (0..steps).map(|_| cpu.step(memory).unwrap()).collect()
}

fn flags(cpu: &Cpu) -> (bool, bool, bool, bool) {
    let f = cpu.registers.read_r8(R8::F);
    (f & 0x80 != 0, f & 0x40 != 0, f & 0x20 != 0, f & 0x10 != 0)
}

#[test]
fn nop_after_reset() {
    let (mut cpu, mut memory) = machine(&[0x00]);
    assert_eq!(cpu.registers.get_pc(), 0);
    let before = cpu.registers.get_flags();
    let cycles = cpu.step(&mut memory).unwrap();
    assert_eq!(cycles, 1);
    assert_eq!(cpu.registers.get_pc(), 1);
    assert_eq!(cpu.registers.get_flags(), before);
}

#[test]
fn load_load_add() {
    let (mut cpu, mut memory) = machine(&[0x3E, 0x10, 0x06, 0x20, 0x80]);
    let cycles = run(&mut cpu, &mut memory, 3);
    assert_eq!(cpu.registers.read_r8(R8::A), 0x30);
    assert_eq!(flags(&cpu), (false, false, false, false));
    assert_eq!(cycles, vec![1, 1, 1]);
    assert_eq!(cpu.registers.read_r8(R8::B), 0x20);
    assert_eq!(cpu.registers.get_pc(), 5);
}

#[test]
fn inc_a_half_carry_and_wrap() {
    let mut program = vec![0x3E, 0x0F];
    program.extend(std::iter::repeat(0x3C).take(256 - 0x0F));
    let (mut cpu, mut memory) = machine(&program);
    run(&mut cpu, &mut memory, 1);
    let cycles = cpu.step(&mut memory).unwrap();
    assert_eq!(cycles, 1);
    assert_eq!(cpu.registers.read_r8(R8::A), 0x10);
    assert_eq!(flags(&cpu), (false, false, true, false));
    loop {
        cpu.step(&mut memory).unwrap();
        if cpu.registers.read_r8(R8::A) == 0 {
            break;
        }
    }
    let (z, n, h, _) = flags(&cpu);
    assert!(z && !n && h);
}

#[test]
fn store_and_load_through_hl() {
    let (mut cpu, mut memory) = machine(&[0x21, 0x00, 0x80, 0x36, 0xA5, 0x46]);
    run(&mut cpu, &mut memory, 3);
    assert_eq!(cpu.registers.read_r8(R8::B), 0xA5);
    assert_eq!(memory.read_u8(0x8000), 0xA5);
}

#[test]
fn push_bc_pop_de() {
    let (mut cpu, mut memory) = machine(&[0x31, 0xFE, 0xFF, 0x01, 0x34, 0x12, 0xC5, 0xD1]);
    let cycles = run(&mut cpu, &mut memory, 4);
    assert_eq!(cpu.registers.read_r16(R16::DE), 0x1234);
    assert_eq!(cpu.registers.read_r16(R16::SP), 0xFFFE);
    assert_eq!(cycles, vec![3, 3, 4, 3]);
}

#[test]
fn jr_nz_taken_and_not_taken() {
    let (mut cpu, mut memory) = machine(&[0x20, 0x05]);
    cpu.registers.set_flags(Some(false), None, None, None);
    assert_eq!(cpu.step(&mut memory).unwrap(), 3);
    assert_eq!(cpu.registers.get_pc(), 7);

    let (mut cpu, mut memory) = machine(&[0x20, 0x05]);
    cpu.registers.set_flags(Some(true), None, None, None);
    assert_eq!(cpu.step(&mut memory).unwrap(), 2);
    assert_eq!(cpu.registers.get_pc(), 2);
}

#[test]
fn jr_backwards_wraps() {
    // JR -4 at 0x0010 lands at 0x000E.
    let mut program = vec![0u8; 0x12];
    program[0x10] = 0x18;
    program[0x11] = 0xFC;
    let (mut cpu, mut memory) = machine(&program);
    cpu.registers.set_pc(0x10);
    assert_eq!(cpu.step(&mut memory).unwrap(), 3);
    assert_eq!(cpu.registers.get_pc(), 0x0E);
}

#[test]
fn unknown_opcode_is_reported() {
    let (mut cpu, mut memory) = machine(&[0x00, 0xD3]);
    run(&mut cpu, &mut memory, 1);
    let err = cpu.step(&mut memory).unwrap_err();
    assert_eq!(err, CpuError::UnknownOpcode { pc: 1, opcode: 0xD3, prefixed: false });
    assert_eq!(err.pc(), 1);
    assert_eq!(cpu.registers.get_pc(), 1);
}

#[test]
fn f_low_nibble_stays_clear() {
    // LD SP,0xC100; LD BC,0x12FF; PUSH BC; POP AF; SCF; CCF; ADD A,0x01
    let (mut cpu, mut memory) =
        machine(&[0x31, 0x00, 0xC1, 0x01, 0xFF, 0x12, 0xC5, 0xF1, 0x37, 0x3F, 0xC6, 0x01]);
    for _ in 0..7 {
        cpu.step(&mut memory).unwrap();
        assert_eq!(cpu.registers.get_flags() & 0x0F, 0);
    }
}

#[test]
fn pop_af_masks_low_nibble() {
    let (mut cpu, mut memory) = machine(&[0x31, 0x00, 0xC1, 0x01, 0xFF, 0x12, 0xC5, 0xF1]);
    run(&mut cpu, &mut memory, 4);
    assert_eq!(cpu.registers.read_r16(R16::AF), 0x12F0);
    assert_eq!(cpu.registers.read_r16(R16::SP), 0xC100);
}

#[test]
fn inc_dec_r16_keep_flags() {
    // SCF; LD BC,0xFFFF; INC BC; DEC DE
    let (mut cpu, mut memory) = machine(&[0x37, 0x01, 0xFF, 0xFF, 0x03, 0x1B]);
    run(&mut cpu, &mut memory, 2);
    let f = cpu.registers.get_flags();
    run(&mut cpu, &mut memory, 1);
    assert_eq!(cpu.registers.read_r16(R16::BC), 0x0000);
    assert_eq!(cpu.registers.get_flags(), f);
    run(&mut cpu, &mut memory, 1);
    assert_eq!(cpu.registers.read_r16(R16::DE), 0xFFFF);
    assert_eq!(cpu.registers.get_flags(), f);
}

#[test]
fn and_sets_h_clears_c() {
    // SCF; LD A,0xF0; AND 0x0F; LD A,0xFF; LD L,0x3C; AND L
    let (mut cpu, mut memory) = machine(&[0x37, 0x3E, 0xF0, 0xE6, 0x0F, 0x3E, 0xFF, 0x2E, 0x3C, 0xA5]);
    run(&mut cpu, &mut memory, 3);
    assert_eq!(cpu.registers.read_r8(R8::A), 0);
    assert_eq!(flags(&cpu), (true, false, true, false));
    assert_eq!(cpu.registers.get_pc(), 5);
    run(&mut cpu, &mut memory, 3);
    assert_eq!(cpu.registers.read_r8(R8::A), 0x3C);
    assert_eq!(flags(&cpu), (false, false, true, false));
}

#[test]
fn xor_a_and_sub_a_clear_a() {
    let (mut cpu, mut memory) = machine(&[0x37, 0x3E, 0x5A, 0xAF]);
    run(&mut cpu, &mut memory, 3);
    assert_eq!(cpu.registers.read_r8(R8::A), 0);
    assert_eq!(flags(&cpu), (true, false, false, false));

    let (mut cpu, mut memory) = machine(&[0x37, 0x3E, 0x5A, 0x97]);
    run(&mut cpu, &mut memory, 3);
    assert_eq!(cpu.registers.read_r8(R8::A), 0);
    assert_eq!(flags(&cpu), (true, true, false, false));
}

#[test]
fn sub_and_sbc_borrows() {
    // LD A,0x10; SUB 0x01 -> 0x0F, H=1, C=0; SCF; SBC A,0x0F -> 0xFF, C=1
    let (mut cpu, mut memory) = machine(&[0x3E, 0x10, 0xD6, 0x01, 0x37, 0xDE, 0x0F]);
    run(&mut cpu, &mut memory, 2);
    assert_eq!(cpu.registers.read_r8(R8::A), 0x0F);
    assert_eq!(flags(&cpu), (false, true, true, false));
    assert_eq!(cpu.registers.get_pc(), 4);
    run(&mut cpu, &mut memory, 2);
    assert_eq!(cpu.registers.read_r8(R8::A), 0xFF);
    assert_eq!(flags(&cpu), (false, true, true, true));
}

#[test]
fn adc_with_carry_overflows() {
    // LD A,0xFF; SCF; ADC A,0xFF -> 0xFF, H=1, C=1
    let (mut cpu, mut memory) = machine(&[0x3E, 0xFF, 0x37, 0xCE, 0xFF]);
    run(&mut cpu, &mut memory, 3);
    assert_eq!(cpu.registers.read_r8(R8::A), 0xFF);
    assert_eq!(flags(&cpu), (false, false, true, true));
}

#[test]
fn add_hl_sets_half_carry_from_bit_11() {
    // LD HL,0x0FFF; LD BC,0x0001; ADD HL,BC
    let (mut cpu, mut memory) = machine(&[0x21, 0xFF, 0x0F, 0x01, 0x01, 0x00, 0x09]);
    run(&mut cpu, &mut memory, 3);
    assert_eq!(cpu.registers.read_r16(R16::HL), 0x1000);
    assert_eq!(cpu.registers.read_r16(R16::BC), 0x0001);
    assert_eq!(flags(&cpu), (false, false, true, false));
}

#[test]
fn cp_immediate_costs_one() {
    let (mut cpu, mut memory) = machine(&[0x3E, 0x10, 0xFE, 0x10]);
    assert_eq!(run(&mut cpu, &mut memory, 2), vec![1, 1]);
    assert!(cpu.registers.zero_flag());
    assert_eq!(cpu.registers.get_pc(), 4);
}

#[test]
fn taken_branches_cost_more() {
    // CALL 0x0010 (taken), then at 0x0010: CALL NZ with Z set (not taken)
    let mut program = vec![0u8; 0x20];
    program[0] = 0x31;
    program[1] = 0x00;
    program[2] = 0xC2;
    program[3] = 0xCD;
    program[4] = 0x10;
    program[5] = 0x00;
    program[0x10] = 0xAF;
    program[0x11] = 0xC4;
    program[0x12] = 0x00;
    program[0x13] = 0x00;
    program[0x14] = 0xC9;
    let (mut cpu, mut memory) = machine(&program);
    let cycles = run(&mut cpu, &mut memory, 5);
    assert_eq!(cycles, vec![3, 6, 1, 3, 4]);
    assert_eq!(cpu.registers.get_pc(), 6);
    assert_eq!(cpu.registers.read_r16(R16::SP), 0xC200);
}

#[test]
fn swap_twice_is_identity() {
    // LD A,0x5C; SWAP A; SWAP A
    let (mut cpu, mut memory) = machine(&[0x3E, 0x5C, 0xCB, 0x37, 0xCB, 0x37]);
    run(&mut cpu, &mut memory, 2);
    assert_eq!(cpu.registers.read_r8(R8::A), 0xC5);
    let cycles = run(&mut cpu, &mut memory, 1);
    assert_eq!(cpu.registers.read_r8(R8::A), 0x5C);
    assert_eq!(cycles, vec![2]);
    assert_eq!(cpu.registers.get_pc(), 6);
}

#[test]
fn cpl_twice_is_identity() {
    let (mut cpu, mut memory) = machine(&[0x3E, 0x3A, 0x2F, 0x2F]);
    run(&mut cpu, &mut memory, 2);
    assert_eq!(cpu.registers.read_r8(R8::A), 0xC5);
    let (_, n, h, _) = flags(&cpu);
    assert!(n && h);
    run(&mut cpu, &mut memory, 1);
    assert_eq!(cpu.registers.read_r8(R8::A), 0x3A);
}

#[test]
fn rl_nine_times_returns() {
    // LD A,0xB3; SCF; RL A nine times
    let mut program = vec![0x3E, 0xB3, 0x37];
    for _ in 0..9 {
        program.push(0xCB);
        program.push(0x17);
    }
    let (mut cpu, mut memory) = machine(&program);
    run(&mut cpu, &mut memory, 2);
    run(&mut cpu, &mut memory, 1);
    assert_eq!(cpu.registers.read_r8(R8::A), 0x67);
    assert!(cpu.registers.carry_flag());
    run(&mut cpu, &mut memory, 8);
    assert_eq!(cpu.registers.read_r8(R8::A), 0xB3);
    assert!(cpu.registers.carry_flag());
}

#[test]
fn bit_res_set_on_hl() {
    // LD HL,0xC000; SET 3,(HL); BIT 3,(HL); RES 3,(HL); BIT 3,(HL)
    let (mut cpu, mut memory) =
        machine(&[0x21, 0x00, 0xC0, 0xCB, 0xDE, 0xCB, 0x5E, 0xCB, 0x9E, 0xCB, 0x5E]);
    let cycles = run(&mut cpu, &mut memory, 3);
    assert_eq!(cycles, vec![3, 4, 3]);
    assert_eq!(memory.read_u8(0xC000), 0x08);
    assert!(!cpu.registers.zero_flag());
    run(&mut cpu, &mut memory, 2);
    assert_eq!(memory.read_u8(0xC000), 0x00);
    assert!(cpu.registers.zero_flag());
}

#[test]
fn daa_after_bcd_add() {
    // LD A,0x45; ADD A,0x38; DAA -> 0x83
    let (mut cpu, mut memory) = machine(&[0x3E, 0x45, 0xC6, 0x38, 0x27]);
    run(&mut cpu, &mut memory, 3);
    assert_eq!(cpu.registers.read_r8(R8::A), 0x83);
    assert!(!cpu.registers.carry_flag());
}

#[test]
fn rst_and_ret() {
    // at 0x0000: LD SP,0xD000; RST 0x28 ... at 0x0028: RET
    let mut program = vec![0u8; 0x30];
    program[0] = 0x31;
    program[1] = 0x00;
    program[2] = 0xD0;
    program[3] = 0xEF;
    program[0x28] = 0xC9;
    let (mut cpu, mut memory) = machine(&program);
    run(&mut cpu, &mut memory, 2);
    assert_eq!(cpu.registers.get_pc(), 0x28);
    assert_eq!(memory.read_u16(0xCFFE), 0x0004);
    run(&mut cpu, &mut memory, 1);
    assert_eq!(cpu.registers.get_pc(), 4);
    assert_eq!(cpu.registers.read_r16(R16::SP), 0xD000);
}

#[test]
fn di_ei_toggle_ime() {
    let (mut cpu, mut memory) = machine(&[0xFB, 0xF3]);
    run(&mut cpu, &mut memory, 1);
    assert!(cpu.registers.ime);
    run(&mut cpu, &mut memory, 1);
    assert!(!cpu.registers.ime);
}

#[test]
fn high_page_loads() {
    // LD A,0x77; LDH (0x80),A; LD C,0x80; LD A,(C)... via LD B,A
    let (mut cpu, mut memory) = machine(&[0x3E, 0x77, 0xE0, 0x80, 0x3E, 0x00, 0x0E, 0x80, 0xF2]);
    run(&mut cpu, &mut memory, 5);
    assert_eq!(memory.read_u8(0xFF80), 0x77);
    assert_eq!(cpu.registers.read_r8(R8::A), 0x77);
}

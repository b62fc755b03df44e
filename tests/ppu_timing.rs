use rust_boi::emu::{Emu, HostAction, HostEvent};
use rust_boi::gameboy::GameBoy;
use rust_boi::memory::{Memory, RomChunk};
use rust_boi::ppu::{Ppu, PpuMode, Sprite, FRAME_BYTES};

fn bus() -> Memory {
    Memory::new(RomChunk::new(None), RomChunk::new(None))
}

fn feed(ppu: &mut Ppu, memory: &mut Memory, pixels: &mut Vec<u8>, cycles: u16) -> bool {
    memory.set_cpu_cycles(cycles);
    ppu.step(memory, pixels)
}

#[test]
fn modes_lines_and_frame_signal() {
    let mut memory = bus();
    // Background on, unsigned tile data; tile 0 row 0 is colour 3 everywhere.
    memory.write_u8(0xFF40, 0x91);
    memory.write_u8(0x8000, 0xFF);
    memory.write_u8(0x8001, 0xFF);
    let mut pixels = vec![0x11u8; FRAME_BYTES];
    let mut ppu = Ppu::new();
    assert!(!feed(&mut ppu, &mut memory, &mut pixels, 20));
    assert_eq!(ppu.current_mode, PpuMode::VRAM);
    assert!(!feed(&mut ppu, &mut memory, &mut pixels, 42));
    assert_eq!(ppu.current_mode, PpuMode::HBLANK);
    assert_eq!(&pixels[0..3], &[0x00, 0x00, 0x00]);
    assert_eq!(pixels[480], 0x11);
    let mut frames = 0;
    let mut last_line = 0;
    loop {
        let ready = feed(&mut ppu, &mut memory, &mut pixels, 1);
        if ready {
            frames += 1;
            assert_eq!(last_line, 153);
            assert_eq!(ppu.scanline, 0);
            assert_eq!(ppu.current_mode, PpuMode::OAM);
            break;
        }
        if ppu.scanline >= 144 {
            assert_eq!(ppu.current_mode, PpuMode::VBLANK);
        }
        assert_eq!(memory.read_u8(0xFF44), ppu.scanline);
        last_line = ppu.scanline;
    }
    assert_eq!(frames, 1);
}

#[test]
fn one_frame_of_dots_signals_once() {
    let mut memory = bus();
    let mut pixels = vec![0u8; FRAME_BYTES];
    let mut ppu = Ppu::new();
    let mut signals = 0;
    for _ in 0..(70224 / 4) {
        if feed(&mut ppu, &mut memory, &mut pixels, 1) {
            signals += 1;
        }
    }
    assert_eq!(signals, 1);
    assert_eq!(ppu.scanline, 0);
    assert_eq!(ppu.current_mode, PpuMode::OAM);
    assert_eq!(ppu.dots_in_mode, 0);
    assert_eq!(ppu.total_cycles, 70224 / 4);
}

#[test]
fn sprite_is_drawn_over_background() {
    let mut memory = bus();
    // Sprites on, background off. Sprite 0 at screen (0, 0), tile 1, whose
    // row 0 has colour 1 in column 0 and colour 0 in the other seven; all
    // eight are drawn, and the rest of the line is left alone.
    memory.write_u8(0xFF40, 0x82);
    memory.write_u8(0xFE00, 16);
    memory.write_u8(0xFE01, 8);
    memory.write_u8(0xFE02, 1);
    memory.write_u8(0x8010, 0x80);
    let sprite = Sprite::fetch(0, &memory).unwrap();
    assert_eq!((sprite.x, sprite.y, sprite.tile), (0, 0, 1));
    assert!(Sprite::fetch(1, &memory).is_none());
    let mut pixels = vec![0x11u8; FRAME_BYTES];
    let mut ppu = Ppu::new();
    feed(&mut ppu, &mut memory, &mut pixels, 20);
    feed(&mut ppu, &mut memory, &mut pixels, 42);
    assert_eq!(&pixels[0..6], &[0xA0, 0xA0, 0xA0, 0xFF, 0xFF, 0xFF]);
    assert_eq!(&pixels[21..27], &[0xFF, 0xFF, 0xFF, 0x11, 0x11, 0x11]);
}

#[test]
fn window_starts_at_wx_minus_seven() {
    let mut memory = bus();
    // Window on with the map at 0x9800; tile 0 colour 2 across row 0.
    memory.write_u8(0xFF40, 0xB0);
    memory.write_u8(0xFF4A, 0);
    memory.write_u8(0xFF4B, 10);
    memory.write_u8(0x8001, 0xFF);
    let mut pixels = vec![0x11u8; FRAME_BYTES];
    let mut ppu = Ppu::new();
    feed(&mut ppu, &mut memory, &mut pixels, 20);
    feed(&mut ppu, &mut memory, &mut pixels, 42);
    assert_eq!(pixels[3 * 2], 0x11);
    assert_eq!(pixels[3 * 3], 0x60);
}

#[test]
fn gameboy_runs_boot_image() {
    // Boot image: NOP, then JR -2 forever at 0x0001.
    let mut boot = vec![0u8; 256];
    boot[1] = 0x18;
    boot[2] = 0xFE;
    let mut cart = vec![0u8; 0x8000];
    cart[0x0001] = 0x77;
    cart[0x4000] = 0x66;
    let mut gameboy = GameBoy::new(RomChunk::new(Some(boot)), RomChunk::new(Some(cart)));
    assert_eq!(gameboy.memory.read_u8(0x0001), 0x18);
    assert_eq!(gameboy.memory.read_u8(0x4000), 0x66);
    assert_eq!(gameboy.memory.read_u8(0x0101), 0x00);
    let mut pixels = vec![0u8; FRAME_BYTES];
    let mut frames = 0;
    for _ in 0..10000 {
        if gameboy.step(&mut pixels).unwrap() {
            frames += 1;
        }
    }
    assert_eq!(frames, 1);
    assert_eq!(gameboy.cpu.registers.get_pc(), 1);
}

#[test]
fn host_events() {
    let mut emu = Emu::new();
    assert!(emu.running());
    assert_eq!(emu.handle_event(HostEvent::Space), HostAction::Continue);
    assert!(!emu.running());
    assert_eq!(emu.handle_event(HostEvent::Other), HostAction::Continue);
    assert!(emu.paused);
    assert_eq!(emu.handle_event(HostEvent::Escape), HostAction::Exit);
    assert_eq!(emu.handle_event(HostEvent::Quit), HostAction::Exit);
}

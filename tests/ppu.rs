use gameboy::cpu::Cpu;
use gameboy::gpu::Gpu;
use gameboy::mbc::new_cartridge;
use gameboy::memory::Bus;
use gameboy::system::{run_frame, step_system, CYCLES_PER_FRAME};

fn pixel(g: &Gpu, x: usize, y: usize) -> [u8; 4] {
    let o = (y * 160 + x) * 4;
    [g.frame_buffer[o], g.frame_buffer[o + 1], g.frame_buffer[o + 2], g.frame_buffer[o + 3]]
}

#[test]
fn solid_tile_frame() {
    let mut g = Gpu::new();
    g.lcdc = 0x91;
    g.scy = 0;
    g.scx = 0;
    g.bgp = 0xE4;
    for i in 0..16 {
        g.write_vram(i, 0xFF);
    }
    g.write_vram(0x1800, 0x00);
    let mut frames = 0;
    let mut spent = 0u32;
    while spent < 70224 {
        if g.step(4) {
            frames += 1;
        }
        spent += 4;
    }
    assert_eq!(frames, 1);
    assert_eq!(pixel(&g, 0, 0), [0x0F, 0x38, 0x0F, 0xFF]);
}

#[test]
fn ly_stays_in_range_and_modes_cycle() {
    let mut g = Gpu::new();
    let mut seen_vblank = false;
    for _ in 0..50000 {
        g.step(16);
        assert!(g.ly <= 153);
        if g.stat & 0x03 == 1 {
            seen_vblank = true;
            assert!(g.ly >= 144);
        } else {
            assert!(g.ly < 144);
        }
    }
    assert!(seen_vblank);
}

#[test]
fn lcd_off_resets_line() {
    let mut g = Gpu::new();
    for _ in 0..100 {
        g.step(20);
    }
    g.lcdc = 0x11;
    assert!(!g.step(4));
    assert_eq!(g.ly, 0);
    assert_eq!(g.stat & 0x03, 0);
}

#[test]
fn lyc_coincidence_requests_stat() {
    let mut g = Gpu::new();
    g.lyc = 1;
    g.stat = 0x40;
    // HBlank at line 0 for 204 cycles, then LY = 1.
    let mut requested = false;
    for _ in 0..51 {
        g.step(4);
        requested |= g.request_stat_interrupt;
    }
    assert_eq!(g.ly, 1);
    assert_eq!(g.stat & 0x04, 0x04);
    assert!(requested);
}

#[test]
fn sprite_drawn_over_background() {
    let mut g = Gpu::new();
    g.lcdc = 0x93;
    g.bgp = 0xE4;
    g.obp0 = 0xE4;
    // Tile 1: a one-pixel-wide left column of colour 1.
    for row in 0..8 {
        g.write_vram(16 + row * 2, 0x80);
    }
    // Sprite 0 at screen (8, 0), tile 1.
    g.oam[0] = 16;
    g.oam[1] = 16;
    g.oam[2] = 1;
    g.oam[3] = 0;
    for _ in 0..(70224 / 4) {
        g.step(4);
    }
    assert_eq!(pixel(&g, 8, 0), [0x8B, 0xAC, 0x0F, 0xFF]);
    assert_eq!(pixel(&g, 9, 0), [0x9B, 0xBC, 0x0F, 0xFF]);
}

#[test]
fn system_frame_sets_vblank_flag() {
    // JR -2: an endless loop.
    let mut rom = vec![0u8; 0x8000];
    rom[0x0100] = 0x18;
    rom[0x0101] = 0xFE;
    let mut bus = Bus::new(new_cartridge(rom));
    let mut cpu = Cpu::new();
    let (t, _) = step_system(&mut cpu, &mut bus);
    assert_eq!(t, 12);
    let frame = run_frame(&mut cpu, &mut bus);
    assert!(frame.is_some());
    assert_eq!(frame.unwrap().len(), 160 * 144 * 4);
    assert_eq!(bus.interrupt_flag & 0x01, 0x01);
    assert_eq!(CYCLES_PER_FRAME, 70224);
}

#[test]
fn one_long_step_runs_every_mode_change() {
    let mut a = Gpu::new();
    let mut b = Gpu::new();
    for i in 0..16 {
        a.write_vram(i, 0xFF);
        b.write_vram(i, 0xFF);
    }
    let ready = a.step(70224);
    let mut count = 0;
    for _ in 0..(70224 / 8) {
        if b.step(8) {
            count += 1;
        }
    }
    assert!(ready);
    assert_eq!(count, 1);
    assert_eq!(a.ly, b.ly);
    assert_eq!(a.stat, b.stat);
    assert_eq!(a.frame_buffer, b.frame_buffer);
    assert_eq!(pixel(&a, 5, 0), [0x0F, 0x38, 0x0F, 0xFF]);
}

#[test]
fn lyc_compared_when_ly_wraps_to_zero() {
    let mut g = Gpu::new();
    g.lyc = 0;
    g.stat = 0x40;
    // Run to the last VBlank line (LY 153) without passing its end.
    let mut steps = 0;
    while !(g.ly == 153 && g.stat & 0x03 == 1) {
        g.step(4);
        steps += 1;
        assert!(steps < 20000);
    }
    assert_eq!(g.stat & 0x04, 0);
    let mut requested = false;
    while g.ly != 0 {
        g.step(4);
        requested |= g.request_stat_interrupt;
    }
    assert_eq!(g.stat & 0x04, 0x04);
    assert_eq!(g.stat & 0x03, 2);
    assert!(requested);
}

#[test]
fn ly_write_compares_with_lyc() {
    let mut bus = Bus::new(new_cartridge(vec![0u8; 0x8000]));
    bus.gpu.ly = 10;
    bus.write(0xFF45, 0);
    bus.write(0xFF44, 0x99);
    assert_eq!(bus.read(0xFF44), 0);
    assert_eq!(bus.read(0xFF41) & 0x04, 0x04);
    bus.write(0xFF45, 5);
    bus.write(0xFF44, 0);
    assert_eq!(bus.read(0xFF41) & 0x04, 0);
}

#[test]
fn key_press_dispatches_joypad_interrupt() {
    // NOP forever.
    let mut bus = Bus::new(new_cartridge(vec![0u8; 0x8000]));
    let mut cpu = Cpu::new();
    cpu.ime = true;
    bus.write(0xFFFF, 0x10);
    bus.joypad.key_down(gameboy::joypad::Button::Start);
    step_system(&mut cpu, &mut bus);
    assert!(!bus.joypad.interrupt_request);
    assert_eq!(bus.interrupt_flag & 0x10, 0x10);
    step_system(&mut cpu, &mut bus);
    assert_eq!(cpu.regs.pc, 0x0060);
    assert_eq!(bus.interrupt_flag & 0x10, 0);
    // The latch is gone: clearing IF keeps bit 4 clear.
    bus.write(0xFF0F, 0x00);
    assert_eq!(bus.read(0xFF0F) & 0x10, 0);
}

#[test]
fn run_frame_stops_at_vblank() {
    let mut rom = vec![0u8; 0x8000];
    rom[0x0100] = 0x18;
    rom[0x0101] = 0xFE;
    let mut bus = Bus::new(new_cartridge(rom));
    let mut cpu = Cpu::new();
    assert!(run_frame(&mut cpu, &mut bus).is_some());
    assert_eq!(bus.gpu.ly, 144);
    assert_eq!(bus.gpu.stat & 0x03, 1);
}

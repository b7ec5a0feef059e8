use gameboy::joypad::{Button, Joypad};
use gameboy::mbc::{new_cartridge, Mbc, Mbc1, RomOnly};
use gameboy::memory::Bus;

fn bus() -> Bus {
    Bus::new(new_cartridge(vec![0u8; 0x8000]))
}

#[test]
fn ram_write_then_read() {
    let mut b = bus();
    for (addr, val) in [(0x8000u16, 0x11u8), (0x9FFF, 0x22), (0xC000, 0x33), (0xDFFF, 0x44), (0xFE00, 0x55), (0xFE9F, 0x66), (0xFF80, 0x77), (0xFFFE, 0x88)] {
        b.write(addr, val);
        assert_eq!(b.read(addr), val);
    }
}

#[test]
fn echo_ram_mirrors_work_ram() {
    let mut b = bus();
    b.write(0xC123, 0xAB);
    assert_eq!(b.read(0xE123), 0xAB);
    b.write(0xFDFF, 0xCD);
    assert_eq!(b.read(0xDDFF), 0xCD);
    for a in (0xC000u16..0xDE00).step_by(0x101) {
        assert_eq!(b.read(a), b.read(a + 0x2000));
    }
}

#[test]
fn unusable_and_unmapped_read_ff() {
    let mut b = bus();
    b.write(0xFEA0, 0x12);
    assert_eq!(b.read(0xFEA0), 0xFF);
    assert_eq!(b.read(0xFF01), 0xFF);
    assert_eq!(b.read(0xFF46), 0xFF);
}

#[test]
fn stat_write_keeps_low_bits() {
    let mut b = bus();
    b.gpu.stat = 0x07;
    b.write(0xFF41, 0x00);
    assert_eq!(b.read(0xFF41) & 0x07, 0x07);
    b.write(0xFF41, 0x78);
    assert_eq!(b.read(0xFF41), 0x7F);
}

#[test]
fn ly_write_resets_and_lcd_off() {
    let mut b = bus();
    b.gpu.ly = 100;
    b.write(0xFF44, 0x55);
    assert_eq!(b.read(0xFF44), 0);
    b.gpu.ly = 50;
    b.gpu.stat = 0x03;
    b.gpu.cycles = 100;
    b.write(0xFF40, 0x11);
    assert_eq!(b.gpu.cycles, 100);
    assert_eq!(b.gpu.ly, 0);
    assert_eq!(b.gpu.stat & 0x03, 0);
    assert_eq!(b.read(0xFF40), 0x11);
}

#[test]
fn oam_dma_copies_page() {
    let mut b = bus();
    for i in 0..0xA0u16 {
        b.write(0xC100 + i, (i as u8).wrapping_mul(3));
    }
    b.write(0xFF46, 0xC1);
    for i in 0..0xA0u16 {
        assert_eq!(b.read(0xFE00 + i), (i as u8).wrapping_mul(3));
    }
}

#[test]
fn timer_overflows_once_after_256_edges() {
    let mut b = bus();
    b.write(0xFF04, 0);
    b.write(0xFF07, 0x05);
    b.write(0xFF06, 0x10);
    b.write(0xFF05, 0x00);
    // Bit 3 of the divider falls once every 16 T-cycles (4 machine cycles).
    for _ in 0..255 {
        b.step_timer(4);
        assert_eq!(b.interrupt_flag & 0x04, 0);
    }
    assert_eq!(b.tima, 0xFF);
    b.step_timer(4);
    assert_eq!(b.tima, 0x10);
    assert_eq!(b.interrupt_flag & 0x04, 0x04);
}

#[test]
fn timer_counts_every_edge_in_a_long_step() {
    let mut b = bus();
    b.write(0xFF04, 0);
    b.write(0xFF07, 0x05);
    b.step_timer(1024);
    assert_eq!(b.tima, 0x00);
    assert_eq!(b.interrupt_flag & 0x04, 0x04);
    assert_eq!(b.div, 4096);
    assert_eq!(b.read(0xFF04), 0x10);
}

#[test]
fn timer_disabled_only_moves_divider() {
    let mut b = bus();
    assert_eq!(b.div, 0xABCC);
    b.step_timer(10);
    assert_eq!(b.div, 0xABCC + 40);
    assert_eq!(b.tima, 0);
}

#[test]
fn interrupt_flag_reads_upper_bits_and_joypad() {
    let mut b = bus();
    b.write(0xFF0F, 0x01);
    assert_eq!(b.read(0xFF0F), 0xE1);
    b.joypad.key_down(Button::A);
    assert_eq!(b.read(0xFF0F), 0xF1);
}

#[test]
fn joypad_matrix() {
    let mut j = Joypad::new();
    assert_eq!(j.read(), 0xFF);
    j.key_down(Button::Right);
    j.key_down(Button::Start);
    assert!(j.interrupt_request);
    j.write(0x20);
    assert_eq!(j.read(), 0xEE);
    j.write(0x10);
    assert_eq!(j.read(), 0xD7);
    j.key_up(Button::Start);
    assert_eq!(j.read(), 0xDF);
    j.write(0x30);
    assert_eq!(j.read(), 0xFF);
}

#[test]
fn mbc1_ram_disabled_reads_ff() {
    let mut m = Mbc1::new(vec![0u8; 0x8000]);
    m.write(0x0000, 0x0A);
    m.write(0xA000, 0x55);
    assert_eq!(m.read(0xA000), 0x55);
    m.write(0x0000, 0x00);
    assert_eq!(m.read(0xA000), 0xFF);
}

#[test]
fn mbc1_bank_zero_selects_bank_one() {
    let mut rom = vec![0u8; 0x10000];
    for bank in 0..4 {
        rom[bank * 0x4000] = bank as u8 + 0xA0;
    }
    let mut m = Mbc1::new(rom);
    m.write(0x2100, 0x00);
    assert_eq!(m.read(0x4000), 0xA1);
    m.write(0x2100, 0x03);
    assert_eq!(m.read(0x4000), 0xA3);
    // Bank 5 wraps to bank 1 in a four-bank ROM.
    m.write(0x2100, 0x05);
    assert_eq!(m.read(0x4000), 0xA1);
    assert_eq!(m.read(0x0000), 0xA0);
}

#[test]
fn mbc1_ram_banking_mode() {
    let mut m = Mbc1::new(vec![0u8; 0x8000]);
    m.write(0x0000, 0x0A);
    m.write(0x6000, 0x01);
    m.write(0x4000, 0x02);
    m.write(0xA010, 0x99);
    m.write(0x4000, 0x00);
    assert_eq!(m.read(0xA010), 0x00);
    m.write(0x4000, 0x02);
    assert_eq!(m.read(0xA010), 0x99);
}

#[test]
fn rom_only_reads_and_ignores_writes() {
    let mut c = RomOnly { rom: vec![0x11, 0x22, 0x33] };
    assert_eq!(c.read(1), 0x22);
    assert_eq!(c.read(3), 0xFF);
    c.write(1, 0x99);
    assert_eq!(c.read(1), 0x22);
}

#[test]
fn cartridge_kind_from_header() {
    let mut rom = vec![0u8; 0x8000];
    rom[0x0147] = 0x00;
    let mut c = new_cartridge(rom.clone());
    c.write(0x2000, 0x02);
    c.write(0x0000, 0x0A);
    // ROM-only: 0xA000 lies past the 32 KiB image.
    assert_eq!(c.read(0xA000), 0xFF);
    assert_eq!(c.read(0x4000), 0x00);
    rom[0x0147] = 0x01;
    rom[0x4000] = 0x42;
    let mut c = new_cartridge(rom.clone());
    assert_eq!(c.read(0x4000), 0x42);
    c.write(0x0000, 0x0A);
    c.write(0xA000, 0x5A);
    assert_eq!(c.read(0xA000), 0x5A);
    // An unknown type is driven as MBC1.
    rom[0x0147] = 0x13;
    let mut c = new_cartridge(rom);
    c.write(0x0000, 0x0A);
    c.write(0xA000, 0x5A);
    assert_eq!(c.read(0xA000), 0x5A);
}

use gameboy_emulator_lib::bus::Bus;
use gameboy_emulator_lib::cartridge::Cartridge;
use gameboy_emulator_lib::interrupt::{InterruptType, Interrupts};
use gameboy_emulator_lib::io::joypad::{Joypad, JoypadInput};
use gameboy_emulator_lib::io::ppu::registers::{Color, Mode, Palette};
use gameboy_emulator_lib::io::ppu::PPU;
use gameboy_emulator_lib::io::timer::Timer;

#[test]
fn timer_overflow_and_reload() {
    let mut t = Timer::new();
    let mut ints = Interrupts::new();
    t.write(0xFF04, 0);
    t.write(0xFF06, 0xFE);
    t.write(0xFF05, 0xFE);
    t.write(0xFF07, 0x05);
    for _ in 0..16 {
        t.tick(&mut ints);
    }
    assert_eq!(t.read(0xFF05), 0x00);
    assert_eq!(ints.flag & 0x04, 0x04);
    t.tick(&mut ints);
    assert_eq!(t.read(0xFF05), 0xFE);
}

#[test]
fn div_reads_high_byte_and_resets() {
    let mut t = Timer::new();
    let mut ints = Interrupts::new();
    t.write(0xFF04, 0);
    for _ in 0..64 {
        t.tick(&mut ints);
    }
    assert_eq!(t.read(0xFF04), 1);
    t.write(0xFF04, 0x55);
    assert_eq!(t.read(0xFF04), 0);
}

#[test]
fn interrupt_priority_and_vectors() {
    assert_eq!(Interrupts::interrupt_type(0x1F, 0x06), InterruptType::LCDSTAT);
    assert_eq!(Interrupts::interrupt_type(0x10, 0x1F), InterruptType::JOYPAD);
    assert_eq!(Interrupts::interrupt_addr(InterruptType::TIMER), 0x0050);
    let mut i = Interrupts::new();
    assert_eq!(i.read(0xFF0F), 0xE1);
    i.write(0xFF0F, 0x00);
    assert_eq!(i.read(0xFF0F), 0xE0);
    assert!(!i.pending_interrupt());
    i.write(0xFFFF, 0x04);
    i.create_interrupt(InterruptType::TIMER);
    assert!(i.pending_interrupt());
    i.reset_interrupt(InterruptType::TIMER);
    assert!(!i.pending_interrupt());
}

#[test]
fn ly_coincidence_flag() {
    let mut p = PPU::new();
    assert_eq!(p.read(0xFF41) & 0x04, 0x04);
    p.write(0xFF45, 5);
    assert_eq!(p.read(0xFF41) & 0x04, 0x00);
    let mut ints = Interrupts::new();
    for _ in 0..(456 * 5) {
        p.tick(&mut ints);
        assert_eq!(p.read(0xFF41) & 0x04 != 0, p.read(0xFF44) == p.read(0xFF45));
    }
    assert_eq!(p.read(0xFF44), 5);
    assert_eq!(p.read(0xFF41) & 0x04, 0x04);
}

#[test]
fn one_frame_returns_ly_to_zero_with_one_vblank() {
    let mut p = PPU::new();
    let mut ints = Interrupts::new();
    ints.flag = 0;
    let mut vblanks = 0;
    for _ in 0..70224 {
        p.tick(&mut ints);
        if ints.flag & 0x01 != 0 {
            vblanks += 1;
            ints.flag = 0;
        }
    }
    assert_eq!(p.read(0xFF44), 0);
    assert_eq!(vblanks, 1);
    assert_eq!(p.stat.get_mode(), Mode::OamSearch);
}

#[test]
fn dma_copies_wram_to_oam() {
    let mut bus = Bus::new(Cartridge::new(vec![0u8; 0x8000]));
    for i in 0..160u16 {
        bus.write(0xC000 + i, (i as u8).wrapping_mul(3));
    }
    bus.write(0xFF46, 0xC0);
    assert!(bus.ppu.dma_mode);
    for _ in 0..160 {
        assert_eq!(bus.read(0xFE00), 0xFF);
        bus.tick();
    }
    assert!(!bus.ppu.dma_mode);
    for i in 0..160u16 {
        assert_eq!(bus.read(0xFE00 + i), (i as u8).wrapping_mul(3));
    }
}

#[test]
fn echo_ram_and_hram() {
    let mut bus = Bus::new(Cartridge::new(vec![0u8; 0x8000]));
    bus.write(0xC123, 0x77);
    assert_eq!(bus.read(0xE123), 0x77);
    bus.write(0xFF80, 0x12);
    assert_eq!(bus.read(0xFF80), 0x12);
    bus.write16(0xC000, 0xBEEF);
    assert_eq!(bus.read16(0xC000), 0xBEEF);
    assert_eq!(bus.read(0xC000), 0xEF);
}

#[test]
fn cartridge_banks_and_title() {
    let mut rom = vec![0u8; 0x8000];
    rom[0x0000] = 0x11;
    rom[0x4000] = 0x22;
    rom[0x7FFF] = 0x33;
    let title = b"TESTROM";
    rom[0x134..0x134 + title.len()].copy_from_slice(title);
    rom[0x13F] = 0xC8;
    let cart = Cartridge::new(rom);
    assert_eq!(cart.read(0x0000), 0x11);
    assert_eq!(cart.read(0x4000), 0x22);
    assert_eq!(cart.read(0x7FFF), 0x33);
    assert_eq!(&cart.header.title[0..7], title);
    assert_eq!(cart.header.title[0x13F - 0x134], b'_');
    assert_eq!(cart.header.title.len(), 16);
}

#[test]
fn palette_shades() {
    let p = Palette::new(0b1110_0100);
    assert_eq!(p.get_color(0), Color::C0);
    assert_eq!(p.get_color(1), Color::C1);
    assert_eq!(p.get_color(2), Color::C2);
    assert_eq!(p.get_color(3), Color::C3);
    assert_eq!(Palette::palette_index(true, false), 2);
}

#[test]
fn background_line_renders_tile_pixels() {
    let mut p = PPU::new();
    // Tile 0 row 0: low byte 0x80, high byte 0x80 -> leftmost pixel colour id 3.
    p.write(0x8000, 0x80);
    p.write(0x8001, 0x80);
    p.write(0xFF40, 0x91);
    p.write(0xFF47, 0xE4);
    let mut ints = Interrupts::new();
    for _ in 0..456 {
        p.tick(&mut ints);
    }
    assert_eq!(p.buffer[0].get_color(), Color::C3);
    assert_eq!(p.buffer[1].get_color(), Color::C0);
    assert_eq!(p.buffer[8].get_color(), Color::C3);
}

#[test]
fn joypad_lines() {
    let mut j = Joypad::new();
    let mut ints = Interrupts::new();
    ints.flag = 0;
    j.write(0x10);
    assert_eq!(j.read(), 0x1F);
    j.key_down(JoypadInput::A, &mut ints);
    assert_eq!(j.read(), 0x1E);
    assert_eq!(ints.flag & 0x10, 0x10);
    j.key_up(JoypadInput::A);
    assert_eq!(j.read(), 0x1F);
}

#[test]
fn dma_copies_vram_to_oam() {
    let mut bus = Bus::new(Cartridge::new(vec![0u8; 0x8000]));
    for i in 0..160u16 {
        bus.ppu.vram[i as usize] = (i as u8) ^ 0x5A;
    }
    bus.write(0xFF46, 0x80);
    for _ in 0..160 {
        bus.tick();
    }
    assert!(!bus.ppu.dma_mode);
    for i in 0..160u16 {
        assert_eq!(bus.read(0xFE00 + i), (i as u8) ^ 0x5A);
    }
}

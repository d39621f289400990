use gameboy_emulator_lib::display::{color_to_rgb, draw_tile, from_u8_rgb, get_col, reset_buffer};
use gameboy_emulator_lib::io::ppu::registers::Color;

#[test]
fn rgb_values() {
    assert_eq!(from_u8_rgb(0x12, 0x34, 0x56), 0x123456);
    assert_eq!(color_to_rgb(Color::C0), 0xFFFFFF);
    assert_eq!(color_to_rgb(Color::C3), 0x000000);
    assert_eq!(get_col(true, false), Color::C2);
}

#[test]
fn tile_drawing() {
    let mut buf = vec![7u32; 160 * 16];
    reset_buffer(&mut buf);
    assert!(buf.iter().all(|p| *p == 0));
    let mut tile = vec![0u8; 16];
    tile[0] = 0x80;
    tile[1] = 0x80;
    draw_tile(&mut buf, &tile, (8, 0));
    assert_eq!(buf[8], 0x000000);
    assert_eq!(buf[9], 0xFFFFFF);
}

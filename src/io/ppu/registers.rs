use vstd::prelude::*;

use crate::utils::{bit8, is_bit_set};

verus! {

pub open spec fn bb(b: bool, w: int) -> int {
    if b { w } else { 0 }
}

/// LCD control register (0xFF40).
#[derive(Clone, Copy, PartialEq, Eq, Structural, Debug)]
pub struct Lcdc {
    /// Bit 7: LCD and PPU on.
    pub enable_lcd: bool,
    /// Bit 6: window tile map at 0x9C00 (else 0x9800).
    pub window_tile_map_area: bool,
    /// Bit 5: window shown.
    pub window_enable: bool,
    /// Bit 4: tile data at 0x8000 with unsigned indices (else 0x9000, signed).
    pub bg_tile_data_area: bool,
    /// Bit 3: background tile map at 0x9C00 (else 0x9800).
    pub bg_tile_map_area: bool,
    /// Bit 2: sprites are 8x16 (else 8x8).
    pub obj_size: bool,
    /// Bit 1: sprites shown.
    pub obj_enable: bool,
    /// Bit 0: background and window shown (else both blank).
    pub bg_priority: bool,
}

pub open spec fn lcdc_of(byte: u8) -> Lcdc {
    Lcdc {
        enable_lcd: bit8(byte, 7),
        window_tile_map_area: bit8(byte, 6),
        window_enable: bit8(byte, 5),
        bg_tile_data_area: bit8(byte, 4),
        bg_tile_map_area: bit8(byte, 3),
        obj_size: bit8(byte, 2),
        obj_enable: bit8(byte, 1),
        bg_priority: bit8(byte, 0),
    }
}

pub open spec fn lcdc_byte(l: Lcdc) -> u8 {
    (bb(l.enable_lcd, 128) + bb(l.window_tile_map_area, 64) + bb(l.window_enable, 32) + bb(
        l.bg_tile_data_area,
        16,
    ) + bb(l.bg_tile_map_area, 8) + bb(l.obj_size, 4) + bb(l.obj_enable, 2) + bb(
        l.bg_priority,
        1,
    )) as u8
}

/// The byte that eight flags stand for, bit 7 first.
fn pack_bits(
    b7: bool,
    b6: bool,
    b5: bool,
    b4: bool,
    b3: bool,
    b2: bool,
    b1: bool,
    b0: bool,
) -> (r: u8)
    ensures
        r == bb(b7, 128) + bb(b6, 64) + bb(b5, 32) + bb(b4, 16) + bb(b3, 8) + bb(b2, 4) + bb(
            b1,
            2,
        ) + bb(b0, 1),
{
    let mut r: u8 = 0;
    if b7 {
        r = r + 128;
    }
    if b6 {
        r = r + 64;
    }
    if b5 {
        r = r + 32;
    }
    if b4 {
        r = r + 16;
    }
    if b3 {
        r = r + 8;
    }
    if b2 {
        r = r + 4;
    }
    if b1 {
        r = r + 2;
    }
    if b0 {
        r = r + 1;
    }
    r
}

impl Lcdc {
    pub fn new(byte: u8) -> (r: Self)
        ensures
            r == lcdc_of(byte),
    {
        Lcdc {
            enable_lcd: is_bit_set(byte, 7),
            window_tile_map_area: is_bit_set(byte, 6),
            window_enable: is_bit_set(byte, 5),
            bg_tile_data_area: is_bit_set(byte, 4),
            bg_tile_map_area: is_bit_set(byte, 3),
            obj_size: is_bit_set(byte, 2),
            obj_enable: is_bit_set(byte, 1),
            bg_priority: is_bit_set(byte, 0),
        }
    }

    pub fn to_byte(&self) -> (r: u8)
        ensures
            r == lcdc_byte(*self),
    {
        pack_bits(
            self.enable_lcd,
            self.window_tile_map_area,
            self.window_enable,
            self.bg_tile_data_area,
            self.bg_tile_map_area,
            self.obj_size,
            self.obj_enable,
            self.bg_priority,
        )
    }

    pub fn is_lcd_enabled(&self) -> (r: bool)
        ensures
            r == self.enable_lcd,
    {
        self.enable_lcd
    }
}

/// The PPU modes, numbered as STAT bits 1..0 read them.
#[derive(Clone, Copy, PartialEq, Eq, Structural, Debug)]
pub enum Mode {
    HBlank,
    VBlank,
    OamSearch,
    LcdTransfer,
}

impl Mode {
    pub open spec fn number(self) -> int {
        match self {
            Mode::HBlank => 0,
            Mode::VBlank => 1,
            Mode::OamSearch => 2,
            Mode::LcdTransfer => 3,
        }
    }
}

/// LCD status register (0xFF41).
#[derive(Clone, Copy, PartialEq, Eq, Structural, Debug)]
pub struct Stat {
    /// Bit 7
    pub unused: bool,
    /// Bit 6: LYC == LY interrupt source enabled.
    pub lyc_ly_eq_interrupt: bool,
    /// Bit 5: mode-2 interrupt source enabled.
    pub oam_interrupt: bool,
    /// Bit 4: mode-1 interrupt source enabled.
    pub vblank_interrupt: bool,
    /// Bit 3: mode-0 interrupt source enabled.
    pub hblank_interrupt: bool,
    /// Bit 2: LY == LYC.
    pub lyc_ly_eq_flag: bool,
    /// Bits 1..0: the mode.
    pub mode_bit_1: bool,
    pub mode_bit_0: bool,
}

pub open spec fn stat_of(byte: u8) -> Stat {
    Stat {
        unused: bit8(byte, 7),
        lyc_ly_eq_interrupt: bit8(byte, 6),
        oam_interrupt: bit8(byte, 5),
        vblank_interrupt: bit8(byte, 4),
        hblank_interrupt: bit8(byte, 3),
        lyc_ly_eq_flag: bit8(byte, 2),
        mode_bit_1: bit8(byte, 1),
        mode_bit_0: bit8(byte, 0),
    }
}

pub open spec fn stat_byte(s: Stat) -> u8 {
    (bb(s.unused, 128) + bb(s.lyc_ly_eq_interrupt, 64) + bb(s.oam_interrupt, 32) + bb(
        s.vblank_interrupt,
        16,
    ) + bb(s.hblank_interrupt, 8) + bb(s.lyc_ly_eq_flag, 4) + bb(s.mode_bit_1, 2) + bb(
        s.mode_bit_0,
        1,
    )) as u8
}

impl Stat {
    pub open spec fn mode(self) -> Mode {
        if self.mode_bit_1 && self.mode_bit_0 {
            Mode::LcdTransfer
        } else if self.mode_bit_1 {
            Mode::OamSearch
        } else if self.mode_bit_0 {
            Mode::VBlank
        } else {
            Mode::HBlank
        }
    }

    pub fn new(byte: u8) -> (r: Self)
        ensures
            r == stat_of(byte),
    {
        Stat {
            unused: is_bit_set(byte, 7),
            lyc_ly_eq_interrupt: is_bit_set(byte, 6),
            oam_interrupt: is_bit_set(byte, 5),
            vblank_interrupt: is_bit_set(byte, 4),
            hblank_interrupt: is_bit_set(byte, 3),
            lyc_ly_eq_flag: is_bit_set(byte, 2),
            mode_bit_1: is_bit_set(byte, 1),
            mode_bit_0: is_bit_set(byte, 0),
        }
    }

    pub fn to_byte(&self) -> (r: u8)
        ensures
            r == stat_byte(*self),
    {
        pack_bits(
            self.unused,
            self.lyc_ly_eq_interrupt,
            self.oam_interrupt,
            self.vblank_interrupt,
            self.hblank_interrupt,
            self.lyc_ly_eq_flag,
            self.mode_bit_1,
            self.mode_bit_0,
        )
    }

    pub fn set_lyc_ly_eq_flag(&mut self, flag: bool)
        ensures
            *final(self) == (Stat { lyc_ly_eq_flag: flag, ..*old(self) }),
    {
        self.lyc_ly_eq_flag = flag;
    }

    pub fn get_mode(&self) -> (r: Mode)
        ensures
            r == self.mode(),
    {
        if self.mode_bit_1 && self.mode_bit_0 {
            Mode::LcdTransfer
        } else if self.mode_bit_1 {
            Mode::OamSearch
        } else if self.mode_bit_0 {
            Mode::VBlank
        } else {
            Mode::HBlank
        }
    }

    pub fn set_mode(&mut self, mode: Mode)
        ensures
            final(self).mode() == mode,
            final(self).mode_bit_1 == (mode.number() >= 2),
            final(self).mode_bit_0 == (mode.number() % 2 == 1),
            *final(self) == (Stat {
                mode_bit_1: final(self).mode_bit_1,
                mode_bit_0: final(self).mode_bit_0,
                ..*old(self)
            }),
    {
        match mode {
            Mode::HBlank => {
                self.mode_bit_1 = false;
                self.mode_bit_0 = false;
            },
            Mode::VBlank => {
                self.mode_bit_1 = false;
                self.mode_bit_0 = true;
            },
            Mode::OamSearch => {
                self.mode_bit_1 = true;
                self.mode_bit_0 = false;
            },
            Mode::LcdTransfer => {
                self.mode_bit_1 = true;
                self.mode_bit_0 = true;
            },
        }
    }
}

/// One of the four shades, 0 the lightest.
#[derive(Copy, Clone, PartialEq, Eq, Structural, Debug)]
pub enum Color {
    C0,
    C1,
    C2,
    C3,
}

impl Color {
    pub open spec fn shade(self) -> u8 {
        match self {
            Color::C0 => 0,
            Color::C1 => 1,
            Color::C2 => 2,
            Color::C3 => 3,
        }
    }

    pub open spec fn of_shade(v: u8) -> Color {
        if v == 0 {
            Color::C0
        } else if v == 1 {
            Color::C1
        } else if v == 2 {
            Color::C2
        } else {
            Color::C3
        }
    }

    /// The colour id (0..3) of a pixel from its bit in the high and low tile bytes.
    pub fn get_color_index(high: bool, low: bool) -> (r: usize)
        ensures
            r == bb(high, 2) + bb(low, 1),
    {
        match (high, low) {
            (true, true) => 3,
            (true, false) => 2,
            (false, true) => 1,
            (false, false) => 0,
        }
    }

    /// The shade as a number 0..3.
    pub fn value(&self) -> (r: u8)
        ensures
            r == self.shade(),
            r < 4,
    {
        match self {
            Color::C0 => 0,
            Color::C1 => 1,
            Color::C2 => 2,
            Color::C3 => 3,
        }
    }

    pub fn from_shade(v: u8) -> (r: Color)
        requires
            v < 4,
        ensures
            r.shade() == v,
            r == Color::of_shade(v),
    {
        if v == 0 {
            Color::C0
        } else if v == 1 {
            Color::C1
        } else if v == 2 {
            Color::C2
        } else {
            Color::C3
        }
    }
}

/// A palette: four 2-bit shades, colour id 0 in bits 1..0 up to id 3 in bits 7..6.
#[derive(Clone, Copy, PartialEq, Eq, Structural, Debug)]
pub struct Palette {
    pub value: u8,
}

/// The shade that a palette byte gives to a colour id.
pub open spec fn palette_shade(p: u8, idx: int) -> u8 {
    ((p as int / (if idx == 0 {
        1int
    } else if idx == 1 {
        4int
    } else if idx == 2 {
        16int
    } else {
        64int
    })) % 4) as u8
}

impl Palette {
    pub fn new(byte: u8) -> (r: Self)
        ensures
            r.value == byte,
    {
        Palette { value: byte }
    }

    pub fn to_byte(&self) -> (r: u8)
        ensures
            r == self.value,
    {
        self.value
    }

    /// The colour id of a pixel from its bit in the high and low tile bytes.
    pub fn palette_index(high: bool, low: bool) -> (r: usize)
        ensures
            r == bb(high, 2) + bb(low, 1),
    {
        Color::get_color_index(high, low)
    }

    /// The shade that this palette gives to colour id `idx`.
    pub fn get_color(&self, idx: usize) -> (r: Color)
        requires
            idx < 4,
        ensures
            r.shade() == palette_shade(self.value, idx as int),
    {
        let v = self.value;
        let s: u8 = if idx == 0 {
            v % 4
        } else if idx == 1 {
            (v / 4) % 4
        } else if idx == 2 {
            (v / 16) % 4
        } else {
            v / 64
        };
        Color::from_shade(s)
    }
}

} // verus!

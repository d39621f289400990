use vstd::prelude::*;

pub mod fetcher;
pub mod oam;
pub mod registers;

use crate::interrupt::{InterruptType, Interrupts};
use crate::utils::{bit8, is_bit_set};

use self::fetcher::Pixel;
use self::oam::OamEntry;
use self::registers::{
    bb, lcdc_byte, lcdc_of, palette_shade, stat_byte, Color, Lcdc, Mode, Palette, Stat,
};

verus! {

pub const VBLANK_LINE_LIMIT: u8 = 144;

pub const MAX_LINE_LIMIT: u8 = 154;

pub const OAM_TICK_LIMIT: u64 = 80;

pub const LCD_TRANSFER_TICK_LIMIT: u64 = 172;

pub const HBLANK_TICK_LIMIT: u64 = 456;

pub const SCREEN_WIDTH: usize = 160;

pub const SCREEN_HEIGHT: usize = 144;

pub const VRAM_SIZE: usize = 0x2000;

pub const OAM_COUNT: usize = 40;

pub const MAX_SPRITES_PER_LINE: usize = 10;

/// The pixel-processing unit: video memory, sprite table, LCD registers,
/// the line timing and the framebuffer.
pub struct PPU {
    /// t-cycles spent on the current line.
    pub ticks: u64,
    pub dma_mode: bool,
    /// Bytes of the running DMA copied so far.
    pub dma_cycles: u64,
    /// Source page of the last DMA.
    pub dma: u8,
    pub vram: Vec<u8>,
    pub oam: Vec<OamEntry>,
    /// The sprites on the current line, in OAM order.
    pub active_sprites: Vec<OamEntry>,
    pub lcdc: Lcdc,
    pub ly: u8,
    pub lyc: u8,
    pub stat: Stat,
    pub scy: u8,
    pub scx: u8,
    pub wy: u8,
    pub wx: u8,
    pub bg_palette: Palette,
    pub obj_palette_0: Palette,
    pub obj_palette_1: Palette,
    /// Shades of the 160x144 screen, row after row.
    pub buffer: Vec<Pixel>,
    /// Per column of the current line: the background colour id there is 0.
    pub background_priority: Vec<bool>,
}

/// The line timing after one t-cycle: mode, LY, and t-cycles into the line.
pub open spec fn timing_step(mode: Mode, ly: u8, ticks: u64) -> (Mode, u8, u64) {
    let t = (ticks + 1) as u64;
    match mode {
        Mode::OamSearch => if t >= 80 {
            (Mode::LcdTransfer, ly, t)
        } else {
            (Mode::OamSearch, ly, t)
        },
        Mode::LcdTransfer => if t >= 252 {
            (Mode::HBlank, ly, t)
        } else {
            (Mode::LcdTransfer, ly, t)
        },
        Mode::HBlank => if t >= 456 {
            if ly + 1 >= 144 {
                (Mode::VBlank, (ly + 1) as u8, (t - 456) as u64)
            } else {
                (Mode::OamSearch, (ly + 1) as u8, (t - 456) as u64)
            }
        } else {
            (Mode::HBlank, ly, t)
        },
        Mode::VBlank => if t >= 456 {
            if ly + 1 >= 154 {
                (Mode::OamSearch, 0u8, (t - 456) as u64)
            } else {
                (Mode::VBlank, (ly + 1) as u8, (t - 456) as u64)
            }
        } else {
            (Mode::VBlank, ly, t)
        },
    }
}

/// The line timing after `n` t-cycles.
pub open spec fn timing_after(mode: Mode, ly: u8, ticks: u64, n: nat) -> (Mode, u8, u64)
    decreases n,
{
    if n == 0 {
        (mode, ly, ticks)
    } else {
        let s = timing_step(mode, ly, ticks);
        timing_after(s.0, s.1, s.2, (n - 1) as nat)
    }
}

/// The t-cycle enters VBLANK (and requests the VBLANK interrupt).
pub open spec fn enters_vblank(mode: Mode, ly: u8, ticks: u64) -> bool {
    mode == Mode::HBlank && ticks + 1 >= 456 && ly + 1 >= 144
}

/// The interrupt controller after the requests of one t-cycle: VBLANK first,
/// then LCD_STAT.
pub open spec fn with_requests(i: Interrupts, vblank: bool, stat: bool) -> Interrupts {
    let i1 = if vblank {
        i.requested(InterruptType::VBLANK)
    } else {
        i
    };
    if stat {
        i1.requested(InterruptType::LCDSTAT)
    } else {
        i1
    }
}

/// Where the tile data of a tile index starts in VRAM.
pub open spec fn tile_data_address(unsigned_area: bool, idx: u8) -> int {
    if unsigned_area {
        idx as int * 16
    } else if idx < 128 {
        0x1000 + idx as int * 16
    } else {
        0x1000 + (idx as int - 256) * 16
    }
}

/// The colour id of the pixel (px, py) of the tile whose data starts at `addr`.
pub open spec fn tile_color_id(vram: Seq<u8>, addr: int, px: int, py: int) -> int {
    let row = addr + (py % 8) * 2;
    let bit = (7 - px % 8) as u8;
    bb(bit8(vram[row + 1], bit), 2) + bb(bit8(vram[row], bit), 1)
}

/// The colour id at (px, py) of the 256x256 map whose tile indices start at `map`.
pub open spec fn map_color_id(vram: Seq<u8>, map: int, unsigned_area: bool, px: int, py: int) -> int {
    let idx = vram[map + (py / 8) * 32 + px / 8];
    tile_color_id(vram, tile_data_address(unsigned_area, idx), px, py)
}

impl PPU {
    pub open spec fn wf(self) -> bool {
        &&& self.vram@.len() == VRAM_SIZE
        &&& self.oam@.len() == OAM_COUNT
        &&& self.active_sprites@.len() <= MAX_SPRITES_PER_LINE
        &&& self.buffer@.len() == SCREEN_WIDTH * SCREEN_HEIGHT
        &&& self.background_priority@.len() == SCREEN_WIDTH
        &&& self.ticks < 456
        &&& self.stat.mode() == Mode::OamSearch ==> self.ticks < 80
        &&& self.stat.mode() == Mode::LcdTransfer ==> self.ticks < 252
        &&& self.ly < 154
        &&& self.stat.mode() != Mode::VBlank ==> self.ly < 144
        &&& self.stat.lyc_ly_eq_flag == (self.ly == self.lyc)
        &&& self.dma_cycles <= 160
        &&& self.dma_mode ==> self.dma_cycles < 160
    }

    /// The window covers column x of the current line.
    pub open spec fn window_at(self, x: int) -> bool {
        self.lcdc.window_enable && x + 7 >= self.wx && self.ly >= self.wy
    }

    /// The background/window colour id of column x of the current line.
    pub open spec fn bg_color_id(self, x: int) -> int {
        if self.window_at(x) {
            map_color_id(
                self.vram@,
                if self.lcdc.window_tile_map_area { 0x1C00 } else { 0x1800 },
                self.lcdc.bg_tile_data_area,
                x + 7 - self.wx,
                self.ly - self.wy,
            )
        } else {
            map_color_id(
                self.vram@,
                if self.lcdc.bg_tile_map_area { 0x1C00 } else { 0x1800 },
                self.lcdc.bg_tile_data_area,
                (x + self.scx) % 256,
                (self.ly + self.scy) % 256,
            )
        }
    }

    /// The shade that the background pass gives column x of the current line.
    pub open spec fn bg_shade(self, x: int) -> u8 {
        if self.lcdc.bg_priority {
            palette_shade(self.bg_palette.value, self.bg_color_id(x))
        } else {
            0
        }
    }

    /// A sprite is on line `ly` for the given height.
    pub open spec fn sprite_on_line(sprite: OamEntry, ly: u8, height: int) -> bool {
        sprite.y_pos - 16 <= ly && ly < sprite.y_pos - 16 + height
    }

    pub open spec fn sprite_height(self) -> int {
        if self.lcdc.obj_size { 16 } else { 8 }
    }

    pub open spec fn read_spec(self, address: u16) -> u8 {
        if address == 0xFF40 {
            lcdc_byte(self.lcdc)
        } else if address == 0xFF41 {
            stat_byte(self.stat)
        } else if address == 0xFF42 {
            self.scy
        } else if address == 0xFF43 {
            self.scx
        } else if address == 0xFF44 {
            self.ly
        } else if address == 0xFF45 {
            self.lyc
        } else if address == 0xFF46 {
            self.dma
        } else if address == 0xFF47 {
            self.bg_palette.value
        } else if address == 0xFF48 {
            self.obj_palette_0.value
        } else if address == 0xFF49 {
            self.obj_palette_1.value
        } else if address == 0xFF4A {
            self.wy
        } else if address == 0xFF4B {
            self.wx
        } else if 0xFE00 <= address <= 0xFE9F {
            if self.dma_mode {
                0xFF
            } else {
                self.oam@[(address - 0xFE00) / 4].field((address - 0xFE00) % 4)
            }
        } else if !self.lcdc.enable_lcd || self.stat.mode() == Mode::LcdTransfer {
            0xFF
        } else {
            self.vram@[address - 0x8000]
        }
    }

    pub fn new() -> (r: Self)
        ensures
            r.wf(),
            r.ly == 0 && r.lyc == 0 && r.ticks == 0,
            r.stat.mode() == Mode::OamSearch,
            !r.dma_mode,
    {
        let mut oam: Vec<OamEntry> = Vec::new();
        let mut i: usize = 0;
        while i < OAM_COUNT
            invariant
                i <= OAM_COUNT,
                oam@.len() == i,
            decreases OAM_COUNT - i,
        {
            oam.push(OamEntry::new());
            i = i + 1;
        }
        let mut buffer: Vec<Pixel> = Vec::new();
        let mut j: usize = 0;
        while j < SCREEN_WIDTH * SCREEN_HEIGHT
            invariant
                j <= SCREEN_WIDTH * SCREEN_HEIGHT,
                buffer@.len() == j,
            decreases SCREEN_WIDTH * SCREEN_HEIGHT - j,
        {
            buffer.push(Pixel::new(Color::C0));
            j = j + 1;
        }
        PPU {
            ticks: 0,
            dma_mode: false,
            dma_cycles: 0,
            dma: 0xFF,
            vram: vec![0u8; VRAM_SIZE],
            oam,
            active_sprites: Vec::new(),
            lcdc: Lcdc::new(0x91),
            ly: 0,
            lyc: 0,
            stat: Stat {
                unused: true,
                lyc_ly_eq_interrupt: false,
                oam_interrupt: false,
                vblank_interrupt: false,
                hblank_interrupt: false,
                lyc_ly_eq_flag: true,
                mode_bit_1: true,
                mode_bit_0: false,
            },
            scy: 0,
            scx: 0,
            wy: 0,
            wx: 0,
            bg_palette: Palette::new(0xFC),
            obj_palette_0: Palette::new(0x00),
            obj_palette_1: Palette::new(0x00),
            buffer,
            background_priority: vec![false; SCREEN_WIDTH],
        }
    }

    /// Whether the t-cycle that follows requests LCD_STAT.
    pub open spec fn stat_request(self) -> bool {
        let t = self.ticks + 1;
        match self.stat.mode() {
            Mode::OamSearch => false,
            Mode::LcdTransfer => t >= 252 && self.stat.hblank_interrupt,
            Mode::HBlank => t >= 456 && ((self.ly + 1 == self.lyc && self.stat.lyc_ly_eq_interrupt)
                || (if self.ly + 1 >= 144 {
                self.stat.vblank_interrupt
            } else {
                self.stat.oam_interrupt
            })),
            Mode::VBlank => t >= 456 && (if self.ly + 1 >= 154 {
                (self.lyc == 0 && self.stat.lyc_ly_eq_interrupt) || self.stat.oam_interrupt
            } else {
                self.ly + 1 == self.lyc && self.stat.lyc_ly_eq_interrupt
            }),
        }
    }

    /// The registers, memories and DMA state that the line timing leaves alone.
    pub open spec fn same_memory(self, other: PPU) -> bool {
        &&& self.vram@ == other.vram@
        &&& self.oam@ == other.oam@
        &&& self.lcdc == other.lcdc
        &&& self.lyc == other.lyc
        &&& self.scy == other.scy
        &&& self.scx == other.scx
        &&& self.wy == other.wy
        &&& self.wx == other.wx
        &&& self.bg_palette == other.bg_palette
        &&& self.obj_palette_0 == other.obj_palette_0
        &&& self.obj_palette_1 == other.obj_palette_1
        &&& self.dma_mode == other.dma_mode
        &&& self.dma_cycles == other.dma_cycles
        &&& self.dma == other.dma
        &&& self.stat.lyc_ly_eq_interrupt == other.stat.lyc_ly_eq_interrupt
        &&& self.stat.oam_interrupt == other.stat.oam_interrupt
        &&& self.stat.vblank_interrupt == other.stat.vblank_interrupt
        &&& self.stat.hblank_interrupt == other.stat.hblank_interrupt
    }

    /// Sets LY and the coincidence flag; returns whether the LYC == LY source
    /// requests LCD_STAT.
    fn set_ly(&mut self, ly: u8) -> (r: bool)
        requires
            old(self).wf(),
            ly < 154,
            old(self).stat.mode() != Mode::VBlank ==> ly < 144,
        ensures
            final(self).wf(),
            final(self).ly == ly,
            final(self).same_memory(*old(self)),
            final(self).stat.mode() == old(self).stat.mode(),
            final(self).stat == (Stat { lyc_ly_eq_flag: final(self).stat.lyc_ly_eq_flag, ..old(self).stat }),
            final(self).ticks == old(self).ticks,
            final(self).buffer@ == old(self).buffer@,
            final(self).active_sprites@ == old(self).active_sprites@,
            final(self).background_priority@ == old(self).background_priority@,
            r == (ly == old(self).lyc && old(self).stat.lyc_ly_eq_interrupt),
    {
        self.ly = ly;
        let eq = self.ly == self.lyc;
        self.stat.set_lyc_ly_eq_flag(eq);
        eq && self.stat.lyc_ly_eq_interrupt
    }

    fn set_mode(&mut self, mode: Mode, ticks: u64)
        requires
            old(self).wf(),
            mode != Mode::VBlank ==> old(self).ly < 144,
            ticks < 456,
            mode == Mode::OamSearch ==> ticks < 80,
            mode == Mode::LcdTransfer ==> ticks < 252,
        ensures
            final(self).wf(),
            final(self).stat.mode() == mode,
            final(self).ly == old(self).ly,
            final(self).same_memory(*old(self)),
            final(self).ticks == ticks,
            final(self).buffer@ == old(self).buffer@,
            final(self).active_sprites@ == old(self).active_sprites@,
            final(self).background_priority@ == old(self).background_priority@,
    {
        self.ticks = ticks;
        self.stat.set_mode(mode);
    }

    /// Starts a DMA from the page `byte`.
    pub fn start_dma_transfer(&mut self, byte: u8)
        requires
            old(self).wf(),
        ensures
            final(self).wf(),
            final(self).dma_mode,
            final(self).dma == byte,
            final(self).dma_cycles == 0,
            final(self).vram@ == old(self).vram@,
            final(self).oam@ == old(self).oam@,
            *final(self) == (PPU { dma_mode: true, dma: byte, dma_cycles: 0, ..*old(self) }),
    {
        self.dma_mode = true;
        self.dma = byte;
        self.dma_cycles = 0;
    }

    /// Stores a byte of the sprite table by its offset from 0xFE00.
    pub fn write_oam(&mut self, offset: usize, byte: u8)
        requires
            old(self).wf(),
            offset < 160,
        ensures
            final(self).wf(),
            final(self).oam@ == old(self).oam@.update(
                offset as int / 4,
                old(self).oam@[offset as int / 4].with_field(byte, offset as int % 4),
            ),
            final(self).vram@ == old(self).vram@,
            final(self).dma_mode == old(self).dma_mode,
            final(self).dma_cycles == old(self).dma_cycles,
            final(self).dma == old(self).dma,
            final(self).stat == old(self).stat,
            final(self).ly == old(self).ly,
            final(self).ticks == old(self).ticks,
            final(self).lcdc == old(self).lcdc,
            final(self).lyc == old(self).lyc,
            final(self).scy == old(self).scy,
            final(self).scx == old(self).scx,
            final(self).wy == old(self).wy,
            final(self).wx == old(self).wx,
            final(self).bg_palette == old(self).bg_palette,
            final(self).obj_palette_0 == old(self).obj_palette_0,
            final(self).obj_palette_1 == old(self).obj_palette_1,
            final(self).buffer@ == old(self).buffer@,
            final(self).active_sprites@ == old(self).active_sprites@,
            final(self).background_priority@ == old(self).background_priority@,
    {
        let idx = offset / 4;
        let mut entry = self.oam[idx];
        entry.set_field(byte, offset % 4);
        self.oam.set(idx, entry);
    }

    /// One step of a running DMA: the byte copied to the sprite table counts,
    /// and the transfer ends after 160 bytes.
    pub fn dma_step(&mut self, byte: u8)
        requires
            old(self).wf(),
            old(self).dma_mode,
            old(self).dma_cycles < 160,
        ensures
            final(self).wf(),
            final(self).oam@ == old(self).oam@.update(
                old(self).dma_cycles as int / 4,
                old(self).oam@[old(self).dma_cycles as int / 4].with_field(
                    byte,
                    old(self).dma_cycles as int % 4,
                ),
            ),
            final(self).dma_cycles == old(self).dma_cycles + 1,
            final(self).dma_mode == (old(self).dma_cycles + 1 < 160),
            final(self).dma == old(self).dma,
            final(self).vram@ == old(self).vram@,
            final(self).stat == old(self).stat,
            final(self).ly == old(self).ly,
            final(self).ticks == old(self).ticks,
    {
        self.write_oam(self.dma_cycles as usize, byte);
        self.dma_cycles = self.dma_cycles + 1;
        if self.dma_cycles >= 160 {
            self.dma_mode = false;
        }
    }

    pub fn read(&self, address: u16) -> (r: u8)
        requires
            self.wf(),
            0x8000 <= address <= 0x9FFF || 0xFE00 <= address <= 0xFE9F || 0xFF40 <= address
                <= 0xFF4B,
        ensures
            r == self.read_spec(address),
    {
        if address == 0xFF40 {
            self.lcdc.to_byte()
        } else if address == 0xFF41 {
            self.stat.to_byte()
        } else if address == 0xFF42 {
            self.scy
        } else if address == 0xFF43 {
            self.scx
        } else if address == 0xFF44 {
            self.ly
        } else if address == 0xFF45 {
            self.lyc
        } else if address == 0xFF46 {
            self.dma
        } else if address == 0xFF47 {
            self.bg_palette.to_byte()
        } else if address == 0xFF48 {
            self.obj_palette_0.to_byte()
        } else if address == 0xFF49 {
            self.obj_palette_1.to_byte()
        } else if address == 0xFF4A {
            self.wy
        } else if address == 0xFF4B {
            self.wx
        } else if 0xFE00 <= address && address <= 0xFE9F {
            if self.dma_mode {
                0xFF
            } else {
                let off = (address - 0xFE00) as usize;
                self.oam[off / 4].get_field(off % 4)
            }
        } else if !self.lcdc.is_lcd_enabled() {
            0xFF
        } else if self.stat.get_mode() == Mode::LcdTransfer {
            0xFF
        } else {
            self.vram[(address - 0x8000) as usize]
        }
    }

    /// `self` is `old` after a bus write of `byte` to `address`.
    pub open spec fn written(self, old: PPU, address: u16, byte: u8) -> bool {
        &&& self.wf()
        &&& self.ticks == old.ticks
        &&& self.buffer@ == old.buffer@
        &&& self.active_sprites@ == old.active_sprites@
        &&& self.background_priority@ == old.background_priority@
        &&& self.stat.mode() == old.stat.mode()
        &&& (if 0xFE00 <= address <= 0xFE9F {
            self.oam@ == old.oam@.update(
                (address - 0xFE00) / 4,
                old.oam@[(address - 0xFE00) / 4].with_field(byte, (address - 0xFE00) % 4),
            )
        } else {
            self.oam@ == old.oam@
        })
        &&& (if 0x8000 <= address <= 0x9FFF {
            self.vram@ == old.vram@.update(address - 0x8000, byte)
        } else {
            self.vram@ == old.vram@
        })
        &&& (if address == 0xFF46 {
            self.dma_mode && self.dma == byte && self.dma_cycles == 0
        } else {
            self.dma_mode == old.dma_mode && self.dma == old.dma && self.dma_cycles
                == old.dma_cycles
        })
        &&& self.lcdc == (if address == 0xFF40 { lcdc_of(byte) } else { old.lcdc })
        &&& self.scy == (if address == 0xFF42 { byte } else { old.scy })
        &&& self.scx == (if address == 0xFF43 { byte } else { old.scx })
        &&& self.ly == (if address == 0xFF44 { 0 } else { old.ly })
        &&& self.lyc == (if address == 0xFF45 { byte } else { old.lyc })
        &&& self.bg_palette.value == (if address == 0xFF47 { byte } else { old.bg_palette.value })
        &&& self.obj_palette_0.value == (if address == 0xFF48 {
            byte
        } else {
            old.obj_palette_0.value
        })
        &&& self.obj_palette_1.value == (if address == 0xFF49 {
            byte
        } else {
            old.obj_palette_1.value
        })
        &&& self.wy == (if address == 0xFF4A { byte } else { old.wy })
        &&& self.wx == (if address == 0xFF4B { byte } else { old.wx })
        &&& (if address == 0xFF41 {
            &&& self.stat.lyc_ly_eq_interrupt == bit8(byte, 6)
            &&& self.stat.oam_interrupt == bit8(byte, 5)
            &&& self.stat.vblank_interrupt == bit8(byte, 4)
            &&& self.stat.hblank_interrupt == bit8(byte, 3)
        } else {
            &&& self.stat.lyc_ly_eq_interrupt == old.stat.lyc_ly_eq_interrupt
            &&& self.stat.oam_interrupt == old.stat.oam_interrupt
            &&& self.stat.vblank_interrupt == old.stat.vblank_interrupt
            &&& self.stat.hblank_interrupt == old.stat.hblank_interrupt
        })
        &&& self.stat.unused == old.stat.unused
    }

    /// A write from the bus. STAT keeps its mode and coincidence bits, a write
    /// to LY resets it, and a write to 0xFF46 starts a DMA.
    #[verifier::rlimit(100)]
    pub fn write(&mut self, address: u16, byte: u8)
        requires
            old(self).wf(),
            0x8000 <= address <= 0x9FFF || 0xFE00 <= address <= 0xFE9F || 0xFF40 <= address
                <= 0xFF4B,
        ensures
            final(self).written(*old(self), address, byte),
    {
        if 0xFE00 <= address && address <= 0xFE9F {
            self.write_oam((address - 0xFE00) as usize, byte);
        } else if 0x8000 <= address && address <= 0x9FFF {
            self.vram.set((address - 0x8000) as usize, byte);
        } else if address <= 0xFF45 {
            self.write_control(address, byte);
        } else {
            self.write_palette_or_window(address, byte);
        }
    }

    /// LCDC, STAT, SCY, SCX, LY and LYC.
    #[verifier::rlimit(100)]
    fn write_control(&mut self, address: u16, byte: u8)
        requires
            old(self).wf(),
            0xFF40 <= address <= 0xFF45,
        ensures
            final(self).written(*old(self), address, byte),
    {
        if address == 0xFF41 {
            self.write_stat(byte);
        } else if address == 0xFF44 || address == 0xFF45 {
            self.write_ly_lyc(address, byte);
        } else if address == 0xFF40 {
            self.lcdc = Lcdc::new(byte);
        } else if address == 0xFF42 {
            self.scy = byte;
        } else {
            self.scx = byte;
        }
    }

    /// STAT: only the four interrupt-enable bits are writable.
    fn write_stat(&mut self, byte: u8)
        requires
            old(self).wf(),
        ensures
            final(self).written(*old(self), 0xFF41, byte),
    {
        let written = Stat::new(byte);
        self.stat.lyc_ly_eq_interrupt = written.lyc_ly_eq_interrupt;
        self.stat.oam_interrupt = written.oam_interrupt;
        self.stat.vblank_interrupt = written.vblank_interrupt;
        self.stat.hblank_interrupt = written.hblank_interrupt;
    }

    /// A write to LY resets it; a write to LYC sets it. Both update the
    /// coincidence flag.
    #[verifier::rlimit(60)]
    fn write_ly_lyc(&mut self, address: u16, byte: u8)
        requires
            old(self).wf(),
            address == 0xFF44 || address == 0xFF45,
        ensures
            final(self).written(*old(self), address, byte),
    {
        if address == 0xFF44 {
            self.set_ly(0);
        } else {
            self.lyc = byte;
            let eq = self.ly == self.lyc;
            self.stat.set_lyc_ly_eq_flag(eq);
        }
    }

    /// DMA, BGP, OBP0, OBP1, WY and WX.
    #[verifier::rlimit(100)]
    fn write_palette_or_window(&mut self, address: u16, byte: u8)
        requires
            old(self).wf(),
            0xFF46 <= address <= 0xFF4B,
        ensures
            final(self).written(*old(self), address, byte),
    {
        if address == 0xFF46 {
            self.start_dma_transfer(byte);
        } else if address == 0xFF47 {
            self.bg_palette = Palette::new(byte);
        } else if address == 0xFF48 {
            self.obj_palette_0 = Palette::new(byte);
        } else if address == 0xFF49 {
            self.obj_palette_1 = Palette::new(byte);
        } else if address == 0xFF4A {
            self.wy = byte;
        } else {
            self.wx = byte;
        }
    }

    /// The rows of the framebuffer other than the current line are unchanged.
    pub open spec fn other_rows_kept(self, old: PPU) -> bool {
        &&& self.buffer@.len() == old.buffer@.len()
        &&& forall|i: int|
            0 <= i < self.buffer@.len() && i / 160 != old.ly ==> #[trigger] self.buffer@[i]
                == old.buffer@[i]
    }

    /// Advances the PPU by one t-cycle.
    pub fn tick(&mut self, interrupts: &mut Interrupts)
        requires
            old(self).wf(),
        ensures
            final(self).wf(),
            (final(self).stat.mode(), final(self).ly, final(self).ticks) == timing_step(
                old(self).stat.mode(),
                old(self).ly,
                old(self).ticks,
            ),
            *final(interrupts) == with_requests(
                *old(interrupts),
                enters_vblank(old(self).stat.mode(), old(self).ly, old(self).ticks),
                old(self).stat_request(),
            ),
            final(self).same_memory(*old(self)),
            final(self).other_rows_kept(*old(self)),
            old(self).stat.mode() == Mode::LcdTransfer && old(self).ticks + 1 >= 252
                && old(self).lcdc.enable_lcd ==> final(self).line_rendered(*old(self)),
    {
        let (vblank, stat_irq) = match self.stat.get_mode() {
            Mode::OamSearch => {
                self.oam_search_mode();
                (false, false)
            },
            Mode::LcdTransfer => (false, self.lcd_transfer_mode()),
            Mode::HBlank => self.hblank_mode(),
            Mode::VBlank => (false, self.vblank_mode()),
        };
        if vblank {
            interrupts.create_interrupt(InterruptType::VBLANK);
        }
        if stat_irq {
            interrupts.create_interrupt(InterruptType::LCDSTAT);
        }
    }

    fn oam_search_mode(&mut self)
        requires
            old(self).wf(),
            old(self).stat.mode() == Mode::OamSearch,
        ensures
            final(self).wf(),
            (final(self).stat.mode(), final(self).ly, final(self).ticks) == timing_step(
                old(self).stat.mode(),
                old(self).ly,
                old(self).ticks,
            ),
            final(self).same_memory(*old(self)),
            final(self).buffer@ == old(self).buffer@,
    {
        let t = self.ticks + 1;
        if t >= OAM_TICK_LIMIT {
            self.load_active_sprites();
            self.set_mode(Mode::LcdTransfer, t);
        } else {
            self.ticks = t;
        }
    }

    /// Returns whether LCD_STAT is requested.
    fn lcd_transfer_mode(&mut self) -> (r: bool)
        requires
            old(self).wf(),
            old(self).stat.mode() == Mode::LcdTransfer,
        ensures
            final(self).wf(),
            (final(self).stat.mode(), final(self).ly, final(self).ticks) == timing_step(
                old(self).stat.mode(),
                old(self).ly,
                old(self).ticks,
            ),
            r == old(self).stat_request(),
            final(self).same_memory(*old(self)),
            final(self).other_rows_kept(*old(self)),
            old(self).ticks + 1 >= 252 && old(self).lcdc.enable_lcd ==> final(self).line_rendered(
                *old(self),
            ),
    {
        let t = self.ticks + 1;
        if t >= LCD_TRANSFER_TICK_LIMIT + OAM_TICK_LIMIT {
            self.render_line_to_buffer();
            let ghost rendered = *self;
            self.set_mode(Mode::HBlank, t);
            proof {
                if old(self).lcdc.enable_lcd {
                    lemma_line_rendered_kept(rendered, *self, *old(self));
                }
            }
            self.stat.hblank_interrupt
        } else {
            self.ticks = t;
            false
        }
    }

    /// Returns whether VBLANK and LCD_STAT are requested.
    #[verifier::rlimit(40)]
    fn hblank_mode(&mut self) -> (r: (bool, bool))
        requires
            old(self).wf(),
            old(self).stat.mode() == Mode::HBlank,
        ensures
            final(self).wf(),
            (final(self).stat.mode(), final(self).ly, final(self).ticks) == timing_step(
                old(self).stat.mode(),
                old(self).ly,
                old(self).ticks,
            ),
            r.0 == enters_vblank(old(self).stat.mode(), old(self).ly, old(self).ticks),
            r.1 == old(self).stat_request(),
            final(self).same_memory(*old(self)),
            final(self).buffer@ == old(self).buffer@,
    {
        let t = self.ticks + 1;
        if t < HBLANK_TICK_LIMIT {
            self.ticks = t;
            (false, false)
        } else if self.ly + 1 >= VBLANK_LINE_LIMIT {
            self.set_mode(Mode::VBlank, t - HBLANK_TICK_LIMIT);
            let eq = self.set_ly(self.ly + 1);
            (true, eq || self.stat.vblank_interrupt)
        } else {
            let eq = self.set_ly(self.ly + 1);
            self.set_mode(Mode::OamSearch, t - HBLANK_TICK_LIMIT);
            (false, eq || self.stat.oam_interrupt)
        }
    }

    /// Returns whether LCD_STAT is requested.
    #[verifier::rlimit(60)]
    fn vblank_mode(&mut self) -> (r: bool)
        requires
            old(self).wf(),
            old(self).stat.mode() == Mode::VBlank,
        ensures
            final(self).wf(),
            (final(self).stat.mode(), final(self).ly, final(self).ticks) == timing_step(
                old(self).stat.mode(),
                old(self).ly,
                old(self).ticks,
            ),
            r == old(self).stat_request(),
            final(self).same_memory(*old(self)),
            final(self).buffer@ == old(self).buffer@,
    {
        let t = self.ticks + 1;
        if t < HBLANK_TICK_LIMIT {
            self.ticks = t;
            false
        } else if self.ly + 1 >= MAX_LINE_LIMIT {
            self.start_frame()
        } else {
            self.ticks = t - HBLANK_TICK_LIMIT;
            self.set_ly(self.ly + 1)
        }
    }

    /// The last VBLANK line ends: LY returns to 0 and OAM search begins.
    /// Returns whether LCD_STAT is requested.
    fn start_frame(&mut self) -> (r: bool)
        requires
            old(self).wf(),
            old(self).stat.mode() == Mode::VBlank,
            old(self).ticks + 1 >= 456,
            old(self).ly + 1 >= 154,
        ensures
            final(self).wf(),
            final(self).stat.mode() == Mode::OamSearch,
            final(self).ly == 0,
            final(self).ticks == 0,
            r == ((old(self).lyc == 0 && old(self).stat.lyc_ly_eq_interrupt) || old(
                self,
            ).stat.oam_interrupt),
            final(self).same_memory(*old(self)),
            final(self).buffer@ == old(self).buffer@,
    {
        let eq = self.set_ly(0);
        self.set_mode(Mode::OamSearch, 0);
        eq || self.stat.oam_interrupt
    }

    /// The sprites of OAM on line `ly`, in OAM order, at most ten of them.
    pub open spec fn line_sprites(oam: Seq<OamEntry>, ly: u8, height: int) -> Seq<OamEntry> {
        let all = oam.filter(|s: OamEntry| PPU::sprite_on_line(s, ly, height));
        if all.len() <= MAX_SPRITES_PER_LINE {
            all
        } else {
            all.take(MAX_SPRITES_PER_LINE as int)
        }
    }

    /// Collects the sprites of the current line, at most ten, in OAM order.
    fn load_active_sprites(&mut self)
        requires
            old(self).wf(),
        ensures
            final(self).wf(),
            final(self).same_memory(*old(self)),
            final(self).stat == old(self).stat,
            final(self).ly == old(self).ly,
            final(self).ticks == old(self).ticks,
            final(self).buffer@ == old(self).buffer@,
            final(self).background_priority@ == old(self).background_priority@,
            final(self).active_sprites@ == PPU::line_sprites(
                old(self).oam@,
                old(self).ly,
                old(self).sprite_height(),
            ),
    {
        let height: u8 = if self.lcdc.obj_size {
            16
        } else {
            8
        };
        let line = self.ly;
        let ghost pred = |s: OamEntry| PPU::sprite_on_line(s, line, height as int);
        let mut active: Vec<OamEntry> = Vec::new();
        let mut i: usize = 0;
        proof {
            reveal(Seq::filter);
            assert(self.oam@.subrange(0, 0).filter(pred) =~= Seq::<OamEntry>::empty());
        }
        while i < OAM_COUNT && active.len() < MAX_SPRITES_PER_LINE
            invariant
                self.wf(),
                line == self.ly,
                height as int == self.sprite_height(),
                pred == (|s: OamEntry| PPU::sprite_on_line(s, line, height as int)),
                i <= OAM_COUNT,
                active@.len() <= MAX_SPRITES_PER_LINE,
                active@ == self.oam@.subrange(0, i as int).filter(pred),
            decreases OAM_COUNT - i,
        {
            let sprite = self.oam[i];
            proof {
                let pre = self.oam@.subrange(0, i as int);
                let next = self.oam@.subrange(0, i + 1);
                assert(next.drop_last() =~= pre);
                assert(next.last() == sprite);
                reveal(Seq::filter);
            }
            if sprite.y_pos as u16 <= line as u16 + 16 && (line as u16 + 16) < sprite.y_pos as u16
                + height as u16 {
                active.push(sprite);
            }
            i = i + 1;
        }
        proof {
            let all = self.oam@.filter(pred);
            let pre = self.oam@.subrange(0, i as int);
            let rest = self.oam@.subrange(i as int, OAM_COUNT as int);
            assert(self.oam@ =~= pre + rest);
            Seq::filter_distributes_over_add(pre, rest, pred);
            if i == OAM_COUNT {
                assert(pre =~= self.oam@);
                rest.lemma_filter_len(pred);
                assert(rest =~= Seq::<OamEntry>::empty());
                reveal(Seq::filter);
                assert(rest.filter(pred) =~= Seq::<OamEntry>::empty());
                assert(all =~= active@);
            } else {
                assert(active@.len() == MAX_SPRITES_PER_LINE);
                assert(all.take(MAX_SPRITES_PER_LINE as int) =~= active@);
            }
        }
        self.active_sprites = active;
    }

    fn render_line_to_buffer(&mut self)
        requires
            old(self).wf(),
            old(self).ly < 144,
        ensures
            final(self).wf(),
            final(self).same_memory(*old(self)),
            final(self).stat == old(self).stat,
            final(self).ly == old(self).ly,
            final(self).ticks == old(self).ticks,
            final(self).active_sprites@ == old(self).active_sprites@,
            final(self).other_rows_kept(*old(self)),
            old(self).lcdc.enable_lcd ==> final(self).line_rendered(*old(self)),
            !old(self).lcdc.enable_lcd ==> final(self).buffer@ == old(self).buffer@,
    {
        if !self.lcdc.is_lcd_enabled() {
            return;
        }
        self.render_line();
        let ghost mid = *self;
        self.render_sprite_line();
        assert forall|c: int| 0 <= c < 160 implies #[trigger] self.winner(
            old(self).active_sprites@.len() as int,
            c,
        ) == mid.winner(old(self).active_sprites@.len() as int, c) by {
            lemma_winner_same(*self, mid, old(self).active_sprites@.len() as int, c);
        }
        assert forall|c: int| 0 <= c < 160 implies #[trigger] self.sprite_shade(
            self.winner(old(self).active_sprites@.len() as int, c).unwrap(),
            c,
        ) == mid.sprite_shade(self.winner(old(self).active_sprites@.len() as int, c).unwrap(), c) by {
        }
        assert(self.line_rendered(*old(self)));
    }

    /// Whether the window covers column x of the current line.
    pub fn is_window(&self, x: u8) -> (r: bool)
        ensures
            r == self.window_at(x as int),
    {
        self.lcdc.window_enable && x as u16 + 7 >= self.wx as u16 && self.ly >= self.wy
    }

    /// The tile index at pixel (x_offset, y_offset) of the map at `tilemap`.
    fn get_tile_offset_from_map(&self, x_offset: u8, y_offset: u8, tilemap: usize) -> (r: u8)
        requires
            self.wf(),
            tilemap == 0x1800 || tilemap == 0x1C00,
        ensures
            r == self.vram@[tilemap + (y_offset / 8) * 32 + x_offset / 8],
    {
        let tile_x = (x_offset as usize) / 8;
        let tile_y = (y_offset as usize / 8) * 32;
        self.vram[tilemap + tile_x + tile_y]
    }

    /// Where the data of tile `offset` starts in VRAM.
    fn get_tile_address(&self, offset: u8) -> (r: usize)
        ensures
            r == tile_data_address(self.lcdc.bg_tile_data_area, offset),
            r + 16 <= VRAM_SIZE,
    {
        if self.lcdc.bg_tile_data_area {
            offset as usize * 16
        } else if offset < 128 {
            0x1000 + offset as usize * 16
        } else {
            0x1000 - (256 - offset as usize) * 16
        }
    }

    /// The colour id at pixel (px, py) of a map.
    fn map_pixel_id(&self, px: u8, py: u8, tilemap: usize) -> (r: usize)
        requires
            self.wf(),
            tilemap == 0x1800 || tilemap == 0x1C00,
        ensures
            r == map_color_id(self.vram@, tilemap as int, self.lcdc.bg_tile_data_area, px as int, py as int),
            r < 4,
    {
        let idx = self.get_tile_offset_from_map(px, py, tilemap);
        let base = self.get_tile_address(idx);
        let row = base + (py % 8) as usize * 2;
        let low = self.vram[row];
        let high = self.vram[row + 1];
        let bit = 7 - px % 8;
        Palette::palette_index(is_bit_set(high, bit as usize), is_bit_set(low, bit as usize))
    }

    /// The background/window colour id of column x of the current line.
    fn background_pixel_id(&self, x: u8) -> (r: usize)
        requires
            self.wf(),
            x < 160,
        ensures
            r == self.bg_color_id(x as int),
            r < 4,
    {
        if self.is_window(x) {
            let tilemap: usize = if self.lcdc.window_tile_map_area {
                0x1C00
            } else {
                0x1800
            };
            let px = (x as u16 + 7 - self.wx as u16) as u8;
            let py = self.ly - self.wy;
            self.map_pixel_id(px, py, tilemap)
        } else {
            let tilemap: usize = if self.lcdc.bg_tile_map_area {
                0x1C00
            } else {
                0x1800
            };
            let px = ((x as u16 + self.scx as u16) % 256) as u8;
            let py = ((self.ly as u16 + self.scy as u16) % 256) as u8;
            self.map_pixel_id(px, py, tilemap)
        }
    }

    fn write_pixel(&mut self, x: u8, pixel: Pixel)
        requires
            old(self).wf(),
            x < 160,
            old(self).ly < 144,
        ensures
            final(self).wf(),
            final(self).buffer@ == old(self).buffer@.update(old(self).ly * 160 + x, pixel),
            final(self).same_memory(*old(self)),
            final(self).stat == old(self).stat,
            final(self).ly == old(self).ly,
            final(self).ticks == old(self).ticks,
            final(self).active_sprites@ == old(self).active_sprites@,
            final(self).background_priority@ == old(self).background_priority@,
    {
        let ly = self.ly as usize;
        assert(ly * 160 + x < 23040) by (nonlinear_arith)
            requires
                ly < 144,
                x < 160,
        ;
        self.buffer.set(ly * SCREEN_WIDTH + x as usize, pixel);
    }

    /// The background pass of the current line: each column takes the shade of
    /// its background or window pixel, or shade 0 when both are switched off.
    fn render_line(&mut self)
        requires
            old(self).wf(),
            old(self).ly < 144,
        ensures
            final(self).wf(),
            final(self).same_memory(*old(self)),
            final(self).stat == old(self).stat,
            final(self).ly == old(self).ly,
            final(self).ticks == old(self).ticks,
            final(self).active_sprites@ == old(self).active_sprites@,
            final(self).other_rows_kept(*old(self)),
            forall|x: int|
                0 <= x < 160 ==> (#[trigger] final(self).buffer@[old(self).ly * 160 + x]).color.shade()
                    == old(self).bg_shade(x),
            forall|x: int|
                0 <= x < 160 ==> #[trigger] final(self).background_priority@[x] == (
                !old(self).lcdc.bg_priority || old(self).bg_color_id(x) == 0),
    {
        let ghost start = *self;
        let mut x: u8 = 0;
        while x < 160
            invariant
                self.wf(),
                self.ly < 144,
                self.same_memory(start),
                self.stat == start.stat,
                self.ly == start.ly,
                self.ticks == start.ticks,
                self.active_sprites@ == start.active_sprites@,
                self.other_rows_kept(start),
                x <= 160,
                forall|c: int|
                    0 <= c < x ==> (#[trigger] self.buffer@[start.ly * 160 + c]).color.shade()
                        == start.bg_shade(c),
                forall|c: int|
                    0 <= c < x ==> #[trigger] self.background_priority@[c] == (
                    !start.lcdc.bg_priority || start.bg_color_id(c) == 0),
            decreases 160 - x,
        {
            let ghost before = *self;
            let (shade, id) = if self.lcdc.bg_priority {
                let id = self.background_pixel_id(x);
                (self.bg_palette.get_color(id), id)
            } else {
                (Color::C0, 0)
            };
            self.background_priority.set(x as usize, id == 0);
            self.write_pixel(x, Pixel::new(shade));
            assert forall|c: int|
                0 <= c < x + 1 implies (#[trigger] self.buffer@[start.ly * 160 + c]).color.shade()
                == start.bg_shade(c) by {
                if c < x {
                    assert(start.ly * 160 + c != start.ly * 160 + x);
                    assert(self.buffer@[start.ly * 160 + c] == before.buffer@[start.ly * 160 + c]);
                }
            }
            assert forall|i: int|
                0 <= i < self.buffer@.len() && i / 160 != start.ly implies #[trigger] self.buffer@[i]
                == start.buffer@[i] by {
                assert(i != start.ly * 160 + x);
            }
            x = x + 1;
        }
    }

    /// The colour id of pixel `px` (0 is the leftmost) of a sprite on the
    /// current line, with its flips and the 8x16 tile pairing applied.
    pub open spec fn sprite_pixel_id(self, s: OamEntry, px: int) -> int {
        let h = self.sprite_height();
        let in_sprite = self.ly + 16 - s.y_pos;
        let row = if bit8(s.flags, 6) {
            h - 1 - in_sprite
        } else {
            in_sprite
        };
        let tile: int = if self.lcdc.obj_size {
            (s.tile_idx & 0xFEu8) as int
        } else {
            s.tile_idx as int
        };
        let addr = tile * 16 + row * 2;
        let bit = (if bit8(s.flags, 5) {
            px
        } else {
            7 - px
        }) as u8;
        bb(bit8(self.vram@[addr + 1], bit), 2) + bb(bit8(self.vram@[addr], bit), 1)
    }

    /// Sprite `s` paints column `c` of the current line: it covers the
    /// column, its pixel there is not transparent, and its priority bit
    /// lets it show over the background.
    pub open spec fn paints(self, s: OamEntry, c: int) -> bool {
        let px = c + 8 - s.x_pos;
        &&& PPU::sprite_on_line(s, self.ly, self.sprite_height())
        &&& 0 <= c < 160
        &&& 0 <= px < 8
        &&& self.sprite_pixel_id(s, px) != 0
        &&& (!bit8(s.flags, 7) || self.background_priority@[c])
    }

    /// The shade that sprite `s` gives column `c`, through OBP0 or OBP1.
    pub open spec fn sprite_shade(self, s: OamEntry, c: int) -> u8 {
        let pal = if bit8(s.flags, 4) {
            self.obj_palette_1.value
        } else {
            self.obj_palette_0.value
        };
        palette_shade(pal, self.sprite_pixel_id(s, c + 8 - s.x_pos))
    }

    /// Among the first `n` active sprites, the one that shows at column `c`:
    /// the lowest x among those that paint it, the first in OAM on a tie.
    pub open spec fn winner(self, n: int, c: int) -> Option<OamEntry>
        decreases n,
    {
        if n <= 0 {
            None
        } else {
            let prev = self.winner(n - 1, c);
            let s = self.active_sprites@[n - 1];
            if self.paints(s, c) && (prev.is_none() || s.x_pos < prev.unwrap().x_pos) {
                Some(s)
            } else {
                prev
            }
        }
    }

    /// Column `c` after drawing `sprite` over (`owners0`, `buf0`): painted,
    /// and claimed by the sprite, where the sprite paints it and no sprite of
    /// lower x holds it; else as it was.
    pub open spec fn column_drawn(
        self,
        sprite: OamEntry,
        owners0: Seq<u16>,
        owners: Seq<u16>,
        buf0: Seq<Pixel>,
        buf: Seq<Pixel>,
        c: int,
    ) -> bool {
        let hit = self.paints(sprite, c) && (sprite.x_pos as u16) < owners0[c];
        let i = self.ly * 160 + c;
        &&& owners[c] == (if hit { sprite.x_pos as u16 } else { owners0[c] })
        &&& hit ==> buf[i].color.shade() == self.sprite_shade(sprite, c)
        &&& !hit ==> buf[i] == buf0[i]
    }

    /// Line `old.ly` of `self` is the line that `old` renders: the background
    /// pass sets the priority flags and shades, then the winning sprite of
    /// each column, if any, is drawn over it.
    pub open spec fn line_rendered(self, old: PPU) -> bool {
        forall|c: int|
            #![trigger self.buffer@[old.ly * 160 + c]]
            0 <= c < 160 ==> {
                let w = self.winner(old.active_sprites@.len() as int, c);
                &&& self.background_priority@[c] == (!old.lcdc.bg_priority || old.bg_color_id(c)
                    == 0)
                &&& if old.lcdc.obj_enable && w.is_some() {
                    self.buffer@[old.ly * 160 + c].color.shade() == self.sprite_shade(w.unwrap(), c)
                } else {
                    self.buffer@[old.ly * 160 + c].color.shade() == old.bg_shade(c)
                }
            }
    }

    /// After the first `n` active sprites: column `c` is claimed by the
    /// winner's x (0xFFFF when none) and shows its shade, or is as before.
    pub open spec fn column_state(self, owners: Seq<u16>, buf: Seq<Pixel>, n: int, c: int) -> bool {
        let w = self.winner(n, c);
        let i = self.ly * 160 + c;
        &&& owners[c] == (if w.is_some() { w.unwrap().x_pos as u16 } else { 0xFFFFu16 })
        &&& if w.is_some() {
            buf[i].color.shade() == self.sprite_shade(w.unwrap(), c)
        } else {
            buf[i] == self.buffer@[i]
        }
    }

    /// The sprite pass of the current line: each column shows the winning
    /// sprite's shade, or keeps its background pixel.
    fn render_sprite_line(&mut self)
        requires
            old(self).wf(),
            old(self).ly < 144,
        ensures
            final(self).wf(),
            final(self).same_memory(*old(self)),
            final(self).stat == old(self).stat,
            final(self).ly == old(self).ly,
            final(self).ticks == old(self).ticks,
            final(self).active_sprites@ == old(self).active_sprites@,
            final(self).background_priority@ == old(self).background_priority@,
            final(self).other_rows_kept(*old(self)),
            forall|c: int|
                #![trigger final(self).buffer@[old(self).ly * 160 + c]]
                0 <= c < 160 ==> {
                    let w = old(self).winner(old(self).active_sprites@.len() as int, c);
                    if old(self).lcdc.obj_enable && w.is_some() {
                        final(self).buffer@[old(self).ly * 160 + c].color.shade() == old(
                            self,
                        ).sprite_shade(w.unwrap(), c)
                    } else {
                        final(self).buffer@[old(self).ly * 160 + c] == old(self).buffer@[old(
                            self,
                        ).ly * 160 + c]
                    }
                },
    {
        if !self.lcdc.obj_enable {
            return;
        }
        let ghost start = *self;
        let mut owner_x: Vec<u16> = vec![0xFFFFu16; SCREEN_WIDTH];
        let n = self.active_sprites.len();
        let mut s: usize = 0;
        while s < n
            invariant
                self.wf(),
                self.ly < 144,
                n == self.active_sprites@.len(),
                s <= n,
                owner_x@.len() == SCREEN_WIDTH,
                self.same_memory(start),
                self.stat == start.stat,
                self.ly == start.ly,
                self.ticks == start.ticks,
                self.active_sprites@ == start.active_sprites@,
                self.background_priority@ == start.background_priority@,
                self.other_rows_kept(start),
                forall|c: int|
                    0 <= c < 160 ==> #[trigger] start.column_state(owner_x@, self.buffer@, s as int, c),
            decreases n - s,
        {
            let sprite = self.active_sprites[s];
            let ghost before = *self;
            let ghost owners = owner_x@;
            self.draw_sprite(sprite, &mut owner_x, Ghost(start));
            assert forall|c: int| 0 <= c < 160 implies #[trigger] start.column_state(owner_x@, self.buffer@, s + 1, c) by {
                assert(start.column_state(owners, before.buffer@, s as int, c));
                assert(start.active_sprites@[s as int] == sprite);
                assert(start.column_drawn(sprite, owners, owner_x@, before.buffer@, self.buffer@, c));
                let w0 = start.winner(s as int, c);
                let i = start.ly * 160 + c;
                assert(owners[c] == (if w0.is_some() {
                    w0.unwrap().x_pos as u16
                } else {
                    0xFFFFu16
                }));
                assert(if w0.is_some() {
                    before.buffer@[i].color.shade() == start.sprite_shade(w0.unwrap(), c)
                } else {
                    before.buffer@[i] == start.buffer@[i]
                });
                let hit = start.paints(sprite, c) && (sprite.x_pos as u16) < owners[c];
                assert(hit == (start.paints(sprite, c) && (w0.is_none() || sprite.x_pos
                    < w0.unwrap().x_pos)));
                assert(start.winner(s + 1, c) == (if hit {
                    Some(sprite)
                } else {
                    w0
                }));
            }
            s = s + 1;
        }
        assert forall|c: int|
            #![trigger self.buffer@[start.ly * 160 + c]]
            0 <= c < 160 implies {
            let w = start.winner(n as int, c);
            if w.is_some() {
                self.buffer@[start.ly * 160 + c].color.shade() == start.sprite_shade(w.unwrap(), c)
            } else {
                self.buffer@[start.ly * 160 + c] == start.buffer@[start.ly * 160 + c]
            }
        } by {
            assert(start.column_state(owner_x@, self.buffer@, n as int, c));
        }
    }

    #[verifier::rlimit(100)]
    fn draw_sprite(&mut self, sprite: OamEntry, owner_x: &mut Vec<u16>, Ghost(start): Ghost<PPU>)
        requires
            old(self).wf(),
            old(self).ly < 144,
            old(owner_x)@.len() == SCREEN_WIDTH,
            old(self).same_memory(start),
            old(self).ly == start.ly,
            old(self).background_priority@ == start.background_priority@,
        ensures
            final(self).wf(),
            final(owner_x)@.len() == SCREEN_WIDTH,
            final(self).same_memory(*old(self)),
            final(self).stat == old(self).stat,
            final(self).ly == old(self).ly,
            final(self).ticks == old(self).ticks,
            final(self).active_sprites@ == old(self).active_sprites@,
            final(self).background_priority@ == old(self).background_priority@,
            final(self).other_rows_kept(*old(self)),
            forall|c: int|
                0 <= c < 160 ==> #[trigger] start.column_drawn(
                    sprite,
                    old(owner_x)@,
                    final(owner_x)@,
                    old(self).buffer@,
                    final(self).buffer@,
                    c,
                ),
    {
        let ghost first = *self;
        let height: u16 = if self.lcdc.obj_size {
            16
        } else {
            8
        };
        let line = self.ly as u16 + 16;
        if line < sprite.y_pos as u16 || line >= sprite.y_pos as u16 + height {
            return;
        }
        let in_sprite = line - sprite.y_pos as u16;
        let row = if sprite.y_flipped() {
            height - 1 - in_sprite
        } else {
            in_sprite
        };
        let tile = if self.lcdc.obj_size {
            sprite.tile_idx & 0xFE
        } else {
            sprite.tile_idx
        };
        let addr = tile as usize * 16 + row as usize * 2;
        let low = self.vram[addr];
        let high = self.vram[addr + 1];
        let palette = if sprite.get_palette_number() == 1 {
            self.obj_palette_1
        } else {
            self.obj_palette_0
        };
        let x_flip = sprite.x_flipped();
        let priority = sprite.bg_priority();
        let mut px: u8 = 0;
        while px < 8
            invariant
                self.wf(),
                self.ly < 144,
                owner_x@.len() == SCREEN_WIDTH,
                self.same_memory(first),
                self.stat == first.stat,
                self.ly == first.ly,
                self.ticks == first.ticks,
                self.active_sprites@ == first.active_sprites@,
                self.background_priority@ == first.background_priority@,
                self.other_rows_kept(first),
                first.same_memory(start),
                first.ly == start.ly,
                first.background_priority@ == start.background_priority@,
                PPU::sprite_on_line(sprite, start.ly, start.sprite_height()),
                addr + 1 < VRAM_SIZE,
                low == start.vram@[addr as int],
                high == start.vram@[addr + 1],
                addr == (if start.lcdc.obj_size {
                    (sprite.tile_idx & 0xFEu8) as int
                } else {
                    sprite.tile_idx as int
                }) * 16 + (if bit8(sprite.flags, 6) {
                    start.sprite_height() - 1 - (start.ly + 16 - sprite.y_pos)
                } else {
                    start.ly + 16 - sprite.y_pos
                }) * 2,
                x_flip == bit8(sprite.flags, 5),
                priority == bit8(sprite.flags, 7),
                palette.value == (if bit8(sprite.flags, 4) {
                    start.obj_palette_1.value
                } else {
                    start.obj_palette_0.value
                }),
                px <= 8,
                forall|c: int|
                    0 <= c < 160 && c + 8 - sprite.x_pos < px ==> #[trigger] start.column_drawn(
                        sprite,
                        old(owner_x)@,
                        owner_x@,
                        first.buffer@,
                        self.buffer@,
                        c,
                    ),
                forall|c: int|
                    0 <= c < 160 && c + 8 - sprite.x_pos >= px ==> #[trigger] owner_x@[c] == old(
                        owner_x,
                    )@[c] && self.buffer@[start.ly * 160 + c] == first.buffer@[start.ly * 160 + c],
            decreases 8 - px,
        {
            let ghost owners = owner_x@;
            let ghost buf = self.buffer@;
            let ghost cx: int = sprite.x_pos as int + px as int - 8;
            let col = sprite.x_pos as u16 + px as u16;
            let bit = if x_flip {
                px
            } else {
                7 - px
            };
            let id = Palette::palette_index(
                is_bit_set(high, bit as usize),
                is_bit_set(low, bit as usize),
            );
            assert(id == start.sprite_pixel_id(sprite, px as int));
            let mut painted = false;
            if col >= 8 && col < 168 {
                let x = (col - 8) as u8;
                if owner_x[x as usize] > sprite.x_pos as u16 && id != 0 && (!priority
                    || self.background_priority[x as usize]) {
                    let ghost before = *self;
                    self.write_pixel(x, Pixel::new(palette.get_color(id)));
                    owner_x.set(x as usize, sprite.x_pos as u16);
                    painted = true;
                    assert forall|i: int|
                        0 <= i < self.buffer@.len() && i / 160 != first.ly implies #[trigger] self.buffer@[i]
                        == first.buffer@[i] by {
                        assert(i != first.ly * 160 + x);
                        assert(self.buffer@[i] == before.buffer@[i]);
                    }
                }
            }
            proof {
                if 0 <= cx < 160 {
                    assert(owners[cx] == old(owner_x)@[cx]);
                    assert(painted == (start.paints(sprite, cx) && (sprite.x_pos as u16) < old(
                        owner_x,
                    )@[cx]));
                    assert(start.column_drawn(sprite, old(owner_x)@, owner_x@, first.buffer@, self.buffer@, cx));
                } else {
                    assert(!painted);
                }
                assert forall|c: int| 0 <= c < 160 && c != cx implies #[trigger] owner_x@[c]
                    == owners[c] && self.buffer@[start.ly * 160 + c] == buf[start.ly * 160 + c] by {
                    if painted {
                        assert(start.ly * 160 + c != start.ly * 160 + cx);
                    }
                }
                assert forall|c: int|
                    0 <= c < 160 && c + 8 - sprite.x_pos < px + 1 implies #[trigger] start.column_drawn(
                        sprite,
                        old(owner_x)@,
                        owner_x@,
                        first.buffer@,
                        self.buffer@,
                        c,
                    ) by {
                    if c != cx {
                        assert(start.column_drawn(sprite, old(owner_x)@, owners, first.buffer@, buf, c));
                        assert(owner_x@[c] == owners[c]);
                        assert(self.buffer@[start.ly * 160 + c] == buf[start.ly * 160 + c]);
                    }
                }
            }
            px = px + 1;
        }
    }

}

/// The sprite winner of a column depends on the video memory, registers,
/// active sprites and priority flags, not on the framebuffer.
proof fn lemma_winner_same(a: PPU, b: PPU, n: int, c: int)
    requires
        a.same_memory(b),
        a.ly == b.ly,
        a.active_sprites@ == b.active_sprites@,
        a.background_priority@ == b.background_priority@,
    ensures
        a.winner(n, c) == b.winner(n, c),
    decreases n,
{
    if n > 0 {
        lemma_winner_same(a, b, n - 1, c);
        let s = a.active_sprites@[n - 1];
        assert(a.paints(s, c) == b.paints(s, c));
    }
}

/// A rendered line stays rendered while only the timing changes.
proof fn lemma_line_rendered_kept(a: PPU, b: PPU, old: PPU)
    requires
        a.line_rendered(old),
        b.same_memory(a),
        b.ly == a.ly,
        b.active_sprites@ == a.active_sprites@,
        b.background_priority@ == a.background_priority@,
        b.buffer@ == a.buffer@,
    ensures
        b.line_rendered(old),
{
    assert forall|c: int| 0 <= c < 160 implies #[trigger] b.winner(
        old.active_sprites@.len() as int,
        c,
    ) == a.winner(old.active_sprites@.len() as int, c) by {
        lemma_winner_same(b, a, old.active_sprites@.len() as int, c);
    }
    assert forall|c: int|
        #![trigger b.buffer@[old.ly * 160 + c]]
        0 <= c < 160 implies {
        let w = b.winner(old.active_sprites@.len() as int, c);
        &&& b.background_priority@[c] == (!old.lcdc.bg_priority || old.bg_color_id(c) == 0)
        &&& if old.lcdc.obj_enable && w.is_some() {
            b.buffer@[old.ly * 160 + c].color.shade() == b.sprite_shade(w.unwrap(), c)
        } else {
            b.buffer@[old.ly * 160 + c].color.shade() == old.bg_shade(c)
        }
    } by {
        assert(a.buffer@[old.ly * 160 + c] == b.buffer@[old.ly * 160 + c]);
    }
}

/// STAT bit 2 reads 1 exactly when LY equals LYC, in every well-formed state.
pub proof fn lemma_ly_coincidence(p: PPU)
    requires
        p.wf(),
    ensures
        bit8(p.read_spec(0xFF41), 2) == (p.ly == p.lyc),
{
    let s = p.stat;
    let hi: u8 = (bb(s.unused, 128) + bb(s.lyc_ly_eq_interrupt, 64) + bb(s.oam_interrupt, 32) + bb(
        s.vblank_interrupt,
        16,
    ) + bb(s.hblank_interrupt, 8)) as u8;
    let mid: u8 = bb(s.lyc_ly_eq_flag, 4) as u8;
    let lo: u8 = (bb(s.mode_bit_1, 2) + bb(s.mode_bit_0, 1)) as u8;
    assert(stat_byte(s) == hi + mid + lo);
    assert(hi % 8 == 0 && (mid == 0 || mid == 4) && lo < 4 ==> ((((hi + mid + lo) as u8) >> 2u8)
        & 1u8 == 1u8) == (mid == 4)) by (bit_vector);
}

/// How many of the next `n` t-cycles enter VBLANK.
pub open spec fn vblank_count(mode: Mode, ly: u8, ticks: u64, n: nat) -> nat
    decreases n,
{
    if n == 0 {
        0
    } else {
        let s = timing_step(mode, ly, ticks);
        (if enters_vblank(mode, ly, ticks) {
            1nat
        } else {
            0nat
        }) + vblank_count(s.0, s.1, s.2, (n - 1) as nat)
    }
}

/// The t-cycle count at which a mode ends within its line.
pub open spec fn mode_end(m: Mode) -> u64 {
    match m {
        Mode::OamSearch => 80,
        Mode::LcdTransfer => 252,
        _ => 456,
    }
}

/// Running `a` then `b` t-cycles is running `a + b`.
proof fn lemma_timing_split(m: Mode, ly: u8, t: u64, a: nat, b: nat)
    ensures
        ({
            let s = timing_after(m, ly, t, a);
            &&& timing_after(m, ly, t, a + b) == timing_after(s.0, s.1, s.2, b)
            &&& vblank_count(m, ly, t, a + b) == vblank_count(m, ly, t, a) + vblank_count(
                s.0,
                s.1,
                s.2,
                b,
            )
        }),
    decreases a,
{
    if a > 0 {
        let s1 = timing_step(m, ly, t);
        lemma_timing_split(s1.0, s1.1, s1.2, (a - 1) as nat, b);
        assert((a + b - 1) as nat == ((a - 1) as nat + b) as nat);
    }
}

proof fn lemma_timing_one(m: Mode, ly: u8, t: u64)
    ensures
        timing_after(m, ly, t, 1) == timing_step(m, ly, t),
        vblank_count(m, ly, t, 1) == (if enters_vblank(m, ly, t) { 1nat } else { 0nat }),
{
    let s = timing_step(m, ly, t);
    assert(timing_after(s.0, s.1, s.2, 0) == s);
    assert(vblank_count(s.0, s.1, s.2, 0) == 0);
}

/// Within a mode, before its end, t-cycles only count up.
proof fn lemma_timing_stay(m: Mode, ly: u8, t: u64, k: nat)
    requires
        t + k < mode_end(m),
    ensures
        timing_after(m, ly, t, k) == (m, ly, (t + k) as u64),
        vblank_count(m, ly, t, k) == 0,
    decreases k,
{
    if k > 0 {
        lemma_timing_stay(m, ly, (t + 1) as u64, (k - 1) as nat);
    }
}

/// A visible line: from the start of OAM search on line `ly`, 456 t-cycles
/// lead to the start of the next line, entering VBLANK after line 143.
proof fn lemma_visible_line(ly: u8)
    requires
        ly < 144,
    ensures
        timing_after(Mode::OamSearch, ly, 0, 456) == (if ly == 143 {
            (Mode::VBlank, 144u8, 0u64)
        } else {
            (Mode::OamSearch, (ly + 1) as u8, 0u64)
        }),
        vblank_count(Mode::OamSearch, ly, 0, 456) == (if ly == 143 { 1nat } else { 0nat }),
{
    lemma_timing_stay(Mode::OamSearch, ly, 0, 79);
    lemma_timing_split(Mode::OamSearch, ly, 0, 79, 1);
    lemma_timing_one(Mode::OamSearch, ly, 79);
    lemma_timing_stay(Mode::LcdTransfer, ly, 80, 171);
    lemma_timing_split(Mode::LcdTransfer, ly, 80, 171, 1);
    lemma_timing_one(Mode::LcdTransfer, ly, 251);
    lemma_timing_stay(Mode::HBlank, ly, 252, 203);
    lemma_timing_split(Mode::HBlank, ly, 252, 203, 1);
    lemma_timing_one(Mode::HBlank, ly, 455);
    assert(timing_after(Mode::OamSearch, ly, 0, 80) == (Mode::LcdTransfer, ly, 80u64));
    assert(timing_after(Mode::LcdTransfer, ly, 80, 172) == (Mode::HBlank, ly, 252u64));
    lemma_timing_split(Mode::OamSearch, ly, 0, 80, 172);
    lemma_timing_split(Mode::OamSearch, ly, 0, 252, 204);
}

/// A VBLANK line: 456 t-cycles lead to the next line, or back to line 0.
proof fn lemma_vblank_line(ly: u8)
    requires
        144 <= ly < 154,
    ensures
        timing_after(Mode::VBlank, ly, 0, 456) == (if ly == 153 {
            (Mode::OamSearch, 0u8, 0u64)
        } else {
            (Mode::VBlank, (ly + 1) as u8, 0u64)
        }),
        vblank_count(Mode::VBlank, ly, 0, 456) == 0,
{
    lemma_timing_stay(Mode::VBlank, ly, 0, 455);
    lemma_timing_split(Mode::VBlank, ly, 0, 455, 1);
    lemma_timing_one(Mode::VBlank, ly, 455);
}

proof fn lemma_visible_lines(n: u8)
    requires
        n <= 143,
    ensures
        timing_after(Mode::OamSearch, 0, 0, 456 * n as nat) == (Mode::OamSearch, n, 0u64),
        vblank_count(Mode::OamSearch, 0, 0, 456 * n as nat) == 0,
    decreases n,
{
    if n > 0 {
        lemma_visible_lines((n - 1) as u8);
        lemma_visible_line((n - 1) as u8);
        lemma_timing_split(Mode::OamSearch, 0, 0, 456 * (n - 1) as nat, 456);
        assert(456 * (n - 1) as nat + 456 == 456 * n as nat);
    }
}

proof fn lemma_vblank_lines(ly: u8)
    requires
        144 <= ly < 154,
    ensures
        timing_after(Mode::VBlank, ly, 0, 456 * (154 - ly) as nat) == (Mode::OamSearch, 0u8, 0u64),
        vblank_count(Mode::VBlank, ly, 0, 456 * (154 - ly) as nat) == 0,
    decreases 154 - ly,
{
    lemma_vblank_line(ly);
    if ly < 153 {
        lemma_vblank_lines((ly + 1) as u8);
        lemma_timing_split(Mode::VBlank, ly, 0, 456, 456 * (153 - ly) as nat);
        assert(456 + 456 * (153 - ly) as nat == 456 * (154 - ly) as nat);
    }
}

/// One frame of 70224 t-cycles from the start of line 0 returns to the start
/// of line 0 and enters VBLANK exactly once.
pub proof fn lemma_frame()
    ensures
        timing_after(Mode::OamSearch, 0, 0, 70224) == (Mode::OamSearch, 0u8, 0u64),
        vblank_count(Mode::OamSearch, 0, 0, 70224) == 1,
{
    lemma_visible_lines(143);
    lemma_visible_line(143);
    lemma_timing_split(Mode::OamSearch, 0, 0, 456 * 143, 456);
    lemma_vblank_lines(144);
    lemma_timing_split(Mode::OamSearch, 0, 0, 456 * 144, 456 * 10);
}

} // verus!

use vstd::prelude::*;

use crate::utils::{bit8, is_bit_set};

verus! {

/// One sprite of the object attribute memory: four bytes.
#[derive(Copy, Clone, PartialEq, Eq, Structural, Debug)]
pub struct OamEntry {
    /// Vertical position on screen plus 16.
    pub y_pos: u8,
    /// Horizontal position on screen plus 8.
    pub x_pos: u8,
    /// Tile index in VRAM (bit 0 ignored for 8x16 sprites).
    pub tile_idx: u8,
    /// Bit 7 priority, bit 6 y-flip, bit 5 x-flip, bit 4 palette.
    pub flags: u8,
}

impl OamEntry {
    pub open spec fn field(self, field_pos: int) -> u8 {
        if field_pos == 0 {
            self.y_pos
        } else if field_pos == 1 {
            self.x_pos
        } else if field_pos == 2 {
            self.tile_idx
        } else {
            self.flags
        }
    }

    pub open spec fn with_field(self, byte: u8, field_pos: int) -> OamEntry {
        if field_pos == 0 {
            OamEntry { y_pos: byte, ..self }
        } else if field_pos == 1 {
            OamEntry { x_pos: byte, ..self }
        } else if field_pos == 2 {
            OamEntry { tile_idx: byte, ..self }
        } else {
            OamEntry { flags: byte, ..self }
        }
    }

    pub fn new() -> (r: Self)
        ensures
            r == (OamEntry { y_pos: 0, x_pos: 0, tile_idx: 0, flags: 0 }),
    {
        OamEntry { y_pos: 0, x_pos: 0, tile_idx: 0, flags: 0 }
    }

    /// The sprite is drawn only over background colour id 0.
    pub fn bg_priority(&self) -> (r: bool)
        ensures
            r == bit8(self.flags, 7),
    {
        is_bit_set(self.flags, 7)
    }

    pub fn y_flipped(&self) -> (r: bool)
        ensures
            r == bit8(self.flags, 6),
    {
        is_bit_set(self.flags, 6)
    }

    pub fn x_flipped(&self) -> (r: bool)
        ensures
            r == bit8(self.flags, 5),
    {
        is_bit_set(self.flags, 5)
    }

    /// 1 selects OBP1, 0 selects OBP0.
    pub fn get_palette_number(&self) -> (r: usize)
        ensures
            r == (if bit8(self.flags, 4) { 1usize } else { 0usize }),
    {
        if is_bit_set(self.flags, 4) {
            1
        } else {
            0
        }
    }

    pub fn get_field(&self, field_pos: usize) -> (r: u8)
        requires
            field_pos < 4,
        ensures
            r == self.field(field_pos as int),
    {
        if field_pos == 0 {
            self.y_pos
        } else if field_pos == 1 {
            self.x_pos
        } else if field_pos == 2 {
            self.tile_idx
        } else {
            self.flags
        }
    }

    pub fn set_field(&mut self, byte: u8, field_pos: usize)
        requires
            field_pos < 4,
        ensures
            *final(self) == old(self).with_field(byte, field_pos as int),
    {
        if field_pos == 0 {
            self.y_pos = byte;
        } else if field_pos == 1 {
            self.x_pos = byte;
        } else if field_pos == 2 {
            self.tile_idx = byte;
        } else {
            self.flags = byte;
        }
    }
}

} // verus!

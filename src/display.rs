use vstd::prelude::*;

use crate::io::ppu::fetcher::Pixel;
use crate::io::ppu::registers::{bb, Color};
use crate::utils::{bit8, is_bit_set};

verus! {

pub const DEBUG_WINDOW_WIDTH: usize = 160;

pub const DEBUG_WINDOW_HEIGHT: usize = 240;

/// Tiles that VRAM holds.
pub const TILE_COUNT: usize = 384;

pub open spec fn rgb(r: u8, g: u8, b: u8) -> u32 {
    (r as int * 65536 + g as int * 256 + b as int) as u32
}

/// The display colour of a shade: white, light grey, dark grey, black.
pub open spec fn shade_rgb(c: Color) -> u32 {
    match c {
        Color::C0 => rgb(255, 255, 255),
        Color::C1 => rgb(170, 170, 170),
        Color::C2 => rgb(85, 85, 85),
        Color::C3 => rgb(0, 0, 0),
    }
}

/// A 0RGB pixel value.
pub fn from_u8_rgb(r: u8, g: u8, b: u8) -> (v: u32)
    ensures
        v == r as int * 65536 + g as int * 256 + b as int,
        v == rgb(r, g, b),
{
    (r as u32) * 65536 + (g as u32) * 256 + (b as u32)
}

pub fn color_to_rgb(color: Color) -> (v: u32)
    ensures
        v == shade_rgb(color),
{
    match color {
        Color::C0 => from_u8_rgb(255, 255, 255),
        Color::C1 => from_u8_rgb(170, 170, 170),
        Color::C2 => from_u8_rgb(85, 85, 85),
        Color::C3 => from_u8_rgb(0, 0, 0),
    }
}

/// The shade of a tile pixel from its bit in the low and high tile bytes.
pub fn get_col(fst: bool, snd: bool) -> (c: Color)
    ensures
        c.shade() == bb(fst, 2) + bb(snd, 1),
{
    match (fst, snd) {
        (true, true) => Color::C3,
        (true, false) => Color::C2,
        (false, true) => Color::C1,
        (false, false) => Color::C0,
    }
}

/// Turns the framebuffer of shades into display colours.
pub fn update_screen(buffer: &mut Vec<u32>, pixels: &Vec<Pixel>)
    requires
        old(buffer)@.len() == pixels@.len(),
    ensures
        final(buffer)@.len() == pixels@.len(),
        forall|i: int| 0 <= i < pixels@.len() ==> #[trigger] final(buffer)@[i] == shade_rgb(pixels@[i].color),
{
    let n = pixels.len();
    let mut i: usize = 0;
    while i < n
        invariant
            n == pixels@.len(),
            buffer@.len() == n,
            i <= n,
            forall|k: int| 0 <= k < i ==> #[trigger] buffer@[k] == shade_rgb(pixels@[k].color),
        decreases n - i,
    {
        let c = color_to_rgb(pixels[i].get_color());
        buffer.set(i, c);
        i = i + 1;
    }
}

/// The display colour of pixel (`row`, `col`) of the 16 tile bytes at `base`.
pub open spec fn tile_pixel(data: Seq<u8>, base: int, row: int, col: int) -> u32 {
    shade_rgb(
        Color::of_shade(
            (bb(bit8(data[base + 2 * row], (7 - col) as u8), 2) + bb(
                bit8(data[base + 2 * row + 1], (7 - col) as u8),
                1,
            )) as u8,
        ),
    )
}

/// Index `i` of a 160-wide buffer lies in the 8x8 cell at `pos`.
pub open spec fn in_cell(i: int, pos: (usize, usize)) -> bool {
    pos.1 * 160 <= i < (pos.1 + 8) * 160 && pos.0 <= i % 160 < pos.0 + 8
}

/// Draws the 8x8 tile of `tile_data` (16 bytes, two per row) at (x, y) of a
/// buffer 160 pixels wide.
pub fn draw_tile(buffer: &mut Vec<u32>, tile_data: &Vec<u8>, pos: (usize, usize))
    requires
        tile_data@.len() == 16,
        pos.0 + 8 <= DEBUG_WINDOW_WIDTH,
        (pos.1 + 8) * DEBUG_WINDOW_WIDTH <= old(buffer)@.len(),
    ensures
        final(buffer)@.len() == old(buffer)@.len(),
        forall|i: int|
            0 <= i < old(buffer)@.len() && !in_cell(i, pos) ==> #[trigger] final(buffer)@[i] == old(
                buffer,
            )@[i],
        forall|row: int, col: int|
            0 <= row < 8 && 0 <= col < 8 ==> #[trigger] final(buffer)@[(pos.1 + row) * 160 + pos.0
                + col] == shade_rgb(
                Color::of_shade(
                    (bb(bit8(tile_data@[2 * row], (7 - col) as u8), 2) + bb(
                        bit8(tile_data@[2 * row + 1], (7 - col) as u8),
                        1,
                    )) as u8,
                ),
            ),
{
    let (x_pos, y_pos) = pos;
    let ghost start = buffer@;
    let len = buffer.len();
    let mut row: usize = 0;
    while row < 8
        invariant
            tile_data@.len() == 16,
            x_pos + 8 <= DEBUG_WINDOW_WIDTH,
            (y_pos + 8) * DEBUG_WINDOW_WIDTH <= buffer@.len(),
            buffer@.len() == start.len(),
            len == start.len(),
            row <= 8,
            x_pos == pos.0 && y_pos == pos.1,
            forall|i: int| 0 <= i < start.len() && !in_cell(i, pos) ==> #[trigger] buffer@[i] == start[i],
            forall|r: int, col: int|
                0 <= r < row && 0 <= col < 8 ==> #[trigger] buffer@[(y_pos + r) * 160 + x_pos + col]
                    == shade_rgb(
                    Color::of_shade(
                        (bb(bit8(tile_data@[2 * r], (7 - col) as u8), 2) + bb(
                            bit8(tile_data@[2 * r + 1], (7 - col) as u8),
                            1,
                        )) as u8,
                    ),
                ),
        decreases 8 - row,
    {
        let low = tile_data[2 * row];
        let high = tile_data[2 * row + 1];
        let mut col: usize = 0;
        while col < 8
            invariant
                tile_data@.len() == 16,
                x_pos + 8 <= DEBUG_WINDOW_WIDTH,
                (y_pos + 8) * DEBUG_WINDOW_WIDTH <= buffer@.len(),
                buffer@.len() == start.len(),
                len == start.len(),
                row < 8,
                x_pos == pos.0 && y_pos == pos.1,
                forall|i: int| 0 <= i < start.len() && !in_cell(i, pos) ==> #[trigger] buffer@[i] == start[i],
                col <= 8,
                low == tile_data@[2 * row as int],
                high == tile_data@[2 * row + 1],
                forall|r: int, c: int|
                    0 <= r < row && 0 <= c < 8 ==> #[trigger] buffer@[(y_pos + r) * 160 + x_pos + c]
                        == shade_rgb(
                        Color::of_shade(
                            (bb(bit8(tile_data@[2 * r], (7 - c) as u8), 2) + bb(
                                bit8(tile_data@[2 * r + 1], (7 - c) as u8),
                                1,
                            )) as u8,
                        ),
                    ),
                forall|c: int|
                    0 <= c < col ==> #[trigger] buffer@[(y_pos + row) * 160 + x_pos + c] == shade_rgb(
                        Color::of_shade(
                            (bb(bit8(low, (7 - c) as u8), 2) + bb(bit8(high, (7 - c) as u8), 1)) as u8,
                        ),
                    ),
            decreases 8 - col,
        {
            let bit = 7 - col;
            let color = get_col(is_bit_set(low, bit), is_bit_set(high, bit));
            assert((y_pos + row) * 160 + x_pos + col < buffer@.len()) by (nonlinear_arith)
                requires
                    row < 8,
                    col < 8,
                    x_pos + 8 <= 160,
                    (y_pos + 8) * 160 <= buffer@.len(),
            ;
            let idx = (y_pos + row) * DEBUG_WINDOW_WIDTH + x_pos + col;
            let ghost before = buffer@;
            assert(y_pos * 160 <= idx < (y_pos + 8) * 160 && x_pos <= idx % 160 < x_pos + 8)
                by (nonlinear_arith)
                requires
                    idx == (y_pos + row) * 160 + x_pos + col,
                    row < 8,
                    col < 8,
                    x_pos + 8 <= 160,
            ;
            assert(pos.0 == x_pos && pos.1 == y_pos);
            assert(in_cell(idx as int, pos));
            buffer.set(idx, color_to_rgb(color));
            assert forall|r: int, c: int|
                0 <= r < row && 0 <= c < 8 implies #[trigger] buffer@[(y_pos + r) * 160 + x_pos + c]
                == before[(y_pos + r) * 160 + x_pos + c] by {
                assert((y_pos + r) * 160 + x_pos + c != idx) by (nonlinear_arith)
                    requires
                        idx == (y_pos + row) * 160 + x_pos + col,
                        0 <= r < row,
                        0 <= c < 8,
                        col < 8,
                ;
            }
            col = col + 1;
        }
        row = row + 1;
    }
}

/// Fills the buffer with black.
pub fn reset_buffer(buffer: &mut Vec<u32>)
    ensures
        final(buffer)@.len() == old(buffer)@.len(),
        forall|i: int| 0 <= i < final(buffer)@.len() ==> #[trigger] final(buffer)@[i] == 0,
{
    let n = buffer.len();
    let mut i: usize = 0;
    while i < n
        invariant
            n == buffer@.len(),
            i <= n,
            forall|k: int| 0 <= k < i ==> #[trigger] buffer@[k] == 0,
        decreases n - i,
    {
        buffer.set(i, from_u8_rgb(0, 0, 0));
        i = i + 1;
    }
}

/// Where tile `t` of the debug view is drawn: 16 tiles to a row, 9x9 cells.
pub open spec fn cell_of(t: int) -> (usize, usize) {
    (((t % 16) * 9) as usize, ((t / 16) * 9) as usize)
}

/// Pixel (`row`, `col`) of the cell of tile `t`.
pub open spec fn cell_index(t: int, row: int, col: int) -> int {
    ((t / 16) * 9 + row) * 160 + (t % 16) * 9 + col
}

/// The pixels of one tile's cell lie outside the cell of another tile.
proof fn lemma_cells_apart(t: int, u: int, row: int, col: int)
    requires
        0 <= t < TILE_COUNT,
        0 <= u < TILE_COUNT,
        t != u,
        0 <= row < 8,
        0 <= col < 8,
    ensures
        !in_cell(cell_index(u, row, col), cell_of(t)),
{
    let i = cell_index(u, row, col);
    let yu = (u / 16) * 9 + row;
    let xu = (u % 16) * 9 + col;
    assert(xu < 160);
    vstd::arithmetic::div_mod::lemma_fundamental_div_mod_converse(i, 160, yu, xu);
    let p = cell_of(t);
    assert(p.0 == (t % 16) * 9 && p.1 == (t / 16) * 9);
    if in_cell(i, p) {
        assert(p.1 * 160 <= i < (p.1 + 8) * 160);
        assert(p.1 <= yu < p.1 + 8) by (nonlinear_arith)
            requires
                p.1 * 160 <= i < (p.1 + 8) * 160,
                i == yu * 160 + xu,
                0 <= xu < 160,
        ;
        assert(t / 16 == u / 16);
        assert(t % 16 == u % 16);
        assert(t == (t / 16) * 16 + t % 16);
        assert(u == (u / 16) * 16 + u % 16);
    }
}

/// Draws the 384 tiles of VRAM, 16 to a row, each in a 9x9 cell.
pub fn update_debug_buffer(buffer: &mut Vec<u32>, vram: &Vec<u8>)
    requires
        vram@.len() >= TILE_COUNT * 16,
        old(buffer)@.len() == DEBUG_WINDOW_WIDTH * DEBUG_WINDOW_HEIGHT,
    ensures
        final(buffer)@.len() == old(buffer)@.len(),
        forall|t: int, row: int, col: int|
            0 <= t < TILE_COUNT && 0 <= row < 8 && 0 <= col < 8 ==> #[trigger] final(buffer)@[cell_index(t, row, col)]
                == tile_pixel(vram@, t * 16, row, col),
{
    reset_buffer(buffer);
    let mut x_start: usize = 0;
    let mut row_no: usize = 0;
    let mut count: usize = 0;
    let mut tile_no: usize = 0;
    while tile_no < TILE_COUNT
        invariant
            vram@.len() >= TILE_COUNT * 16,
            buffer@.len() == DEBUG_WINDOW_WIDTH * DEBUG_WINDOW_HEIGHT,
            tile_no <= TILE_COUNT,
            count < 16,
            x_start == count * 9,
            row_no == (tile_no / 16) * 9,
            count == tile_no % 16,
            forall|t: int, row: int, col: int|
                0 <= t < tile_no && 0 <= row < 8 && 0 <= col < 8 ==> #[trigger] buffer@[cell_index(
                    t,
                    row,
                    col,
                )] == tile_pixel(vram@, t * 16, row, col),
        decreases TILE_COUNT - tile_no,
    {
        let mut tile_data: Vec<u8> = Vec::new();
        let mut k: usize = 0;
        while k < 16
            invariant
                vram@.len() >= TILE_COUNT * 16,
                tile_no < TILE_COUNT,
                k <= 16,
                tile_data@.len() == k,
                forall|j: int| 0 <= j < k ==> #[trigger] tile_data@[j] == vram@[tile_no * 16 + j],
            decreases 16 - k,
        {
            tile_data.push(vram[tile_no * 16 + k]);
            k = k + 1;
        }
        assert(row_no + 8 <= 240) by {
            assert(tile_no / 16 <= 23);
        }
        let ghost before = buffer@;
        draw_tile(buffer, &tile_data, (x_start, row_no));
        assert(cell_of(tile_no as int) == (x_start, row_no));
        assert forall|t: int, row: int, col: int|
            0 <= t < tile_no + 1 && 0 <= row < 8 && 0 <= col < 8 implies #[trigger] buffer@[cell_index(
                t,
                row,
                col,
            )] == tile_pixel(vram@, t * 16, row, col) by {
            if t < tile_no {
                lemma_cells_apart(tile_no as int, t, row, col);
                assert(0 <= cell_index(t, row, col) < 160 * 240) by (nonlinear_arith)
                    requires
                        0 <= t < 384,
                        0 <= row < 8,
                        0 <= col < 8,
                        cell_index(t, row, col) == ((t / 16) * 9 + row) * 160 + (t % 16) * 9 + col,
                        0 <= t / 16 <= 23,
                        0 <= t % 16 < 16,
                ;
                assert(buffer@[cell_index(t, row, col)] == before[cell_index(t, row, col)]);
            } else {
                assert(cell_index(t, row, col) == (row_no + row) * 160 + x_start + col);
                assert(tile_data@[2 * row] == vram@[t * 16 + 2 * row]);
                assert(tile_data@[2 * row + 1] == vram@[t * 16 + 2 * row + 1]);
            }
        }
        x_start = x_start + 9;
        count = count + 1;
        if count == 16 {
            x_start = 0;
            count = 0;
            row_no = row_no + 9;
        }
        tile_no = tile_no + 1;
    }
}

} // verus!

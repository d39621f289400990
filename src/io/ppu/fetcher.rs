use vstd::prelude::*;

use super::registers::Color;

verus! {

/// One pixel of the framebuffer: a shade.
#[derive(Copy, Clone, PartialEq, Eq, Structural, Debug)]
pub struct Pixel {
    pub color: Color,
}

impl Default for Pixel {
    fn default() -> (r: Self)
        ensures
            r.color == Color::C0,
    {
        Pixel { color: Color::C0 }
    }
}

impl Pixel {
    pub fn new(color: Color) -> (r: Self)
        ensures
            r.color == color,
    {
        Pixel { color }
    }

    pub fn get_color(&self) -> (r: Color)
        ensures
            r == self.color,
    {
        self.color
    }

    pub fn is_lightest_color(&self) -> (r: bool)
        ensures
            r == (self.color == Color::C0),
    {
        match self.color {
            Color::C0 => true,
            _ => false,
        }
    }
}

#[derive(Copy, Clone, PartialEq, Eq, Structural, Debug)]
pub enum FetcherState {
    GetTile,
    GetDataLow,
    GetDataHigh,
    Sleep,
    Push,
}

/// A pixel FIFO with its fetch state.
pub struct Fetcher {
    pub queue: Vec<Pixel>,
    pub state: FetcherState,
    pub pushed: usize,
    pub ticks: u64,
    pub x_coor: usize,
    pub y_coor: usize,
}

impl Fetcher {
    pub fn new() -> (r: Self)
        ensures
            r.queue@ == Seq::<Pixel>::empty(),
            r.state == FetcherState::GetTile,
            r.ticks == 0 && r.pushed == 0 && r.x_coor == 0 && r.y_coor == 0,
    {
        Fetcher {
            queue: Vec::new(),
            state: FetcherState::GetTile,
            ticks: 0,
            pushed: 0,
            x_coor: 0,
            y_coor: 0,
        }
    }

    pub fn push_pixel(&mut self) {
    }

    pub fn reset(&mut self)
        ensures
            final(self).queue@ == Seq::<Pixel>::empty(),
            final(self).state == FetcherState::GetTile,
            final(self).ticks == 0 && final(self).pushed == 0,
            final(self).x_coor == old(self).x_coor && final(self).y_coor == old(self).y_coor,
    {
        self.queue.clear();
        self.state = FetcherState::GetTile;
        self.ticks = 0;
        self.pushed = 0;
    }

    pub fn set_state(&mut self, state: FetcherState)
        ensures
            final(self).state == state,
            final(self).queue@ == old(self).queue@,
            final(self).pushed == old(self).pushed && final(self).ticks == old(self).ticks,
    {
        self.state = state;
    }

    /// Appends a pixel at the back of the queue.
    pub fn push(&mut self, pixel: Pixel)
        ensures
            final(self).queue@ == old(self).queue@.push(pixel),
            final(self).pushed == old(self).pushed && final(self).state == old(self).state,
    {
        self.queue.push(pixel);
    }

    /// Takes the pixel at the front of the queue.
    pub fn pop(&mut self) -> (r: Pixel)
        requires
            old(self).queue@.len() > 0,
            old(self).pushed < usize::MAX,
        ensures
            r == old(self).queue@[0],
            final(self).queue@ == old(self).queue@.drop_first(),
            final(self).pushed == old(self).pushed + 1,
    {
        let pixel = self.queue.remove(0);
        self.pushed = self.pushed + 1;
        pixel
    }

    pub fn tick(&mut self)
        requires
            old(self).ticks < u64::MAX,
        ensures
            final(self).ticks == old(self).ticks + 1,
            final(self).queue@ == old(self).queue@,
    {
        self.ticks = self.ticks + 1;
    }
}

} // verus!

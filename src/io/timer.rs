use vstd::prelude::*;

use crate::interrupt::{InterruptType, Interrupts};
use crate::utils::{bit16, bit8, is_bit_set, is_bit_set_16};

verus! {

/// The timer block: DIV counter, TIMA counter, TMA reload value, TAC control.
#[derive(Clone, Copy, Debug, PartialEq, Eq, Structural)]
pub struct Timer {
    pub div: u16,
    pub tima: u8,
    pub tma: u8,
    pub tac: u8,
    /// TIMA overflowed in the last tick; the reload comes with the next one.
    pub reload_pending: bool,
    /// The last tick reloaded TIMA from TMA.
    pub reloading: bool,
}

/// TIMA rates, in t-cycles per increment.
#[derive(Copy, Clone, PartialEq, Eq, Structural, Debug)]
pub enum ClockFreq {
    C1024,
    C16,
    C64,
    C256,
}

/// The DIV bit whose falling edge advances TIMA, chosen by TAC bits 1..0.
pub open spec fn div_bit_of(tac: u8) -> u16 {
    let pattern = tac % 4;
    if pattern == 0 {
        9
    } else if pattern == 1 {
        3
    } else if pattern == 2 {
        5
    } else {
        7
    }
}

/// The signal whose falling edges advance TIMA: the selected DIV bit while enabled.
pub open spec fn timer_signal(div: u16, tac: u8) -> bool {
    bit16(div, div_bit_of(tac)) && bit8(tac, 2)
}

/// The timer after a TIMA increment.
pub open spec fn increment_spec(t: Timer) -> Timer {
    if t.tima == 0xFF {
        Timer { tima: 0, reload_pending: true, ..t }
    } else {
        Timer { tima: (t.tima + 1) as u8, ..t }
    }
}

impl Timer {
    /// The timer after one m-cycle, and whether it requests the TIMER interrupt.
    pub open spec fn tick_spec(self) -> (Timer, bool) {
        let reloaded = if self.reload_pending {
            Timer { tima: self.tma, reload_pending: false, reloading: true, ..self }
        } else {
            Timer { reloading: false, ..self }
        };
        let new_div = ((self.div + 4) % 65536) as u16;
        let advanced = Timer { div: new_div, ..reloaded };
        let t = if timer_signal(self.div, self.tac) && !timer_signal(new_div, self.tac) {
            increment_spec(advanced)
        } else {
            advanced
        };
        (t, self.reload_pending)
    }

    pub open spec fn read_spec(self, address: u16) -> u8 {
        if address == 0xFF04 {
            (self.div / 256) as u8
        } else if address == 0xFF05 {
            self.tima
        } else if address == 0xFF06 {
            self.tma
        } else {
            self.tac
        }
    }

    pub open spec fn write_spec(self, address: u16, byte: u8) -> Timer {
        if address == 0xFF04 {
            let reset = Timer { div: 0, ..self };
            if timer_signal(self.div, self.tac) {
                increment_spec(reset)
            } else {
                reset
            }
        } else if address == 0xFF05 {
            if self.reloading {
                self
            } else {
                Timer { tima: byte, ..self }
            }
        } else if address == 0xFF06 {
            if self.reloading {
                Timer { tma: byte, tima: byte, ..self }
            } else {
                Timer { tma: byte, ..self }
            }
        } else {
            Timer { tac: byte, ..self }
        }
    }

    pub fn new() -> (r: Self)
        ensures
            r.div == 0xAB && r.tima == 0 && r.tma == 0 && r.tac == 0xF8,
            !r.reload_pending && !r.reloading,
    {
        Timer { div: 0xAB, tima: 0x00, tma: 0x00, tac: 0xF8, reload_pending: false, reloading: false }
    }

    /// The rate that TAC bits 1..0 select.
    pub fn tima_freq(&self) -> (r: ClockFreq)
        ensures
            r == (if self.tac % 4 == 0 {
                ClockFreq::C1024
            } else if self.tac % 4 == 1 {
                ClockFreq::C16
            } else if self.tac % 4 == 2 {
                ClockFreq::C64
            } else {
                ClockFreq::C256
            }),
    {
        let tac = self.tac;
        let pattern = tac & 0b11;
        assert(tac & 3u8 == tac % 4) by (bit_vector);
        if pattern == 0 {
            ClockFreq::C1024
        } else if pattern == 1 {
            ClockFreq::C16
        } else if pattern == 2 {
            ClockFreq::C64
        } else {
            ClockFreq::C256
        }
    }

    /// The DIV bit that TAC bits 1..0 select.
    pub fn bit_pos(&self) -> (r: u16)
        ensures
            r == div_bit_of(self.tac),
            r < 16,
    {
        match self.tima_freq() {
            ClockFreq::C1024 => 9,
            ClockFreq::C16 => 3,
            ClockFreq::C64 => 5,
            ClockFreq::C256 => 7,
        }
    }

    fn signal(&self) -> (r: bool)
        ensures
            r == timer_signal(self.div, self.tac),
    {
        let pos = self.bit_pos();
        is_bit_set_16(self.div, pos as usize) && is_bit_set(self.tac, 2)
    }

    fn increment(&mut self)
        ensures
            *final(self) == increment_spec(*old(self)),
    {
        if self.tima == 0xFF {
            self.tima = 0;
            self.reload_pending = true;
        } else {
            self.tima = self.tima + 1;
        }
    }

    /// Advances the timer by one m-cycle (four t-cycles).
    pub fn tick(&mut self, interrupts: &mut Interrupts)
        ensures
            *final(self) == old(self).tick_spec().0,
            *final(interrupts) == (if old(self).tick_spec().1 {
                old(interrupts).requested(InterruptType::TIMER)
            } else {
                *old(interrupts)
            }),
    {
        let raise = self.reload_pending;
        if self.reload_pending {
            self.tima = self.tma;
            self.reload_pending = false;
            self.reloading = true;
            interrupts.create_interrupt(InterruptType::TIMER);
        } else {
            self.reloading = false;
        }
        let before = self.signal();
        if self.div >= 0xFFFC {
            self.div = self.div - 0xFFFC;
        } else {
            self.div = self.div + 4;
        }
        let after = self.signal();
        if before && !after {
            self.increment();
        }
    }

    pub fn read(&self, address: u16) -> (r: u8)
        requires
            0xFF04 <= address <= 0xFF07,
        ensures
            r == self.read_spec(address),
    {
        if address == 0xFF04 {
            let div = self.div;
            assert((div >> 8u16) as u8 == div / 256) by (bit_vector);
            (div >> 8) as u8
        } else if address == 0xFF05 {
            self.tima
        } else if address == 0xFF06 {
            self.tma
        } else {
            self.tac
        }
    }

    pub fn write(&mut self, address: u16, byte: u8)
        requires
            0xFF04 <= address <= 0xFF07,
        ensures
            *final(self) == old(self).write_spec(address, byte),
    {
        if address == 0xFF04 {
            let edge = self.signal();
            self.div = 0;
            if edge {
                self.increment();
            }
        } else if address == 0xFF05 {
            if !self.reloading {
                self.tima = byte;
            }
        } else if address == 0xFF06 {
            self.tma = byte;
            if self.reloading {
                self.tima = byte;
            }
        } else {
            self.tac = byte;
        }
    }
}

} // verus!

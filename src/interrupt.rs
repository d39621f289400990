use vstd::prelude::*;

use crate::utils::{bit8, is_bit_set, reset_bit, reset_bit_spec, set_bit, set_bit_spec};

verus! {

/// The interrupt controller: IE (enable) and IF (flag).
#[derive(Clone, Copy, Debug, PartialEq, Eq, Structural)]
pub struct Interrupts {
    pub enable: u8,
    pub flag: u8,
}

/// Interrupt sources in priority order; the bit of each in IE and IF is its index.
#[derive(Copy, Clone, Debug, PartialEq, Eq, Structural)]
pub enum InterruptType {
    VBLANK,
    LCDSTAT,
    TIMER,
    SERIAL,
    JOYPAD,
}

pub const INTERRUPT_ENABLE_ADDRESS: u16 = 0xFFFF;

pub const INTERRUPT_FLAG_ADDRESS: u16 = 0xFF0F;

impl InterruptType {
    pub open spec fn bit(self) -> u8 {
        match self {
            InterruptType::VBLANK => 0,
            InterruptType::LCDSTAT => 1,
            InterruptType::TIMER => 2,
            InterruptType::SERIAL => 3,
            InterruptType::JOYPAD => 4,
        }
    }

    pub open spec fn vector(self) -> u16 {
        (0x40 + 8 * self.bit()) as u16
    }

    /// The bit of this source in IE and IF.
    pub fn index(&self) -> (r: u8)
        ensures
            r == self.bit(),
            r < 5,
    {
        match self {
            InterruptType::VBLANK => 0,
            InterruptType::LCDSTAT => 1,
            InterruptType::TIMER => 2,
            InterruptType::SERIAL => 3,
            InterruptType::JOYPAD => 4,
        }
    }
}

/// Some source is both enabled and requested.
pub open spec fn is_pending(enable: u8, flag: u8) -> bool {
    enable & flag & 0x1Fu8 != 0
}

/// The highest-priority source that is both enabled and requested.
pub open spec fn first_pending(enable: u8, flag: u8) -> InterruptType {
    if bit8(enable & flag, 0) {
        InterruptType::VBLANK
    } else if bit8(enable & flag, 1) {
        InterruptType::LCDSTAT
    } else if bit8(enable & flag, 2) {
        InterruptType::TIMER
    } else if bit8(enable & flag, 3) {
        InterruptType::SERIAL
    } else {
        InterruptType::JOYPAD
    }
}

impl Interrupts {
    pub open spec fn read_spec(self, address: u16) -> u8 {
        if address == INTERRUPT_FLAG_ADDRESS {
            self.flag | 0xE0u8
        } else {
            self.enable
        }
    }

    pub open spec fn requested(self, it: InterruptType) -> Interrupts {
        Interrupts { flag: set_bit_spec(self.flag, it.bit()), ..self }
    }

    pub fn new() -> (r: Self)
        ensures
            r.enable == 0x00,
            r.flag == 0xE1,
    {
        Interrupts { enable: 0x00, flag: 0xE1 }
    }

    /// Sets the IF bit of the source.
    pub fn create_interrupt(&mut self, it_type: InterruptType)
        ensures
            *final(self) == old(self).requested(it_type),
            bit8(final(self).flag, it_type.bit()),
    {
        self.flag = set_bit(self.flag, it_type.index());
    }

    /// Clears the IF bit of the source.
    pub fn reset_interrupt(&mut self, it_type: InterruptType)
        ensures
            final(self).enable == old(self).enable,
            final(self).flag == reset_bit_spec(old(self).flag, it_type.bit()),
            !bit8(final(self).flag, it_type.bit()),
    {
        self.flag = reset_bit(self.flag, it_type.index());
    }

    pub fn pending_interrupt(&self) -> (r: bool)
        ensures
            r == is_pending(self.enable, self.flag),
    {
        self.enable & self.flag & 0x1F != 0
    }

    pub fn interrupt_addr(it_type: InterruptType) -> (r: u16)
        ensures
            r == it_type.vector(),
    {
        match it_type {
            InterruptType::VBLANK => 0x0040,
            InterruptType::LCDSTAT => 0x0048,
            InterruptType::TIMER => 0x0050,
            InterruptType::SERIAL => 0x0058,
            InterruptType::JOYPAD => 0x0060,
        }
    }

    fn check_flag(enable: u8, flag: u8, pos: usize) -> (r: bool)
        requires
            pos < 8,
        ensures
            r == bit8(enable & flag, pos as u8),
    {
        let p = pos as u8;
        assert(bit8(enable & flag, p) == (bit8(enable, p) && bit8(flag, p))) by (bit_vector)
            requires
                p < 8,
        ;
        is_bit_set(enable, pos) && is_bit_set(flag, pos)
    }

    /// The source that is served first among those pending.
    pub fn interrupt_type(enable: u8, flag: u8) -> (r: InterruptType)
        requires
            is_pending(enable, flag),
        ensures
            r == first_pending(enable, flag),
            bit8(enable & flag, r.bit()),
            forall|i: u8| i < r.bit() ==> !bit8(enable & flag, i),
    {
        let x = enable & flag;
        assert(x & 0x1Fu8 != 0 ==> (bit8(x, 0) || bit8(x, 1) || bit8(x, 2) || bit8(x, 3) || bit8(
            x,
            4,
        ))) by (bit_vector);
        assert(enable & flag & 0x1Fu8 == x & 0x1Fu8);
        if Self::check_flag(enable, flag, 0) {
            return InterruptType::VBLANK;
        }
        if Self::check_flag(enable, flag, 1) {
            return InterruptType::LCDSTAT;
        }
        if Self::check_flag(enable, flag, 2) {
            return InterruptType::TIMER;
        }
        if Self::check_flag(enable, flag, 3) {
            return InterruptType::SERIAL;
        }
        InterruptType::JOYPAD
    }

    /// IF at 0xFF0F (its unused upper bits read as 1), IE at 0xFFFF.
    pub fn read(&self, address: u16) -> (r: u8)
        requires
            address == INTERRUPT_FLAG_ADDRESS || address == INTERRUPT_ENABLE_ADDRESS,
        ensures
            r == self.read_spec(address),
    {
        if address == INTERRUPT_FLAG_ADDRESS {
            self.flag | 0xE0
        } else {
            self.enable
        }
    }

    pub fn write(&mut self, address: u16, byte: u8)
        requires
            address == INTERRUPT_FLAG_ADDRESS || address == INTERRUPT_ENABLE_ADDRESS,
        ensures
            address == INTERRUPT_FLAG_ADDRESS ==> *final(self) == (Interrupts {
                flag: byte,
                ..*old(self)
            }),
            address == INTERRUPT_ENABLE_ADDRESS ==> *final(self) == (Interrupts {
                enable: byte,
                ..*old(self)
            }),
    {
        if address == INTERRUPT_FLAG_ADDRESS {
            self.flag = byte;
        } else {
            self.enable = byte;
        }
    }
}

} // verus!

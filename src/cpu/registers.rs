use vstd::prelude::*;

use crate::utils::{bytes_to_word, word_of, word_to_bytes};

use self::flags::{flags_byte, flags_of_byte, Flags};

pub mod flags;

verus! {

/// The CPU register file. F is held as its four flags.
#[derive(Copy, Clone, Debug, PartialEq, Eq, Structural)]
pub struct Registers {
    pub a: u8,
    pub f: Flags,
    pub b: u8,
    pub c: u8,
    pub d: u8,
    pub e: u8,
    pub h: u8,
    pub l: u8,
    pub pc: u16,
    pub sp: u16,
}

#[derive(Copy, Clone, Debug, PartialEq, Eq, Structural)]
pub enum Reg16 {
    AF,
    BC,
    DE,
    HL,
    SP,
}

#[derive(Copy, Clone, Debug, PartialEq, Eq, Structural)]
pub enum Reg8 {
    A,
    F,
    B,
    C,
    D,
    E,
    H,
    L,
}

impl Registers {
    /// The value of a register pair: the high register supplies the high byte.
    pub open spec fn pair(self, pair: Reg16) -> u16 {
        match pair {
            Reg16::AF => word_of(self.a, flags_byte(self.f)),
            Reg16::BC => word_of(self.b, self.c),
            Reg16::DE => word_of(self.d, self.e),
            Reg16::HL => word_of(self.h, self.l),
            Reg16::SP => self.sp,
        }
    }

    /// The register file after a 16-bit write to a pair.
    pub open spec fn with_pair(self, pair: Reg16, value: u16) -> Registers {
        let high = (value / 256) as u8;
        let low = (value % 256) as u8;
        match pair {
            Reg16::AF => Registers { a: high, f: flags_of_byte(low), ..self },
            Reg16::BC => Registers { b: high, c: low, ..self },
            Reg16::DE => Registers { d: high, e: low, ..self },
            Reg16::HL => Registers { h: high, l: low, ..self },
            Reg16::SP => Registers { sp: value, ..self },
        }
    }

    /// The register file after an 8-bit write.
    pub open spec fn with_reg(self, target: Reg8, value: u8) -> Registers {
        match target {
            Reg8::A => Registers { a: value, ..self },
            Reg8::F => Registers { f: flags_of_byte(value), ..self },
            Reg8::B => Registers { b: value, ..self },
            Reg8::C => Registers { c: value, ..self },
            Reg8::D => Registers { d: value, ..self },
            Reg8::E => Registers { e: value, ..self },
            Reg8::H => Registers { h: value, ..self },
            Reg8::L => Registers { l: value, ..self },
        }
    }

    pub open spec fn new_spec() -> Registers {
        Registers {
            a: 0x01,
            f: Flags::new_spec(),
            b: 0x00,
            c: 0x13,
            d: 0x00,
            e: 0xD8,
            h: 0x01,
            l: 0x4D,
            pc: 0x0100,
            sp: 0xFFFE,
        }
    }

    /// The values after the boot ROM has run.
    pub fn new() -> (r: Registers)
        ensures
            r == Registers::new_spec(),
    {
        Registers {
            a: 0x01,
            f: Flags::new(),
            b: 0x00,
            c: 0x13,
            d: 0x00,
            e: 0xD8,
            h: 0x01,
            l: 0x4D,
            pc: 0x0100,
            sp: 0xFFFE,
        }
    }

    pub fn get_reg_pair(&self, pair: Reg16) -> (r: u16)
        ensures
            r == self.pair(pair),
    {
        match pair {
            Reg16::AF => bytes_to_word(self.a, self.f.to_byte()),
            Reg16::BC => bytes_to_word(self.b, self.c),
            Reg16::DE => bytes_to_word(self.d, self.e),
            Reg16::HL => bytes_to_word(self.h, self.l),
            Reg16::SP => self.sp,
        }
    }

    pub fn get_flags(&self) -> (r: Flags)
        ensures
            r == self.f,
    {
        self.f
    }

    pub fn set_reg(&mut self, value: u8, target: Reg8)
        ensures
            *final(self) == old(self).with_reg(target, value),
    {
        match target {
            Reg8::A => self.a = value,
            Reg8::F => self.f = Flags::from_byte(value),
            Reg8::B => self.b = value,
            Reg8::C => self.c = value,
            Reg8::D => self.d = value,
            Reg8::E => self.e = value,
            Reg8::H => self.h = value,
            Reg8::L => self.l = value,
        }
    }

    pub fn set_reg_pair(&mut self, value: u16, pair: Reg16)
        ensures
            *final(self) == old(self).with_pair(pair, value),
    {
        let (high, low) = word_to_bytes(value);
        match pair {
            Reg16::AF => {
                self.a = high;
                self.f = Flags::from_byte(low);
            },
            Reg16::BC => {
                self.b = high;
                self.c = low;
            },
            Reg16::DE => {
                self.d = high;
                self.e = low;
            },
            Reg16::HL => {
                self.h = high;
                self.l = low;
            },
            Reg16::SP => {
                self.sp = value;
            },
        }
    }
}

/// Writing a word to AF and reading AF back gives the word with the low
/// nibble of F cleared.
pub proof fn lemma_af_round_trip(r: Registers, w: u16)
    ensures
        r.with_pair(Reg16::AF, w).pair(Reg16::AF) == w & 0xFFF0u16,
        r.with_pair(Reg16::AF, w).pair(Reg16::AF) % 16 == 0,
{
    let low = (w % 256) as u8;
    crate::cpu::registers::flags::lemma_flags_round_trip(low, r.f);
    assert(((w / 256) as u8) as int * 256 + (low & 0xF0u8) as int == (w & 0xFFF0u16) as int) by {
        assert(w / 256 * 256 + ((w % 256) as u8 & 0xF0u8) as int == (w & 0xFFF0u16) as int) by (bit_vector);
    }
}

} // verus!

use vstd::prelude::*;

verus! {

/// The four CPU flags that the F register holds in bits 7..4.
#[derive(Clone, Copy, PartialEq, Eq, Structural, Debug)]
pub struct Flags {
    pub zero: bool,
    pub sub: bool,
    pub half_carry: bool,
    pub carry: bool,
}

pub enum FlagType {
    Zero,
    Sub,
    HalfCarry,
    Carry,
}

pub open spec fn bool_bit(b: bool, weight: int) -> int {
    if b { weight } else { 0 }
}

/// The byte that the F register reads as: Z, N, H, C in bits 7..4, low nibble zero.
pub open spec fn flags_byte(f: Flags) -> u8 {
    (bool_bit(f.zero, 128) + bool_bit(f.sub, 64) + bool_bit(f.half_carry, 32) + bool_bit(
        f.carry,
        16,
    )) as u8
}

/// The flags that a byte written to F stands for; its low nibble is dropped.
pub open spec fn flags_of_byte(b: u8) -> Flags {
    Flags {
        zero: b & 0x80u8 != 0,
        sub: b & 0x40u8 != 0,
        half_carry: b & 0x20u8 != 0,
        carry: b & 0x10u8 != 0,
    }
}

impl Flags {
    pub open spec fn new_spec() -> Flags {
        Flags { zero: true, sub: false, half_carry: true, carry: true }
    }

    pub fn new() -> (r: Flags)
        ensures
            r == Flags::new_spec(),
    {
        Flags { zero: true, sub: false, half_carry: true, carry: true }
    }

    pub fn reset_flag(&mut self, flag_type: FlagType)
        ensures
            *final(self) == (match flag_type {
                FlagType::Zero => Flags { zero: false, ..*old(self) },
                FlagType::Sub => Flags { sub: false, ..*old(self) },
                FlagType::HalfCarry => Flags { half_carry: false, ..*old(self) },
                FlagType::Carry => Flags { carry: false, ..*old(self) },
            }),
    {
        match flag_type {
            FlagType::Zero => self.zero = false,
            FlagType::Sub => self.sub = false,
            FlagType::HalfCarry => self.half_carry = false,
            FlagType::Carry => self.carry = false,
        }
    }

    pub fn reset_flags(&mut self)
        ensures
            *final(self) == (Flags { zero: false, sub: false, half_carry: false, carry: false }),
    {
        self.reset_flag(FlagType::Sub);
        self.reset_flag(FlagType::Zero);
        self.reset_flag(FlagType::Carry);
        self.reset_flag(FlagType::HalfCarry);
    }

    pub fn set_flag(&mut self, flag_type: FlagType)
        ensures
            *final(self) == (match flag_type {
                FlagType::Zero => Flags { zero: true, ..*old(self) },
                FlagType::Sub => Flags { sub: true, ..*old(self) },
                FlagType::HalfCarry => Flags { half_carry: true, ..*old(self) },
                FlagType::Carry => Flags { carry: true, ..*old(self) },
            }),
    {
        match flag_type {
            FlagType::Zero => self.zero = true,
            FlagType::Sub => self.sub = true,
            FlagType::HalfCarry => self.half_carry = true,
            FlagType::Carry => self.carry = true,
        }
    }

    /// The byte that the F register reads as.
    pub fn to_byte(&self) -> (r: u8)
        ensures
            r == flags_byte(*self),
            r % 16 == 0,
    {
        let mut r: u8 = 0;
        if self.zero {
            r = r + 0x80;
        }
        if self.sub {
            r = r + 0x40;
        }
        if self.half_carry {
            r = r + 0x20;
        }
        if self.carry {
            r = r + 0x10;
        }
        r
    }

    /// The flags that a byte written to F stands for.
    pub fn from_byte(byte: u8) -> (r: Flags)
        ensures
            r == flags_of_byte(byte),
    {
        Flags {
            zero: byte & 0x80 != 0,
            sub: byte & 0x40 != 0,
            half_carry: byte & 0x20 != 0,
            carry: byte & 0x10 != 0,
        }
    }
}

impl From<Flags> for u8 {
    fn from(flag: Flags) -> (r: u8) {
        flag.to_byte()
    }
}

impl vstd::std_specs::convert::FromSpecImpl<Flags> for u8 {
    open spec fn obeys_from_spec() -> bool {
        true
    }

    open spec fn from_spec(v: Flags) -> u8 {
        flags_byte(v)
    }
}

impl From<u8> for Flags {
    fn from(byte: u8) -> (r: Flags) {
        Flags::from_byte(byte)
    }
}

impl vstd::std_specs::convert::FromSpecImpl<u8> for Flags {
    open spec fn obeys_from_spec() -> bool {
        true
    }

    open spec fn from_spec(v: u8) -> Flags {
        flags_of_byte(v)
    }
}

/// Writing a byte to F and reading it back gives the byte with its low nibble
/// cleared; reading F and writing the result back leaves the flags unchanged.
pub proof fn lemma_flags_round_trip(b: u8, f: Flags)
    ensures
        flags_byte(flags_of_byte(b)) == b & 0xF0u8,
        flags_byte(flags_of_byte(b)) % 16 == 0,
        flags_of_byte(flags_byte(f)) == f,
{
    let z = b & 0x80u8 != 0;
    let n = b & 0x40u8 != 0;
    let h = b & 0x20u8 != 0;
    let c = b & 0x10u8 != 0;
    assert((bool_bit(z, 128) + bool_bit(n, 64) + bool_bit(h, 32) + bool_bit(c, 16)) == (b
        & 0xF0u8) as int) by {
        assert(((if b & 0x80u8 != 0 { 128u8 } else { 0u8 }) + (if b & 0x40u8 != 0 {
            64u8
        } else {
            0u8
        }) + (if b & 0x20u8 != 0 { 32u8 } else { 0u8 }) + (if b & 0x10u8 != 0 {
            16u8
        } else {
            0u8
        })) as int == (b & 0xF0u8) as int) by (bit_vector);
    }
    let v = flags_byte(f);
    assert(v & 0x80u8 != 0 <==> f.zero) by {
        let x: u8 = bool_bit(f.zero, 128) as u8;
        let y: u8 = (bool_bit(f.sub, 64) + bool_bit(f.half_carry, 32) + bool_bit(f.carry, 16)) as u8;
        assert(v == x + y);
        assert((x == 0u8 || x == 128u8) && y < 128u8 ==> ((((x + y) as u8) & 0x80u8 != 0) <==> x
            == 128u8)) by (bit_vector);
    }
    assert(v & 0x40u8 != 0 <==> f.sub) by {
        let x: u8 = bool_bit(f.zero, 128) as u8;
        let w: u8 = bool_bit(f.sub, 64) as u8;
        let y: u8 = (bool_bit(f.half_carry, 32) + bool_bit(f.carry, 16)) as u8;
        assert(v == x + w + y);
        assert((x == 0u8 || x == 128u8) && (w == 0u8 || w == 64u8) && y < 64u8 ==> ((((x + w
            + y) as u8) & 0x40u8 != 0) <==> w == 64u8)) by (bit_vector);
    }
    assert(v & 0x20u8 != 0 <==> f.half_carry) by {
        let x: u8 = (bool_bit(f.zero, 128) + bool_bit(f.sub, 64)) as u8;
        let w: u8 = bool_bit(f.half_carry, 32) as u8;
        let y: u8 = bool_bit(f.carry, 16) as u8;
        assert(v == x + w + y);
        assert((x == 0u8 || x == 64u8 || x == 128u8 || x == 192u8) && (w == 0u8 || w == 32u8)
            && y < 32u8 ==> ((((x + w + y) as u8) & 0x20u8 != 0) <==> w == 32u8)) by (bit_vector);
    }
    assert(v & 0x10u8 != 0 <==> f.carry) by {
        let x: u8 = (bool_bit(f.zero, 128) + bool_bit(f.sub, 64) + bool_bit(f.half_carry, 32)) as u8;
        let w: u8 = bool_bit(f.carry, 16) as u8;
        assert(v == x + w);
        assert(x % 32 == 0 && (w == 0u8 || w == 16u8) ==> ((((x + w) as u8) & 0x10u8 != 0)
            <==> w == 16u8)) by (bit_vector);
    }
}

} // verus!

use vstd::prelude::*;

verus! {

/// Options of the emulation driver.
pub struct Opts {
    pub show_debug_info: bool,
    pub show_serial_output: bool,
}

impl Opts {
    pub fn new(debug: bool, serial: bool) -> (r: Self)
        ensures
            r.show_debug_info == debug,
            r.show_serial_output == serial,
    {
        Opts { show_debug_info: debug, show_serial_output: serial }
    }
}

/// The word whose high byte is `high` and low byte is `low`.
pub open spec fn word_of(high: u8, low: u8) -> u16 {
    (high as int * 256 + low as int) as u16
}

/// Bit `p` of the byte `b`.
pub open spec fn bit8(b: u8, p: u8) -> bool {
    (b >> p) & 1u8 == 1u8
}

/// Bit `p` of the word `w`.
pub open spec fn bit16(w: u16, p: u16) -> bool {
    (w >> p) & 1u16 == 1u16
}

pub open spec fn set_bit_spec(b: u8, p: u8) -> u8 {
    b | (1u8 << p)
}

pub open spec fn reset_bit_spec(b: u8, p: u8) -> u8 {
    b & !(1u8 << p)
}

/// The byte with its two nibbles exchanged.
pub open spec fn swap_spec(b: u8) -> u8 {
    ((b % 16) * 16 + b / 16) as u8
}

/// Rotation of `b` one place left; bit 0 takes the previous carry when the
/// rotation goes through the carry, else the old bit 7. The second component
/// is the bit shifted out.
pub open spec fn rotl_spec(b: u8, prev_carry: bool, through_carry: bool) -> (u8, bool) {
    let low: int = if through_carry {
        if prev_carry { 1 } else { 0 }
    } else {
        b as int / 128
    };
    ((((b as int * 2) % 256) + low) as u8, b >= 128)
}

/// Rotation of `b` one place right; bit 7 takes the previous carry when the
/// rotation goes through the carry, else the old bit 0.
pub open spec fn rotr_spec(b: u8, prev_carry: bool, through_carry: bool) -> (u8, bool) {
    let high: int = if through_carry {
        if prev_carry { 128 } else { 0 }
    } else {
        (b as int % 2) * 128
    };
    ((b as int / 2 + high) as u8, b % 2 == 1)
}

pub fn bytes_to_word(high: u8, low: u8) -> (r: u16)
    ensures
        r == high as int * 256 + low as int,
        r == word_of(high, low),
{
    let r = ((high as u16) << 8u16) | (low as u16);
    assert(((high as u16) << 8u16) | (low as u16) == high as int * 256 + low as int)
        by (bit_vector);
    r
}

pub fn word_to_bytes(word: u16) -> (r: (u8, u8))
    ensures
        r.0 == word / 256,
        r.1 == word % 256,
{
    let high = (word >> 8u16) as u8;
    let low = word as u8;
    assert((word >> 8u16) as u8 == word / 256 && word as u8 == word % 256) by (bit_vector);
    (high, low)
}

pub fn is_bit_set(byte: u8, pos: usize) -> (r: bool)
    requires
        pos < 8,
    ensures
        r == bit8(byte, pos as u8),
{
    let p = pos as u8;
    let mask: u8 = 1u8 << p;
    assert(((byte & (1u8 << p)) != 0u8) == ((byte >> p) & 1u8 == 1u8)) by (bit_vector)
        requires
            p < 8,
    ;
    (byte & mask) != 0
}

pub fn is_bit_set_16(byte: u16, pos: usize) -> (r: bool)
    requires
        pos < 16,
    ensures
        r == bit16(byte, pos as u16),
{
    let p = pos as u16;
    let mask: u16 = 1u16 << p;
    assert(((byte & (1u16 << p)) != 0u16) == ((byte >> p) & 1u16 == 1u16)) by (bit_vector)
        requires
            p < 16,
    ;
    (byte & mask) != 0
}

pub fn reset_bit(byte: u8, pos: u8) -> (r: u8)
    requires
        pos < 8,
    ensures
        r == reset_bit_spec(byte, pos),
        !bit8(r, pos),
        forall|q: u8| q < 8 && q != pos ==> bit8(r, q) == bit8(byte, q),
{
    proof {
        lemma_reset_bit(byte, pos);
    }
    byte & !(1u8 << pos)
}

pub fn set_bit(byte: u8, pos: u8) -> (r: u8)
    requires
        pos < 8,
    ensures
        r == set_bit_spec(byte, pos),
        bit8(r, pos),
        forall|q: u8| q < 8 && q != pos ==> bit8(r, q) == bit8(byte, q),
{
    proof {
        lemma_set_bit(byte, pos);
    }
    byte | (1u8 << pos)
}

pub fn swap_nibbles(byte: u8) -> (r: u8)
    ensures
        r == swap_spec(byte),
{
    assert((byte >> 4u8) | (byte << 4u8) == ((byte % 16) * 16 + byte / 16) as u8) by (bit_vector);
    (byte >> 4u8) | (byte << 4u8)
}

pub fn le_bytes_to_word(low: u8, high: u8) -> (r: u16)
    ensures
        r == high as int * 256 + low as int,
        r == word_of(high, low),
{
    bytes_to_word(high, low)
}

/// Whether adding `b` to `a` carries out of the low nibble.
pub fn is_half_carry_inc8(a: u8, b: u8) -> (r: bool)
    ensures
        r == (a % 16 + b % 16 > 15),
{
    assert((a & 0x0Fu8) == a % 16 && (b & 0x0Fu8) == b % 16) by (bit_vector);
    let s: u8 = (a & 0x0F) + (b & 0x0F);
    assert(s < 32 ==> ((s & 0x10u8) == 0x10u8) == (s > 15)) by (bit_vector);
    (s & 0x10) == 0x10
}

/// Half carry of an 8-bit addition.
pub fn half_carry_add(a: u8, b: u8) -> (r: bool)
    ensures
        r == (a % 16 + b % 16 > 15),
{
    is_half_carry_inc8(a, b)
}

/// Half borrow of an 8-bit subtraction.
pub fn half_carry_sub(a: u8, b: u8) -> (r: bool)
    ensures
        r == (a % 16 < b % 16),
{
    assert((a & 0x0Fu8) == a % 16 && (b & 0x0Fu8) == b % 16) by (bit_vector);
    (a & 0x0F) < (b & 0x0F)
}

/// Carry out of bit 11 of a 16-bit addition.
pub fn half_carry_add_16(a: u16, b: u16) -> (r: bool)
    ensures
        r == (a % 4096 + b % 4096 > 4095),
{
    assert((a & 0x0FFFu16) == a % 4096 && (b & 0x0FFFu16) == b % 4096) by (bit_vector);
    (a & 0x0FFF) + (b & 0x0FFF) > 0x0FFF
}

/// Half-carry tests of the CPU's additions and subtractions.
pub trait HalfCarryCheck: Sized {
    spec fn half_carry_add_spec(&self, other: Self) -> bool;

    spec fn half_carry_sub_spec(&self, other: Self) -> bool;

    fn half_carry_add(&self, other: Self) -> (r: bool)
        ensures
            r == self.half_carry_add_spec(other),
    ;

    fn half_carry_sub(&self, other: Self) -> (r: bool)
        ensures
            r == self.half_carry_sub_spec(other),
    ;
}

impl HalfCarryCheck for u8 {
    /// Carry out of bit 3.
    open spec fn half_carry_add_spec(&self, other: u8) -> bool {
        *self % 16 + other % 16 > 15
    }

    /// Borrow from bit 4.
    open spec fn half_carry_sub_spec(&self, other: u8) -> bool {
        *self % 16 < other % 16
    }

    fn half_carry_add(&self, other: u8) -> (r: bool) {
        half_carry_add(*self, other)
    }

    fn half_carry_sub(&self, other: u8) -> (r: bool) {
        half_carry_sub(*self, other)
    }
}

impl HalfCarryCheck for u16 {
    /// Carry out of bit 11.
    open spec fn half_carry_add_spec(&self, other: u16) -> bool {
        *self % 4096 + other % 4096 > 4095
    }

    /// Borrow from bit 4 of the low byte.
    open spec fn half_carry_sub_spec(&self, other: u16) -> bool {
        *self % 16 < other % 16
    }

    fn half_carry_add(&self, other: u16) -> (r: bool) {
        half_carry_add_16(*self, other)
    }

    fn half_carry_sub(&self, other: u16) -> (r: bool) {
        (*self % 16) < (other % 16)
    }
}

pub fn rotate_left_helper(byte: u8, prev_carry: bool, through_carry: bool) -> (r: (u8, bool))
    ensures
        r == rotl_spec(byte, prev_carry, through_carry),
{
    let carry = byte >= 0x80;
    let shifted: u8 = ((byte as u16 * 2) % 256) as u8;
    let low: u8 = if through_carry {
        if prev_carry { 1 } else { 0 }
    } else {
        byte / 128
    };
    (shifted + low, carry)
}

pub fn rotate_right_helper(byte: u8, prev_carry: bool, through_carry: bool) -> (r: (u8, bool))
    ensures
        r == rotr_spec(byte, prev_carry, through_carry),
{
    let carry = byte % 2 == 1;
    let high: u8 = if through_carry {
        if prev_carry { 128 } else { 0 }
    } else {
        (byte % 2) * 128
    };
    (byte / 2 + high, carry)
}

pub proof fn lemma_set_bit(b: u8, p: u8)
    requires
        p < 8,
    ensures
        bit8(set_bit_spec(b, p), p),
        forall|q: u8| q < 8 && q != p ==> bit8(set_bit_spec(b, p), q) == bit8(b, q),
{
    assert(((b | (1u8 << p)) >> p) & 1u8 == 1u8) by (bit_vector)
        requires
            p < 8,
    ;
    assert forall|q: u8| q < 8 && q != p implies bit8(set_bit_spec(b, p), q) == bit8(b, q) by {
        assert((((b | (1u8 << p)) >> q) & 1u8 == 1u8) == ((b >> q) & 1u8 == 1u8)) by (bit_vector)
            requires
                p < 8,
                q < 8,
                q != p,
        ;
    }
}

pub proof fn lemma_reset_bit(b: u8, p: u8)
    requires
        p < 8,
    ensures
        !bit8(reset_bit_spec(b, p), p),
        forall|q: u8| q < 8 && q != p ==> bit8(reset_bit_spec(b, p), q) == bit8(b, q),
{
    assert(((b & !(1u8 << p)) >> p) & 1u8 == 0u8) by (bit_vector)
        requires
            p < 8,
    ;
    assert forall|q: u8| q < 8 && q != p implies bit8(reset_bit_spec(b, p), q) == bit8(b, q) by {
        assert((((b & !(1u8 << p)) >> q) & 1u8 == 1u8) == ((b >> q) & 1u8 == 1u8)) by (bit_vector)
            requires
                p < 8,
                q < 8,
                q != p,
        ;
    }
}

/// Splitting a word into its bytes and joining them again gives the word back,
/// and joining two bytes and splitting the word gives the bytes back.
pub proof fn lemma_word_bytes_round_trip(w: u16, high: u8, low: u8)
    ensures
        word_of((w / 256) as u8, (w % 256) as u8) == w,
        word_of(high, low) / 256 == high,
        word_of(high, low) % 256 == low,
{
}

/// Setting a bit makes it read as set; resetting it makes it read as clear.
pub proof fn lemma_set_reset_bit(b: u8, p: u8)
    requires
        p < 8,
    ensures
        bit8(set_bit_spec(b, p), p),
        !bit8(reset_bit_spec(b, p), p),
{
    lemma_set_bit(b, p);
    lemma_reset_bit(b, p);
}

/// Exchanging the nibbles twice gives the byte back.
pub proof fn lemma_swap_involution(b: u8)
    ensures
        swap_spec(swap_spec(b)) == b,
        (swap_spec(b) == 0) == (b == 0),
{
}

} // verus!

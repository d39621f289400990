use vstd::prelude::*;

use crate::cpu::registers::flags::Flags;
use crate::utils::{bit8, half_carry_add_16, is_bit_set, rotate_left_helper, rotate_right_helper, rotl_spec, rotr_spec, swap_nibbles, swap_spec};

verus! {

pub open spec fn flags(zero: bool, sub: bool, half_carry: bool, carry: bool) -> Flags {
    Flags { zero, sub, half_carry, carry }
}

pub open spec fn carry_int(c: bool) -> int {
    if c { 1 } else { 0 }
}

/// ADD (carry_in false) and ADC: the sum and its flags.
pub open spec fn add8_spec(a: u8, b: u8, carry_in: bool) -> (u8, Flags) {
    let c = carry_int(carry_in);
    let r = ((a + b + c) % 256) as u8;
    (r, flags(r == 0, false, a % 16 + b % 16 + c > 15, a + b + c > 255))
}

/// SUB/CP (borrow_in false) and SBC: the difference and its flags.
pub open spec fn sub8_spec(a: u8, b: u8, borrow_in: bool) -> (u8, Flags) {
    let c = carry_int(borrow_in);
    let r = ((a - b - c + 512) % 256) as u8;
    (r, flags(r == 0, true, a % 16 < b % 16 + c, a < b + c))
}

pub open spec fn and8_spec(a: u8, b: u8) -> (u8, Flags) {
    let r = a & b;
    (r, flags(r == 0, false, true, false))
}

pub open spec fn or8_spec(a: u8, b: u8) -> (u8, Flags) {
    let r = a | b;
    (r, flags(r == 0, false, false, false))
}

pub open spec fn xor8_spec(a: u8, b: u8) -> (u8, Flags) {
    let r = a ^ b;
    (r, flags(r == 0, false, false, false))
}

/// INC: C is kept.
pub open spec fn inc8_spec(v: u8, f: Flags) -> (u8, Flags) {
    let r = ((v + 1) % 256) as u8;
    (r, flags(r == 0, false, v % 16 == 15, f.carry))
}

/// DEC: C is kept.
pub open spec fn dec8_spec(v: u8, f: Flags) -> (u8, Flags) {
    let r = ((v + 255) % 256) as u8;
    (r, flags(r == 0, true, v % 16 == 0, f.carry))
}

/// DAA: decimal correction after an addition or subtraction.
pub open spec fn daa_spec(a: u8, f: Flags) -> (u8, Flags) {
    let (r, c): (int, bool) = if !f.sub {
        let (r1, c1): (int, bool) = if f.carry || a > 0x99 {
            ((a + 0x60) % 256, true)
        } else {
            (a as int, false)
        };
        if f.half_carry || r1 % 16 > 9 {
            ((r1 + 0x06) % 256, c1)
        } else {
            (r1, c1)
        }
    } else if f.carry {
        ((a + (if f.half_carry { 0x9Aint } else { 0xA0int })) % 256, true)
    } else if f.half_carry {
        ((a + 0xFA) % 256, false)
    } else {
        (a as int, false)
    };
    (r as u8, flags(r == 0, f.sub, false, c))
}

/// ADD HL, rr: Z is kept.
pub open spec fn add16_spec(hl: u16, v: u16, f: Flags) -> (u16, Flags) {
    let r = ((hl + v) % 65536) as u16;
    (r, flags(f.zero, false, hl % 4096 + v % 4096 > 4095, hl + v > 65535))
}

/// The signed value of a byte.
pub open spec fn signed8(e: u8) -> int {
    if e < 128 { e as int } else { e - 256 }
}

/// ADD SP, e8 and LD HL, SP+e8: H and C come from the unsigned low-byte sum.
pub open spec fn add_sp_spec(sp: u16, e: u8) -> (u16, Flags) {
    let r = ((sp + signed8(e) + 65536) % 65536) as u16;
    (r, flags(false, false, sp % 16 + e % 16 > 15, sp % 256 + e > 255))
}

/// The A-register rotations RLCA, RLA: Z is always cleared.
pub open spec fn rotl_a_spec(a: u8, f: Flags, through_carry: bool) -> (u8, Flags) {
    let (r, c) = rotl_spec(a, f.carry, through_carry);
    (r, flags(false, false, false, c))
}

/// RRCA, RRA.
pub open spec fn rotr_a_spec(a: u8, f: Flags, through_carry: bool) -> (u8, Flags) {
    let (r, c) = rotr_spec(a, f.carry, through_carry);
    (r, flags(false, false, false, c))
}

/// RLC, RL: Z from the result.
pub open spec fn rotl_cb_spec(v: u8, f: Flags, through_carry: bool) -> (u8, Flags) {
    let (r, c) = rotl_spec(v, f.carry, through_carry);
    (r, flags(r == 0, false, false, c))
}

/// RRC, RR.
pub open spec fn rotr_cb_spec(v: u8, f: Flags, through_carry: bool) -> (u8, Flags) {
    let (r, c) = rotr_spec(v, f.carry, through_carry);
    (r, flags(r == 0, false, false, c))
}

pub open spec fn sla_spec(v: u8) -> (u8, Flags) {
    let r = ((v * 2) % 256) as u8;
    (r, flags(r == 0, false, false, v >= 128))
}

/// SRA keeps the sign bit.
pub open spec fn sra_spec(v: u8) -> (u8, Flags) {
    let r = (v / 2 + (if v >= 128 { 128int } else { 0 })) as u8;
    (r, flags(r == 0, false, false, v % 2 == 1))
}

pub open spec fn srl_spec(v: u8) -> (u8, Flags) {
    let r = (v / 2) as u8;
    (r, flags(r == 0, false, false, v % 2 == 1))
}

pub open spec fn swap_flags_spec(v: u8) -> (u8, Flags) {
    let r = swap_spec(v);
    (r, flags(r == 0, false, false, false))
}

/// BIT: Z is the complement of the bit, C is kept.
pub open spec fn bit_flags_spec(v: u8, pos: u8, f: Flags) -> Flags {
    flags(!bit8(v, pos), false, true, f.carry)
}

fn zero_flag(r: u8) -> (z: bool)
    ensures
        z == (r == 0),
{
    r == 0
}

pub fn alu_add(a: u8, b: u8, carry_in: bool) -> (r: (u8, Flags))
    ensures
        r == add8_spec(a, b, carry_in),
{
    let c: u16 = if carry_in {
        1
    } else {
        0
    };
    let sum: u16 = a as u16 + b as u16 + c;
    let res = (sum % 256) as u8;
    let half = (a % 16) as u16 + (b % 16) as u16 + c > 15;
    (res, Flags { zero: zero_flag(res), sub: false, half_carry: half, carry: sum > 255 })
}

pub fn alu_sub(a: u8, b: u8, borrow_in: bool) -> (r: (u8, Flags))
    ensures
        r == sub8_spec(a, b, borrow_in),
{
    let c: u16 = if borrow_in {
        1
    } else {
        0
    };
    let res = ((a as u16 + 512 - b as u16 - c) % 256) as u8;
    let half = ((a % 16) as u16) < (b % 16) as u16 + c;
    let carry = (a as u16) < b as u16 + c;
    (res, Flags { zero: zero_flag(res), sub: true, half_carry: half, carry })
}

pub fn alu_and(a: u8, b: u8) -> (r: (u8, Flags))
    ensures
        r == and8_spec(a, b),
{
    let res = a & b;
    (res, Flags { zero: res == 0, sub: false, half_carry: true, carry: false })
}

pub fn alu_or(a: u8, b: u8) -> (r: (u8, Flags))
    ensures
        r == or8_spec(a, b),
{
    let res = a | b;
    (res, Flags { zero: res == 0, sub: false, half_carry: false, carry: false })
}

pub fn alu_xor(a: u8, b: u8) -> (r: (u8, Flags))
    ensures
        r == xor8_spec(a, b),
{
    let res = a ^ b;
    (res, Flags { zero: res == 0, sub: false, half_carry: false, carry: false })
}

pub fn alu_inc(v: u8, f: Flags) -> (r: (u8, Flags))
    ensures
        r == inc8_spec(v, f),
{
    let res = if v == 255 {
        0
    } else {
        v + 1
    };
    (res, Flags { zero: res == 0, sub: false, half_carry: v % 16 == 15, carry: f.carry })
}

pub fn alu_dec(v: u8, f: Flags) -> (r: (u8, Flags))
    ensures
        r == dec8_spec(v, f),
{
    let res = if v == 0 {
        255
    } else {
        v - 1
    };
    (res, Flags { zero: res == 0, sub: true, half_carry: v % 16 == 0, carry: f.carry })
}

pub fn alu_daa(a: u8, f: Flags) -> (r: (u8, Flags))
    ensures
        r == daa_spec(a, f),
{
    let mut acc: u16 = a as u16;
    let mut is_carry = false;
    if !f.sub {
        if f.carry || a > 0x99 {
            acc = (acc + 0x60) % 256;
            is_carry = true;
        }
        if f.half_carry || acc % 16 > 9 {
            acc = (acc + 0x06) % 256;
        }
    } else if f.carry {
        is_carry = true;
        let to_add: u16 = if f.half_carry {
            0x9A
        } else {
            0xA0
        };
        acc = (acc + to_add) % 256;
    } else if f.half_carry {
        acc = (acc + 0xFA) % 256;
    }
    let res = acc as u8;
    (res, Flags { zero: acc == 0, sub: f.sub, half_carry: false, carry: is_carry })
}

pub fn alu_add16(hl: u16, v: u16, f: Flags) -> (r: (u16, Flags))
    ensures
        r == add16_spec(hl, v, f),
{
    let sum: u32 = hl as u32 + v as u32;
    let res = (sum % 65536) as u16;
    (res, Flags { zero: f.zero, sub: false, half_carry: half_carry_add_16(hl, v), carry: sum > 65535 })
}

pub fn alu_add_sp(sp: u16, e: u8) -> (r: (u16, Flags))
    ensures
        r == add_sp_spec(sp, e),
{
    let res: u16 = if e < 128 {
        ((sp as u32 + e as u32) % 65536) as u16
    } else {
        ((sp as u32 + 65536 + e as u32 - 256) % 65536) as u16
    };
    let half = (sp % 16) as u8 + e % 16 > 15;
    let carry = (sp % 256) + (e as u16) > 255;
    (res, Flags { zero: false, sub: false, half_carry: half, carry })
}

pub fn alu_rotl_a(a: u8, f: Flags, through_carry: bool) -> (r: (u8, Flags))
    ensures
        r == rotl_a_spec(a, f, through_carry),
{
    let (res, c) = rotate_left_helper(a, f.carry, through_carry);
    (res, Flags { zero: false, sub: false, half_carry: false, carry: c })
}

pub fn alu_rotr_a(a: u8, f: Flags, through_carry: bool) -> (r: (u8, Flags))
    ensures
        r == rotr_a_spec(a, f, through_carry),
{
    let (res, c) = rotate_right_helper(a, f.carry, through_carry);
    (res, Flags { zero: false, sub: false, half_carry: false, carry: c })
}

pub fn alu_rotl(v: u8, f: Flags, through_carry: bool) -> (r: (u8, Flags))
    ensures
        r == rotl_cb_spec(v, f, through_carry),
{
    let (res, c) = rotate_left_helper(v, f.carry, through_carry);
    (res, Flags { zero: res == 0, sub: false, half_carry: false, carry: c })
}

pub fn alu_rotr(v: u8, f: Flags, through_carry: bool) -> (r: (u8, Flags))
    ensures
        r == rotr_cb_spec(v, f, through_carry),
{
    let (res, c) = rotate_right_helper(v, f.carry, through_carry);
    (res, Flags { zero: res == 0, sub: false, half_carry: false, carry: c })
}

pub fn alu_sla(v: u8) -> (r: (u8, Flags))
    ensures
        r == sla_spec(v),
{
    let res = ((v as u16 * 2) % 256) as u8;
    (res, Flags { zero: res == 0, sub: false, half_carry: false, carry: v >= 128 })
}

pub fn alu_sra(v: u8) -> (r: (u8, Flags))
    ensures
        r == sra_spec(v),
{
    let res = v / 2 + if v >= 128 {
        128
    } else {
        0
    };
    (res, Flags { zero: res == 0, sub: false, half_carry: false, carry: v % 2 == 1 })
}

pub fn alu_srl(v: u8) -> (r: (u8, Flags))
    ensures
        r == srl_spec(v),
{
    let res = v / 2;
    (res, Flags { zero: res == 0, sub: false, half_carry: false, carry: v % 2 == 1 })
}

pub fn alu_swap(v: u8) -> (r: (u8, Flags))
    ensures
        r == swap_flags_spec(v),
{
    let res = swap_nibbles(v);
    (res, Flags { zero: res == 0, sub: false, half_carry: false, carry: false })
}

pub fn alu_bit(v: u8, pos: u8, f: Flags) -> (r: Flags)
    requires
        pos < 8,
    ensures
        r == bit_flags_spec(v, pos, f),
{
    Flags { zero: !is_bit_set(v, pos as usize), sub: false, half_carry: true, carry: f.carry }
}

/// The half-carry flags of ADD and SUB are the low-nibble carry and borrow.
pub proof fn lemma_half_carry_rules(a: u8, b: u8)
    ensures
        add8_spec(a, b, false).1.half_carry <==> (a & 0xFu8) + (b & 0xFu8) > 0xF,
        sub8_spec(a, b, false).1.half_carry <==> (a & 0xFu8) < (b & 0xFu8),
        sub8_spec(a, b, false).0 == add8_spec(a, ((256 - b) % 256) as u8, false).0,
{
    assert((a & 0xFu8) == a % 16 && (b & 0xFu8) == b % 16) by (bit_vector);
}

/// SWAP twice gives the byte back; the flags of the second application are
/// Z from the result and nothing else.
pub proof fn lemma_swap_twice(b: u8)
    ensures
        swap_flags_spec(swap_flags_spec(b).0).0 == b,
        swap_flags_spec(swap_flags_spec(b).0).1 == flags(b == 0, false, false, false),
{
}

} // verus!

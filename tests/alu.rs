use gameboy_emulator_lib::cpu::alu::{
    alu_add, alu_add16, alu_add_sp, alu_and, alu_bit, alu_daa, alu_dec, alu_inc, alu_or,
    alu_rotl, alu_sla, alu_sra, alu_srl, alu_sub, alu_swap, alu_xor,
};
use gameboy_emulator_lib::cpu::registers::flags::Flags;

fn fl(zero: bool, sub: bool, half_carry: bool, carry: bool) -> Flags {
    Flags { zero, sub, half_carry, carry }
}

#[test]
fn add_flags() {
    assert_eq!(alu_add(0x80, 0x80, false), (0x00, fl(true, false, false, true)));
    assert_eq!(alu_add(0x0F, 0x01, false), (0x10, fl(false, false, true, false)));
    assert_eq!(alu_add(0x0F, 0x00, true), (0x10, fl(false, false, true, false)));
    assert_eq!(alu_add(0xFF, 0x00, true), (0x00, fl(true, false, true, true)));
}

#[test]
fn sub_flags() {
    assert_eq!(alu_sub(0x10, 0x01, false), (0x0F, fl(false, true, true, false)));
    assert_eq!(alu_sub(0x00, 0x01, false), (0xFF, fl(false, true, true, true)));
    assert_eq!(alu_sub(0x05, 0x05, false), (0x00, fl(true, true, false, false)));
    assert_eq!(alu_sub(0x05, 0x04, true), (0x00, fl(true, true, false, false)));
}

#[test]
fn half_carry_formula_on_all_pairs() {
    for a in (0..=255u8).step_by(7) {
        for b in (0..=255u8).step_by(5) {
            let (_, f) = alu_add(a, b, false);
            assert_eq!(f.half_carry, (a & 0xF) + (b & 0xF) > 0xF);
            let (_, g) = alu_sub(a, b, false);
            assert_eq!(g.half_carry, (a & 0xF) < (b & 0xF));
            assert_eq!(alu_add(a, b, false).0, a.wrapping_add(b));
            assert_eq!(alu_sub(a, b, false).0, a.wrapping_sub(b));
        }
    }
}

#[test]
fn logic_flags() {
    assert_eq!(alu_and(0xF0, 0x0F), (0x00, fl(true, false, true, false)));
    assert_eq!(alu_or(0xF0, 0x0F), (0xFF, fl(false, false, false, false)));
    assert_eq!(alu_xor(0xAA, 0xAA), (0x00, fl(true, false, false, false)));
}

#[test]
fn inc_dec_keep_carry() {
    let c = fl(false, false, false, true);
    assert_eq!(alu_inc(0xFF, c), (0x00, fl(true, false, true, true)));
    assert_eq!(alu_dec(0x10, c), (0x0F, fl(false, true, true, true)));
    assert_eq!(alu_dec(0x01, fl(false, false, false, false)), (0x00, fl(true, true, false, false)));
}

#[test]
fn daa_corrects_bcd() {
    let (sum, f) = alu_add(0x15, 0x27, false);
    assert_eq!(alu_daa(sum, f).0, 0x42);
    let (diff, g) = alu_sub(0x42, 0x15, false);
    assert_eq!(alu_daa(diff, g).0, 0x27);
    let (s2, f2) = alu_add(0x99, 0x01, false);
    assert_eq!(alu_daa(s2, f2), (0x00, fl(true, false, false, true)));
}

#[test]
fn sixteen_bit_adds() {
    let f = fl(true, true, false, false);
    assert_eq!(alu_add16(0x0FFF, 0x0001, f), (0x1000, fl(true, false, true, false)));
    assert_eq!(alu_add16(0xFFFF, 0x0001, f), (0x0000, fl(true, false, true, true)));
    assert_eq!(alu_add_sp(0x00FF, 0x01), (0x0100, fl(false, false, true, true)));
    assert_eq!(alu_add_sp(0x1000, 0xFF), (0x0FFF, fl(false, false, false, false)));
}

#[test]
fn shifts_and_swap() {
    let f = fl(false, false, false, false);
    assert_eq!(alu_rotl(0x80, f, false), (0x01, fl(false, false, false, true)));
    assert_eq!(alu_rotl(0x80, f, true), (0x00, fl(true, false, false, true)));
    assert_eq!(alu_sla(0x81), (0x02, fl(false, false, false, true)));
    assert_eq!(alu_sra(0x81), (0xC0, fl(false, false, false, true)));
    assert_eq!(alu_srl(0x01), (0x00, fl(true, false, false, true)));
    let (once, _) = alu_swap(0xF1);
    assert_eq!(once, 0x1F);
    assert_eq!(alu_swap(once), (0xF1, fl(false, false, false, false)));
    assert_eq!(alu_swap(0x00), (0x00, fl(true, false, false, false)));
    assert_eq!(alu_bit(0x80, 7, f), fl(false, false, true, false));
    assert_eq!(alu_bit(0x7F, 7, fl(false, true, false, true)), fl(true, false, true, true));
}

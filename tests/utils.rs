use gameboy_emulator_lib::rom::Rom;
use gameboy_emulator_lib::utils::HalfCarryCheck;
use gameboy_emulator_lib::utils::{
    bytes_to_word, half_carry_add, half_carry_sub, is_bit_set, is_half_carry_inc8,
    le_bytes_to_word, reset_bit, rotate_left_helper, rotate_right_helper, set_bit, swap_nibbles,
    word_to_bytes,
};

#[test]
fn test_half_carry() {
    assert_eq!(true, is_half_carry_inc8(10, 12));
    assert_eq!(false, is_half_carry_inc8(5, 4));
}

#[test]
fn utils_test_bytes_to_word() {
    let res1 = bytes_to_word(0x10, 0x10);
    assert_eq!(res1, 0x1010);
}

#[test]
fn utils_test_word_to_bytes() {
    let high = 0xab;
    let low = 0xde;
    let word = bytes_to_word(high, low);
    let res1 = word_to_bytes(word);
    assert_eq!(res1, (high, low));
}

#[test]
fn utils_test_is_bit_set() {
    let n = 0xFD;
    assert_eq!(is_bit_set(n, 0), true);
    assert_eq!(is_bit_set(n, 1), false);
    assert_eq!(is_bit_set(n, 2), true);
    assert_eq!(is_bit_set(n, 3), true);
    assert_eq!(is_bit_set(n, 4), true);
    assert_eq!(is_bit_set(n, 5), true);
    assert_eq!(is_bit_set(n, 6), true);
    assert_eq!(is_bit_set(n, 7), true);
}

#[test]
fn word_round_trip_on_samples() {
    for w in [0x0000u16, 0x00FF, 0xFF00, 0x1234, 0xFFFF, 0xBEEF] {
        let (h, l) = word_to_bytes(w);
        assert_eq!(bytes_to_word(h, l), w);
        assert_eq!(le_bytes_to_word(l, h), w);
    }
    assert_eq!(le_bytes_to_word(0x34, 0x12), 0x1234);
}

#[test]
fn set_and_reset_bit_read_back() {
    for b in [0x00u8, 0xFF, 0xA5, 0x5A] {
        for p in 0..8u8 {
            assert!(is_bit_set(set_bit(b, p), p as usize));
            assert!(!is_bit_set(reset_bit(b, p), p as usize));
        }
    }
    assert_eq!(set_bit(0x00, 7), 0x80);
    assert_eq!(reset_bit(0xFF, 0), 0xFE);
}

#[test]
fn swap_nibbles_twice_is_identity() {
    assert_eq!(swap_nibbles(0xAB), 0xBA);
    for b in 0..=255u8 {
        assert_eq!(swap_nibbles(swap_nibbles(b)), b);
    }
}

#[test]
fn half_carry_rules() {
    assert!(half_carry_add(0x0F, 0x01));
    assert!(!half_carry_add(0x0E, 0x01));
    assert!(half_carry_sub(0x10, 0x01));
    assert!(!half_carry_sub(0x11, 0x01));
}

#[test]
fn rotations() {
    assert_eq!(rotate_left_helper(0x85, false, false), (0x0B, true));
    assert_eq!(rotate_left_helper(0x85, false, true), (0x0A, true));
    assert_eq!(rotate_left_helper(0x05, true, true), (0x0B, false));
    assert_eq!(rotate_right_helper(0x01, false, false), (0x80, true));
    assert_eq!(rotate_right_helper(0x01, false, true), (0x00, true));
    assert_eq!(rotate_right_helper(0x02, true, true), (0x81, false));
}

#[test]
fn half_carry_trait_on_bytes_and_words() {
    assert!(0x0Fu8.half_carry_add(0x01));
    assert!(!0x0Eu8.half_carry_add(0x01));
    assert!(0x10u8.half_carry_sub(0x01));
    assert!(0x0FFFu16.half_carry_add(0x0001));
    assert!(!0x0FFEu16.half_carry_add(0x0001));
}

#[test]
fn rom_keeps_its_bytes() {
    let rom = Rom::from_data(vec![1, 2, 3]);
    assert_eq!(rom.size(), 3);
    assert_eq!(rom.data, vec![1, 2, 3]);
}

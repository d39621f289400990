use gameboy_emulator_lib::cpu::registers::flags::{FlagType, Flags};
use gameboy_emulator_lib::cpu::registers::{Reg16, Reg8, Registers};

#[test]
fn flags_test_from_trait_impl() {
    let f = Flags {
        zero: true,
        sub: false,
        half_carry: true,
        carry: true,
    };

    let res: u8 = f.into();
    let res_flag: Flags = res.into();

    assert_eq!(res, 0b10110000);
    assert_eq!(res_flag, f);
}

#[test]
fn flags_test_set_flag() {
    let mut f = Flags {
        zero: true,
        sub: false,
        half_carry: true,
        carry: true,
    };

    f.reset_flag(FlagType::Zero);
    f.set_flag(FlagType::Sub);
    f.set_flag(FlagType::HalfCarry);
    f.set_flag(FlagType::Carry);

    let res: u8 = f.into();
    assert_eq!(res, 0b01110000);
}

#[test]
fn f_register_drops_low_nibble() {
    for b in 0..=255u8 {
        let f: Flags = b.into();
        let back: u8 = f.into();
        assert_eq!(back, b & 0xF0);
    }
    let mut f = Flags::new();
    f.reset_flags();
    assert_eq!(f.to_byte(), 0);
}

#[test]
fn af_pair_masks_low_nibble() {
    let mut r = Registers::new();
    r.set_reg_pair(0x12FF, Reg16::AF);
    assert_eq!(r.get_reg_pair(Reg16::AF), 0x12F0);
    r.set_reg(0x0F, Reg8::F);
    assert_eq!(r.get_flags().to_byte(), 0x00);
    r.set_reg_pair(0xBEEF, Reg16::HL);
    assert_eq!((r.h, r.l), (0xBE, 0xEF));
    assert_eq!(r.get_reg_pair(Reg16::HL), 0xBEEF);
}

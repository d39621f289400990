use gameboy_emulator_lib::cpu::opcodes::{
    ALU8Dest, ALU8Op, ALU8Src, BitDest, BitOp, BitPos, Load16Dest, Load16Op, Load16Src,
    Load8Dest, Load8Op, Load8Src, MiscOp,
};
use gameboy_emulator_lib::cpu::operation::Operation;

#[test]
fn operations_test_construct_opcode() {
    let op = 0x12;
    let res_1 = Operation::construct_opcode(op, false);
    let res_2 = Operation::construct_opcode(op, true);

    assert_eq!(res_1, 0x0012);
    assert_eq!(res_2, 0xCB12);

    let op = 0xcb;
    let res_1 = Operation::construct_opcode(op, false);
    let res_2 = Operation::construct_opcode(op, true);

    assert_eq!(res_1, 0x00cb);
    assert_eq!(res_2, 0xCBcb);
}

#[test]
fn operations_test_macros() {
    let op = Operation::get_operation(0x01, false).unwrap();

    assert_eq!(
        op,
        Operation::Load16(Load16Op::LD(Load16Dest::BC, Load16Src::Direct16Bit))
    );
}

#[test]
fn prefixed_test_construct_opcode() {
    let op = 0x12;
    let res_1 = Operation::construct_opcode(op, false);
    let res_2 = Operation::construct_opcode(op, true);

    assert_eq!(res_1, 0x0012);
    assert_eq!(res_2, 0xCB12);

    let op = 0xcb;
    let res_1 = Operation::construct_opcode(op, false);
    let res_2 = Operation::construct_opcode(op, true);

    assert_eq!(res_1, 0x00cb);
    assert_eq!(res_2, 0xCBcb);
}

#[test]
fn prefixed_test_macros() {
    let op = Operation::get_operation(0x01, false).unwrap();

    assert_eq!(
        op,
        Operation::Load16(Load16Op::LD(Load16Dest::BC, Load16Src::Direct16Bit))
    );
}

#[test]
fn illegal_opcodes_do_not_decode() {
    let illegal = [0xD3u8, 0xDB, 0xDD, 0xE3, 0xE4, 0xEB, 0xEC, 0xED, 0xF4, 0xFC, 0xFD];
    for op in 0..=255u8 {
        let decoded = Operation::get_operation(op, false);
        assert_eq!(decoded.is_none(), illegal.contains(&op));
        assert!(Operation::get_operation(op, true).is_some());
    }
}

#[test]
fn decodes_regular_blocks() {
    assert_eq!(
        Operation::get_operation(0x41, false),
        Some(Operation::Load8(Load8Op::LD(Load8Dest::B, Load8Src::C)))
    );
    assert_eq!(
        Operation::get_operation(0x76, false),
        Some(Operation::Misc(MiscOp::HALT))
    );
    assert_eq!(
        Operation::get_operation(0x86, false),
        Some(Operation::ALU8(ALU8Op::ADD(ALU8Dest::A, ALU8Src::HL)))
    );
    assert_eq!(
        Operation::get_operation(0xBF, false),
        Some(Operation::ALU8(ALU8Op::CP(ALU8Dest::A)))
    );
    assert_eq!(
        Operation::get_operation(0x37, true),
        Some(Operation::Bit(BitOp::SWAP(BitDest::A)))
    );
    assert_eq!(
        Operation::get_operation(0x7E, true),
        Some(Operation::Bit(BitOp::BIT(BitPos::B7, BitDest::HL)))
    );
    assert_eq!(
        Operation::get_operation(0xC0, true),
        Some(Operation::Bit(BitOp::SET(BitPos::B0, BitDest::B)))
    );
}

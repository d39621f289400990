use vstd::prelude::*;

use crate::cpu::opcodes::{
    ALU16Dest, ALU16Op, ALU16Src, ALU8Dest, ALU8Op, ALU8Src, BitDest, BitOp, BitPos,
    JumpCondition, JumpOp, Load16Dest, Load16Op, Load16Src, Load8Dest, Load8Op, Load8Src, MiscOp,
    RSTTarget,
};
use crate::cpu::{alu16_handlers, alu8_handlers, bit_handlers, jump_handlers, load16_handlers, load8_handlers, misc_handlers, CPU};

verus! {

/// The byte that selects the CB-prefixed table.
pub const PREFIX_INST: u8 = 0xCB;

/// A decoded instruction, by family.
#[derive(PartialEq, Eq, Structural, Debug, Clone, Copy)]
pub enum Operation {
    Misc(MiscOp),
    Load8(Load8Op),
    Load16(Load16Op),
    ALU16(ALU16Op),
    ALU8(ALU8Op),
    Bit(BitOp),
    Jump(JumpOp),
}

/// The unprefixed opcodes that no instruction has.
pub open spec fn is_illegal(op: u8) -> bool {
    op == 0xD3 || op == 0xDB || op == 0xDD || op == 0xE3 || op == 0xE4 || op == 0xEB || op
        == 0xEC || op == 0xED || op == 0xF4 || op == 0xFC || op == 0xFD
}

/// The register operand that a 3-bit field names: B, C, D, E, H, L, (HL), A.
pub open spec fn target_of(z: int) -> BitDest {
    if z == 0 {
        BitDest::B
    } else if z == 1 {
        BitDest::C
    } else if z == 2 {
        BitDest::D
    } else if z == 3 {
        BitDest::E
    } else if z == 4 {
        BitDest::H
    } else if z == 5 {
        BitDest::L
    } else if z == 6 {
        BitDest::HL
    } else {
        BitDest::A
    }
}

pub open spec fn load_dest_of(z: int) -> Load8Dest {
    match target_of(z) {
        BitDest::B => Load8Dest::B,
        BitDest::C => Load8Dest::C,
        BitDest::D => Load8Dest::D,
        BitDest::E => Load8Dest::E,
        BitDest::H => Load8Dest::H,
        BitDest::L => Load8Dest::L,
        BitDest::HL => Load8Dest::HL,
        BitDest::A => Load8Dest::A,
    }
}

pub open spec fn load_src_of(z: int) -> Load8Src {
    match target_of(z) {
        BitDest::B => Load8Src::B,
        BitDest::C => Load8Src::C,
        BitDest::D => Load8Src::D,
        BitDest::E => Load8Src::E,
        BitDest::H => Load8Src::H,
        BitDest::L => Load8Src::L,
        BitDest::HL => Load8Src::HL,
        BitDest::A => Load8Src::A,
    }
}

pub open spec fn alu_dest_of(z: int) -> ALU8Dest {
    match target_of(z) {
        BitDest::B => ALU8Dest::B,
        BitDest::C => ALU8Dest::C,
        BitDest::D => ALU8Dest::D,
        BitDest::E => ALU8Dest::E,
        BitDest::H => ALU8Dest::H,
        BitDest::L => ALU8Dest::L,
        BitDest::HL => ALU8Dest::HL,
        BitDest::A => ALU8Dest::A,
    }
}

pub open spec fn alu_src_of(z: int) -> ALU8Src {
    match target_of(z) {
        BitDest::B => ALU8Src::B,
        BitDest::C => ALU8Src::C,
        BitDest::D => ALU8Src::D,
        BitDest::E => ALU8Src::E,
        BitDest::H => ALU8Src::H,
        BitDest::L => ALU8Src::L,
        BitDest::HL => ALU8Src::HL,
        BitDest::A => ALU8Src::A,
    }
}

/// The CB-prefixed instruction of an opcode: bits 7..6 pick the group,
/// bits 5..3 the operation or bit, bits 2..0 the operand.
pub open spec fn cb_operation(op: u8) -> Operation {
    let y = (op / 8) % 8;
    let t = target_of((op % 8) as int);
    if op < 0x40 {
        Operation::Bit(
            if y == 0 {
                BitOp::RLC(t)
            } else if y == 1 {
                BitOp::RRC(t)
            } else if y == 2 {
                BitOp::RL(t)
            } else if y == 3 {
                BitOp::RR(t)
            } else if y == 4 {
                BitOp::SLA(t)
            } else if y == 5 {
                BitOp::SRA(t)
            } else if y == 6 {
                BitOp::SWAP(t)
            } else {
                BitOp::SRL(t)
            },
        )
    } else if op < 0x80 {
        Operation::Bit(BitOp::BIT(BitPos::of_pos(y as u8), t))
    } else if op < 0xC0 {
        Operation::Bit(BitOp::RES(BitPos::of_pos(y as u8), t))
    } else {
        Operation::Bit(BitOp::SET(BitPos::of_pos(y as u8), t))
    }
}

/// The register-to-register loads 0x40..0x7F (0x76 is HALT) and the
/// accumulator operations 0x80..0xBF, by their bit fields.
pub open spec fn block_operation(op: u8) -> Operation {
    let y = (op / 8) % 8;
    let z = op % 8;
    if op < 0x80 {
        Operation::Load8(Load8Op::LD(load_dest_of(y as int), load_src_of(z as int)))
    } else {
        Operation::ALU8(
            if y == 0 {
                ALU8Op::ADD(ALU8Dest::A, alu_src_of(z as int))
            } else if y == 1 {
                ALU8Op::ADC(ALU8Dest::A, alu_src_of(z as int))
            } else if y == 2 {
                ALU8Op::SUB(alu_dest_of(z as int))
            } else if y == 3 {
                ALU8Op::SBC(ALU8Dest::A, alu_src_of(z as int))
            } else if y == 4 {
                ALU8Op::AND(alu_dest_of(z as int))
            } else if y == 5 {
                ALU8Op::XOR(alu_dest_of(z as int))
            } else if y == 6 {
                ALU8Op::OR(alu_dest_of(z as int))
            } else {
                ALU8Op::CP(alu_dest_of(z as int))
            },
        )
    }
}

/// The effect of running a decoded instruction: the state `new` follows `old`
/// as the handler of the instruction states.
pub open spec fn executes(new: CPU, old: CPU, op: Operation) -> bool {
    match op {
        Operation::Misc(o) => match o {
            MiscOp::NOP => misc_handlers::nop_done(new, old),
            MiscOp::STOP => misc_handlers::stop_done(new, old),
            MiscOp::HALT => misc_handlers::halt_done(new, old),
            MiscOp::PREFIX => new == old,
            MiscOp::EI => misc_handlers::ei_done(new, old),
            MiscOp::DI => misc_handlers::di_done(new, old),
        },
        Operation::Load8(o) => match o {
            Load8Op::LD(dest, src) => load8_handlers::ld_done(new, old, dest, src),
            Load8Op::LDH(dest, src) => load8_handlers::ldh_done(new, old, dest, src),
        },
        Operation::Load16(o) => match o {
            Load16Op::LD(dest, src) => load16_handlers::ld_done(new, old, dest, src),
            Load16Op::POP(dest) => load16_handlers::pop_done(new, old, dest),
            Load16Op::PUSH(dest) => load16_handlers::push_done(new, old, dest),
        },
        Operation::ALU16(o) => match o {
            ALU16Op::INC(dest) => alu16_handlers::inc_done(new, old, dest),
            ALU16Op::ADD(dest, src) => alu16_handlers::add_done(new, old, dest, src),
            ALU16Op::DEC(dest) => alu16_handlers::dec_done(new, old, dest),
        },
        Operation::ALU8(o) => match o {
            ALU8Op::DAA => alu8_handlers::daa_done(new, old),
            ALU8Op::CPL => alu8_handlers::cpl_done(new, old),
            ALU8Op::SCF => alu8_handlers::scf_done(new, old),
            ALU8Op::CCF => alu8_handlers::ccf_done(new, old),
            ALU8Op::INC(dest) => alu8_handlers::inc_done(new, old, dest),
            ALU8Op::DEC(dest) => alu8_handlers::dec_done(new, old, dest),
            ALU8Op::SUB(dest) => alu8_handlers::sub_done(new, old, dest),
            ALU8Op::AND(dest) => alu8_handlers::and_done(new, old, dest),
            ALU8Op::XOR(dest) => alu8_handlers::xor_done(new, old, dest),
            ALU8Op::OR(dest) => alu8_handlers::or_done(new, old, dest),
            ALU8Op::CP(dest) => alu8_handlers::cp_done(new, old, dest),
            ALU8Op::ADD(dest, src) => alu8_handlers::add_done(new, old, dest, src),
            ALU8Op::ADC(dest, src) => alu8_handlers::adc_done(new, old, dest, src),
            ALU8Op::SBC(dest, src) => alu8_handlers::sbc_done(new, old, dest, src),
        },
        Operation::Bit(o) => match o {
            BitOp::RLCA => bit_handlers::rlca_done(new, old),
            BitOp::RRCA => bit_handlers::rrca_done(new, old),
            BitOp::RLA => bit_handlers::rla_done(new, old),
            BitOp::RRA => bit_handlers::rra_done(new, old),
            BitOp::RLC(dest) => bit_handlers::rlc_done(new, old, dest),
            BitOp::RRC(dest) => bit_handlers::rrc_done(new, old, dest),
            BitOp::RL(dest) => bit_handlers::rl_done(new, old, dest),
            BitOp::RR(dest) => bit_handlers::rr_done(new, old, dest),
            BitOp::SLA(dest) => bit_handlers::sla_done(new, old, dest),
            BitOp::SRA(dest) => bit_handlers::sra_done(new, old, dest),
            BitOp::SWAP(dest) => bit_handlers::swap_done(new, old, dest),
            BitOp::SRL(dest) => bit_handlers::srl_done(new, old, dest),
            BitOp::BIT(pos, dest) => bit_handlers::bit_done(new, old, pos, dest),
            BitOp::RES(pos, dest) => bit_handlers::res_done(new, old, pos, dest),
            BitOp::SET(pos, dest) => bit_handlers::set_done(new, old, pos, dest),
        },
        Operation::Jump(o) => match o {
            JumpOp::RETI => jump_handlers::reti_done(new, old),
            JumpOp::JR(c) => jump_handlers::jr_done(new, old, c),
            JumpOp::JPToHL => jump_handlers::jp_hl_done(new, old),
            JumpOp::JP(c) => jump_handlers::jp_done(new, old, c),
            JumpOp::RET(c) => jump_handlers::ret_done(new, old, c),
            JumpOp::CALL(c) => jump_handlers::call_done(new, old, c),
            JumpOp::RST(t) => jump_handlers::rst_done(new, old, t),
        },
    }
}

/// The 16-bit pair that bits 5..4 name in the first quadrant: BC, DE, HL, SP.
pub open spec fn pair_index(p: int) -> (ALU16Dest, Load16Dest, ALU16Src) {
    if p == 0 {
        (ALU16Dest::BC, Load16Dest::BC, ALU16Src::BC)
    } else if p == 1 {
        (ALU16Dest::DE, Load16Dest::DE, ALU16Src::DE)
    } else if p == 2 {
        (ALU16Dest::HL, Load16Dest::HL, ALU16Src::HL)
    } else {
        (ALU16Dest::SP, Load16Dest::SP, ALU16Src::SP)
    }
}

/// The pair that PUSH and POP name by bits 5..4: BC, DE, HL, AF.
pub open spec fn stack_pair(p: int) -> Load16Dest {
    if p == 0 {
        Load16Dest::BC
    } else if p == 1 {
        Load16Dest::DE
    } else if p == 2 {
        Load16Dest::HL
    } else {
        Load16Dest::AF
    }
}

/// The condition that bits 4..3 name: NZ, Z, NC, C.
pub open spec fn condition(y: int) -> JumpCondition {
    if y == 0 {
        JumpCondition::NZ
    } else if y == 1 {
        JumpCondition::Z
    } else if y == 2 {
        JumpCondition::NC
    } else {
        JumpCondition::C
    }
}

pub open spec fn rst_target(y: int) -> RSTTarget {
    if y == 0 {
        RSTTarget::X00
    } else if y == 1 {
        RSTTarget::X08
    } else if y == 2 {
        RSTTarget::X10
    } else if y == 3 {
        RSTTarget::X18
    } else if y == 4 {
        RSTTarget::X20
    } else if y == 5 {
        RSTTarget::X28
    } else if y == 6 {
        RSTTarget::X30
    } else {
        RSTTarget::X38
    }
}

/// The first and last quadrants of the unprefixed table: the regular columns
/// by their bit fields (16-bit loads, increments and additions, 8-bit
/// increments, decrements and immediate loads, rotations of A, relative
/// jumps; conditional returns, jumps and calls, POP, PUSH, immediate
/// accumulator operations and RST), then the remaining opcodes one by one.
pub open spec fn quadrant_decodes(op: u8, r: Operation) -> bool {
    let y = ((op / 8) % 8) as int;
    let z = (op % 8) as int;
    let p = y / 2;
    &&& op < 0x40 && z == 1 && y % 2 == 0 ==> r == Operation::Load16(
        Load16Op::LD(pair_index(p).1, Load16Src::Direct16Bit),
    )
    &&& op < 0x40 && z == 1 && y % 2 == 1 ==> r == Operation::ALU16(
        ALU16Op::ADD(ALU16Dest::HL, pair_index(p).2),
    )
    &&& op < 0x40 && z == 3 && y % 2 == 0 ==> r == Operation::ALU16(ALU16Op::INC(pair_index(p).0))
    &&& op < 0x40 && z == 3 && y % 2 == 1 ==> r == Operation::ALU16(ALU16Op::DEC(pair_index(p).0))
    &&& op < 0x40 && z == 4 ==> r == Operation::ALU8(ALU8Op::INC(alu_dest_of(y)))
    &&& op < 0x40 && z == 5 ==> r == Operation::ALU8(ALU8Op::DEC(alu_dest_of(y)))
    &&& op < 0x40 && z == 6 ==> r == Operation::Load8(
        Load8Op::LD(load_dest_of(y), Load8Src::Direct8Bit),
    )
    &&& op >= 0xC0 && z == 0 && y < 4 ==> r == Operation::Jump(JumpOp::RET(condition(y)))
    &&& op >= 0xC0 && z == 2 && y < 4 ==> r == Operation::Jump(JumpOp::JP(condition(y)))
    &&& op >= 0xC0 && z == 4 && y < 4 ==> r == Operation::Jump(JumpOp::CALL(condition(y)))
    &&& op >= 0xC0 && z == 1 && y % 2 == 0 ==> r == Operation::Load16(Load16Op::POP(stack_pair(p)))
    &&& op >= 0xC0 && z == 5 && y % 2 == 0 ==> r == Operation::Load16(Load16Op::PUSH(stack_pair(p)))
    &&& op >= 0xC0 && z == 7 ==> r == Operation::Jump(JumpOp::RST(rst_target(y)))
    &&& op >= 0xC0 && z == 6 ==> r == Operation::ALU8(
        if y == 0 {
            ALU8Op::ADD(ALU8Dest::A, ALU8Src::Direct8Bit)
        } else if y == 1 {
            ALU8Op::ADC(ALU8Dest::A, ALU8Src::Direct8Bit)
        } else if y == 2 {
            ALU8Op::SUB(ALU8Dest::Direct8Bit)
        } else if y == 3 {
            ALU8Op::SBC(ALU8Dest::A, ALU8Src::Direct8Bit)
        } else if y == 4 {
            ALU8Op::AND(ALU8Dest::Direct8Bit)
        } else if y == 5 {
            ALU8Op::XOR(ALU8Dest::Direct8Bit)
        } else if y == 6 {
            ALU8Op::OR(ALU8Dest::Direct8Bit)
        } else {
            ALU8Op::CP(ALU8Dest::Direct8Bit)
        },
    )
    &&& op < 0x40 && z == 7 ==> r == (if y == 0 {
        Operation::Bit(BitOp::RLCA)
    } else if y == 1 {
        Operation::Bit(BitOp::RRCA)
    } else if y == 2 {
        Operation::Bit(BitOp::RLA)
    } else if y == 3 {
        Operation::Bit(BitOp::RRA)
    } else if y == 4 {
        Operation::ALU8(ALU8Op::DAA)
    } else if y == 5 {
        Operation::ALU8(ALU8Op::CPL)
    } else if y == 6 {
        Operation::ALU8(ALU8Op::SCF)
    } else {
        Operation::ALU8(ALU8Op::CCF)
    })
    &&& op == 0x18 ==> r == Operation::Jump(JumpOp::JR(JumpCondition::NIL))
    &&& op == 0x02 ==> r == Operation::Load8(Load8Op::LD(Load8Dest::BC, Load8Src::A))
    &&& op == 0x08 ==> r == Operation::Load16(Load16Op::LD(Load16Dest::Addr16Bit, Load16Src::SP))
    &&& op == 0x0A ==> r == Operation::Load8(Load8Op::LD(Load8Dest::A, Load8Src::BC))
    &&& op == 0x10 ==> r == Operation::Misc(MiscOp::STOP)
    &&& op == 0x12 ==> r == Operation::Load8(Load8Op::LD(Load8Dest::DE, Load8Src::A))
    &&& op == 0x1A ==> r == Operation::Load8(Load8Op::LD(Load8Dest::A, Load8Src::DE))
    &&& op == 0x22 ==> r == Operation::Load8(Load8Op::LD(Load8Dest::HLI, Load8Src::A))
    &&& op == 0x2A ==> r == Operation::Load8(Load8Op::LD(Load8Dest::A, Load8Src::HLI))
    &&& op == 0x32 ==> r == Operation::Load8(Load8Op::LD(Load8Dest::HLD, Load8Src::A))
    &&& op == 0x3A ==> r == Operation::Load8(Load8Op::LD(Load8Dest::A, Load8Src::HLD))
    &&& op == 0xC3 ==> r == Operation::Jump(JumpOp::JP(JumpCondition::NIL))
    &&& op == 0xC9 ==> r == Operation::Jump(JumpOp::RET(JumpCondition::NIL))
    &&& op == 0xCB ==> r == Operation::Misc(MiscOp::PREFIX)
    &&& op == 0xCD ==> r == Operation::Jump(JumpOp::CALL(JumpCondition::NIL))
    &&& op == 0xD9 ==> r == Operation::Jump(JumpOp::RETI)
    &&& op == 0xE0 ==> r == Operation::Load8(Load8Op::LDH(Load8Dest::Unsigned8, Load8Src::A))
    &&& op == 0xE2 ==> r == Operation::Load8(Load8Op::LD(Load8Dest::AddrC, Load8Src::A))
    &&& op == 0xE8 ==> r == Operation::ALU16(ALU16Op::ADD(ALU16Dest::SP, ALU16Src::Signed8))
    &&& op == 0xE9 ==> r == Operation::Jump(JumpOp::JPToHL)
    &&& op == 0xEA ==> r == Operation::Load8(Load8Op::LD(Load8Dest::Addr16Bit, Load8Src::A))
    &&& op == 0xF0 ==> r == Operation::Load8(Load8Op::LDH(Load8Dest::A, Load8Src::Unsigned8))
    &&& op == 0xF2 ==> r == Operation::Load8(Load8Op::LD(Load8Dest::A, Load8Src::AddrC))
    &&& op == 0xF3 ==> r == Operation::Misc(MiscOp::DI)
    &&& op == 0xF8 ==> r == Operation::Load16(Load16Op::LD(Load16Dest::HL, Load16Src::SPr8))
    &&& op == 0xF9 ==> r == Operation::Load16(Load16Op::LD(Load16Dest::SP, Load16Src::HL))
    &&& op == 0xFA ==> r == Operation::Load8(Load8Op::LD(Load8Dest::A, Load8Src::Addr16Bit))
    &&& op == 0xFB ==> r == Operation::Misc(MiscOp::EI)
    &&& op < 0x40 && z == 0 && y >= 4 ==> r == Operation::Jump(JumpOp::JR(condition(y - 4)))
}

/// The operands of the instruction are ones its handler accepts.
pub open spec fn is_executable(op: Operation) -> bool {
    match op {
        Operation::Load8(Load8Op::LD(d, s)) => d != Load8Dest::Unsigned8 && s != Load8Src::Unsigned8,
        Operation::Load8(Load8Op::LDH(d, _)) => d == Load8Dest::Unsigned8 || d == Load8Dest::A,
        Operation::Load16(Load16Op::LD(d, _)) => d != Load16Dest::AF,
        Operation::Load16(Load16Op::POP(d)) => d != Load16Dest::Addr16Bit && d != Load16Dest::SP,
        Operation::Load16(Load16Op::PUSH(d)) => d != Load16Dest::Addr16Bit && d != Load16Dest::SP,
        Operation::ALU16(ALU16Op::ADD(d, s)) => d == ALU16Dest::SP || (d == ALU16Dest::HL && s
            != ALU16Src::NIL && s != ALU16Src::Signed8),
        Operation::ALU8(ALU8Op::INC(d)) => d != ALU8Dest::Direct8Bit,
        Operation::ALU8(ALU8Op::DEC(d)) => d != ALU8Dest::Direct8Bit,
        Operation::ALU8(ALU8Op::ADD(_, s)) => s != ALU8Src::NIL,
        Operation::ALU8(ALU8Op::ADC(_, s)) => s != ALU8Src::NIL,
        Operation::ALU8(ALU8Op::SBC(_, s)) => s != ALU8Src::NIL,
        _ => true,
    }
}

fn target_from(z: u8) -> (r: BitDest)
    requires
        z < 8,
    ensures
        r == target_of(z as int),
{
    if z == 0 {
        BitDest::B
    } else if z == 1 {
        BitDest::C
    } else if z == 2 {
        BitDest::D
    } else if z == 3 {
        BitDest::E
    } else if z == 4 {
        BitDest::H
    } else if z == 5 {
        BitDest::L
    } else if z == 6 {
        BitDest::HL
    } else {
        BitDest::A
    }
}

impl Operation {
    /// Decodes an opcode of the unprefixed table, or of the CB table when
    /// `prefixed`. Only the unprefixed table has opcodes without an instruction.
    pub fn get_operation(opcode: u8, prefixed: bool) -> (r: Option<Operation>)
        ensures
            r.is_none() <==> (!prefixed && is_illegal(opcode)),
            prefixed ==> r == Some(cb_operation(opcode)),
            !prefixed && 0x40 <= opcode < 0xC0 && opcode != 0x76 ==> r == Some(block_operation(opcode)),
            !prefixed && opcode == 0x76 ==> r == Some(Operation::Misc(MiscOp::HALT)),
            !prefixed && opcode == 0x00 ==> r == Some(Operation::Misc(MiscOp::NOP)),
            !prefixed && r.is_some() ==> quadrant_decodes(opcode, r.unwrap()),
            r.is_some() ==> is_executable(r.unwrap()),
    {
        if prefixed {
            Some(Self::get_cb_operation(opcode))
        } else {
            Self::get_unprefixed_operation(opcode)
        }
    }

    fn get_cb_operation(opcode: u8) -> (r: Operation)
        ensures
            r == cb_operation(opcode),
            is_executable(r),
    {
        let y = (opcode / 8) % 8;
        let t = target_from(opcode % 8);
        if opcode < 0x40 {
            Operation::Bit(
                if y == 0 {
                    BitOp::RLC(t)
                } else if y == 1 {
                    BitOp::RRC(t)
                } else if y == 2 {
                    BitOp::RL(t)
                } else if y == 3 {
                    BitOp::RR(t)
                } else if y == 4 {
                    BitOp::SLA(t)
                } else if y == 5 {
                    BitOp::SRA(t)
                } else if y == 6 {
                    BitOp::SWAP(t)
                } else {
                    BitOp::SRL(t)
                },
            )
        } else if opcode < 0x80 {
            Operation::Bit(BitOp::BIT(BitPos::from_u8(y), t))
        } else if opcode < 0xC0 {
            Operation::Bit(BitOp::RES(BitPos::from_u8(y), t))
        } else {
            Operation::Bit(BitOp::SET(BitPos::from_u8(y), t))
        }
    }

    #[verifier::rlimit(100)]
    fn get_unprefixed_operation(opcode: u8) -> (r: Option<Operation>)
        ensures
            r.is_none() <==> is_illegal(opcode),
            0x40 <= opcode < 0xC0 && opcode != 0x76 ==> r == Some(block_operation(opcode)),
            opcode == 0x76 ==> r == Some(Operation::Misc(MiscOp::HALT)),
            opcode == 0x00 ==> r == Some(Operation::Misc(MiscOp::NOP)),
            r.is_some() ==> quadrant_decodes(opcode, r.unwrap()),
            r.is_some() ==> is_executable(r.unwrap()),
    {
        match opcode {
            0x00 => Some(Operation::Misc(MiscOp::NOP)),
            0x01 => Some(Operation::Load16(Load16Op::LD(Load16Dest::BC, Load16Src::Direct16Bit))),
            0x02 => Some(Operation::Load8(Load8Op::LD(Load8Dest::BC, Load8Src::A))),
            0x03 => Some(Operation::ALU16(ALU16Op::INC(ALU16Dest::BC))),
            0x04 => Some(Operation::ALU8(ALU8Op::INC(ALU8Dest::B))),
            0x05 => Some(Operation::ALU8(ALU8Op::DEC(ALU8Dest::B))),
            0x06 => Some(Operation::Load8(Load8Op::LD(Load8Dest::B, Load8Src::Direct8Bit))),
            0x07 => Some(Operation::Bit(BitOp::RLCA)),
            0x08 => Some(Operation::Load16(Load16Op::LD(Load16Dest::Addr16Bit, Load16Src::SP))),
            0x09 => Some(Operation::ALU16(ALU16Op::ADD(ALU16Dest::HL, ALU16Src::BC))),
            0x0A => Some(Operation::Load8(Load8Op::LD(Load8Dest::A, Load8Src::BC))),
            0x0B => Some(Operation::ALU16(ALU16Op::DEC(ALU16Dest::BC))),
            0x0C => Some(Operation::ALU8(ALU8Op::INC(ALU8Dest::C))),
            0x0D => Some(Operation::ALU8(ALU8Op::DEC(ALU8Dest::C))),
            0x0E => Some(Operation::Load8(Load8Op::LD(Load8Dest::C, Load8Src::Direct8Bit))),
            0x0F => Some(Operation::Bit(BitOp::RRCA)),
            0x10 => Some(Operation::Misc(MiscOp::STOP)),
            0x11 => Some(Operation::Load16(Load16Op::LD(Load16Dest::DE, Load16Src::Direct16Bit))),
            0x12 => Some(Operation::Load8(Load8Op::LD(Load8Dest::DE, Load8Src::A))),
            0x13 => Some(Operation::ALU16(ALU16Op::INC(ALU16Dest::DE))),
            0x14 => Some(Operation::ALU8(ALU8Op::INC(ALU8Dest::D))),
            0x15 => Some(Operation::ALU8(ALU8Op::DEC(ALU8Dest::D))),
            0x16 => Some(Operation::Load8(Load8Op::LD(Load8Dest::D, Load8Src::Direct8Bit))),
            0x17 => Some(Operation::Bit(BitOp::RLA)),
            0x18 => Some(Operation::Jump(JumpOp::JR(JumpCondition::NIL))),
            0x19 => Some(Operation::ALU16(ALU16Op::ADD(ALU16Dest::HL, ALU16Src::DE))),
            0x1A => Some(Operation::Load8(Load8Op::LD(Load8Dest::A, Load8Src::DE))),
            0x1B => Some(Operation::ALU16(ALU16Op::DEC(ALU16Dest::DE))),
            0x1C => Some(Operation::ALU8(ALU8Op::INC(ALU8Dest::E))),
            0x1D => Some(Operation::ALU8(ALU8Op::DEC(ALU8Dest::E))),
            0x1E => Some(Operation::Load8(Load8Op::LD(Load8Dest::E, Load8Src::Direct8Bit))),
            0x1F => Some(Operation::Bit(BitOp::RRA)),
            0x20 => Some(Operation::Jump(JumpOp::JR(JumpCondition::NZ))),
            0x21 => Some(Operation::Load16(Load16Op::LD(Load16Dest::HL, Load16Src::Direct16Bit))),
            0x22 => Some(Operation::Load8(Load8Op::LD(Load8Dest::HLI, Load8Src::A))),
            0x23 => Some(Operation::ALU16(ALU16Op::INC(ALU16Dest::HL))),
            0x24 => Some(Operation::ALU8(ALU8Op::INC(ALU8Dest::H))),
            0x25 => Some(Operation::ALU8(ALU8Op::DEC(ALU8Dest::H))),
            0x26 => Some(Operation::Load8(Load8Op::LD(Load8Dest::H, Load8Src::Direct8Bit))),
            0x27 => Some(Operation::ALU8(ALU8Op::DAA)),
            0x28 => Some(Operation::Jump(JumpOp::JR(JumpCondition::Z))),
            0x29 => Some(Operation::ALU16(ALU16Op::ADD(ALU16Dest::HL, ALU16Src::HL))),
            0x2A => Some(Operation::Load8(Load8Op::LD(Load8Dest::A, Load8Src::HLI))),
            0x2B => Some(Operation::ALU16(ALU16Op::DEC(ALU16Dest::HL))),
            0x2C => Some(Operation::ALU8(ALU8Op::INC(ALU8Dest::L))),
            0x2D => Some(Operation::ALU8(ALU8Op::DEC(ALU8Dest::L))),
            0x2E => Some(Operation::Load8(Load8Op::LD(Load8Dest::L, Load8Src::Direct8Bit))),
            0x2F => Some(Operation::ALU8(ALU8Op::CPL)),
            0x30 => Some(Operation::Jump(JumpOp::JR(JumpCondition::NC))),
            0x31 => Some(Operation::Load16(Load16Op::LD(Load16Dest::SP, Load16Src::Direct16Bit))),
            0x32 => Some(Operation::Load8(Load8Op::LD(Load8Dest::HLD, Load8Src::A))),
            0x33 => Some(Operation::ALU16(ALU16Op::INC(ALU16Dest::SP))),
            0x34 => Some(Operation::ALU8(ALU8Op::INC(ALU8Dest::HL))),
            0x35 => Some(Operation::ALU8(ALU8Op::DEC(ALU8Dest::HL))),
            0x36 => Some(Operation::Load8(Load8Op::LD(Load8Dest::HL, Load8Src::Direct8Bit))),
            0x37 => Some(Operation::ALU8(ALU8Op::SCF)),
            0x38 => Some(Operation::Jump(JumpOp::JR(JumpCondition::C))),
            0x39 => Some(Operation::ALU16(ALU16Op::ADD(ALU16Dest::HL, ALU16Src::SP))),
            0x3A => Some(Operation::Load8(Load8Op::LD(Load8Dest::A, Load8Src::HLD))),
            0x3B => Some(Operation::ALU16(ALU16Op::DEC(ALU16Dest::SP))),
            0x3C => Some(Operation::ALU8(ALU8Op::INC(ALU8Dest::A))),
            0x3D => Some(Operation::ALU8(ALU8Op::DEC(ALU8Dest::A))),
            0x3E => Some(Operation::Load8(Load8Op::LD(Load8Dest::A, Load8Src::Direct8Bit))),
            0x3F => Some(Operation::ALU8(ALU8Op::CCF)),
            0x40 => Some(Operation::Load8(Load8Op::LD(Load8Dest::B, Load8Src::B))),
            0x41 => Some(Operation::Load8(Load8Op::LD(Load8Dest::B, Load8Src::C))),
            0x42 => Some(Operation::Load8(Load8Op::LD(Load8Dest::B, Load8Src::D))),
            0x43 => Some(Operation::Load8(Load8Op::LD(Load8Dest::B, Load8Src::E))),
            0x44 => Some(Operation::Load8(Load8Op::LD(Load8Dest::B, Load8Src::H))),
            0x45 => Some(Operation::Load8(Load8Op::LD(Load8Dest::B, Load8Src::L))),
            0x46 => Some(Operation::Load8(Load8Op::LD(Load8Dest::B, Load8Src::HL))),
            0x47 => Some(Operation::Load8(Load8Op::LD(Load8Dest::B, Load8Src::A))),
            0x48 => Some(Operation::Load8(Load8Op::LD(Load8Dest::C, Load8Src::B))),
            0x49 => Some(Operation::Load8(Load8Op::LD(Load8Dest::C, Load8Src::C))),
            0x4A => Some(Operation::Load8(Load8Op::LD(Load8Dest::C, Load8Src::D))),
            0x4B => Some(Operation::Load8(Load8Op::LD(Load8Dest::C, Load8Src::E))),
            0x4C => Some(Operation::Load8(Load8Op::LD(Load8Dest::C, Load8Src::H))),
            0x4D => Some(Operation::Load8(Load8Op::LD(Load8Dest::C, Load8Src::L))),
            0x4E => Some(Operation::Load8(Load8Op::LD(Load8Dest::C, Load8Src::HL))),
            0x4F => Some(Operation::Load8(Load8Op::LD(Load8Dest::C, Load8Src::A))),
            0x50 => Some(Operation::Load8(Load8Op::LD(Load8Dest::D, Load8Src::B))),
            0x51 => Some(Operation::Load8(Load8Op::LD(Load8Dest::D, Load8Src::C))),
            0x52 => Some(Operation::Load8(Load8Op::LD(Load8Dest::D, Load8Src::D))),
            0x53 => Some(Operation::Load8(Load8Op::LD(Load8Dest::D, Load8Src::E))),
            0x54 => Some(Operation::Load8(Load8Op::LD(Load8Dest::D, Load8Src::H))),
            0x55 => Some(Operation::Load8(Load8Op::LD(Load8Dest::D, Load8Src::L))),
            0x56 => Some(Operation::Load8(Load8Op::LD(Load8Dest::D, Load8Src::HL))),
            0x57 => Some(Operation::Load8(Load8Op::LD(Load8Dest::D, Load8Src::A))),
            0x58 => Some(Operation::Load8(Load8Op::LD(Load8Dest::E, Load8Src::B))),
            0x59 => Some(Operation::Load8(Load8Op::LD(Load8Dest::E, Load8Src::C))),
            0x5A => Some(Operation::Load8(Load8Op::LD(Load8Dest::E, Load8Src::D))),
            0x5B => Some(Operation::Load8(Load8Op::LD(Load8Dest::E, Load8Src::E))),
            0x5C => Some(Operation::Load8(Load8Op::LD(Load8Dest::E, Load8Src::H))),
            0x5D => Some(Operation::Load8(Load8Op::LD(Load8Dest::E, Load8Src::L))),
            0x5E => Some(Operation::Load8(Load8Op::LD(Load8Dest::E, Load8Src::HL))),
            0x5F => Some(Operation::Load8(Load8Op::LD(Load8Dest::E, Load8Src::A))),
            0x60 => Some(Operation::Load8(Load8Op::LD(Load8Dest::H, Load8Src::B))),
            0x61 => Some(Operation::Load8(Load8Op::LD(Load8Dest::H, Load8Src::C))),
            0x62 => Some(Operation::Load8(Load8Op::LD(Load8Dest::H, Load8Src::D))),
            0x63 => Some(Operation::Load8(Load8Op::LD(Load8Dest::H, Load8Src::E))),
            0x64 => Some(Operation::Load8(Load8Op::LD(Load8Dest::H, Load8Src::H))),
            0x65 => Some(Operation::Load8(Load8Op::LD(Load8Dest::H, Load8Src::L))),
            0x66 => Some(Operation::Load8(Load8Op::LD(Load8Dest::H, Load8Src::HL))),
            0x67 => Some(Operation::Load8(Load8Op::LD(Load8Dest::H, Load8Src::A))),
            0x68 => Some(Operation::Load8(Load8Op::LD(Load8Dest::L, Load8Src::B))),
            0x69 => Some(Operation::Load8(Load8Op::LD(Load8Dest::L, Load8Src::C))),
            0x6A => Some(Operation::Load8(Load8Op::LD(Load8Dest::L, Load8Src::D))),
            0x6B => Some(Operation::Load8(Load8Op::LD(Load8Dest::L, Load8Src::E))),
            0x6C => Some(Operation::Load8(Load8Op::LD(Load8Dest::L, Load8Src::H))),
            0x6D => Some(Operation::Load8(Load8Op::LD(Load8Dest::L, Load8Src::L))),
            0x6E => Some(Operation::Load8(Load8Op::LD(Load8Dest::L, Load8Src::HL))),
            0x6F => Some(Operation::Load8(Load8Op::LD(Load8Dest::L, Load8Src::A))),
            0x70 => Some(Operation::Load8(Load8Op::LD(Load8Dest::HL, Load8Src::B))),
            0x71 => Some(Operation::Load8(Load8Op::LD(Load8Dest::HL, Load8Src::C))),
            0x72 => Some(Operation::Load8(Load8Op::LD(Load8Dest::HL, Load8Src::D))),
            0x73 => Some(Operation::Load8(Load8Op::LD(Load8Dest::HL, Load8Src::E))),
            0x74 => Some(Operation::Load8(Load8Op::LD(Load8Dest::HL, Load8Src::H))),
            0x75 => Some(Operation::Load8(Load8Op::LD(Load8Dest::HL, Load8Src::L))),
            0x76 => Some(Operation::Misc(MiscOp::HALT)),
            0x77 => Some(Operation::Load8(Load8Op::LD(Load8Dest::HL, Load8Src::A))),
            0x78 => Some(Operation::Load8(Load8Op::LD(Load8Dest::A, Load8Src::B))),
            0x79 => Some(Operation::Load8(Load8Op::LD(Load8Dest::A, Load8Src::C))),
            0x7A => Some(Operation::Load8(Load8Op::LD(Load8Dest::A, Load8Src::D))),
            0x7B => Some(Operation::Load8(Load8Op::LD(Load8Dest::A, Load8Src::E))),
            0x7C => Some(Operation::Load8(Load8Op::LD(Load8Dest::A, Load8Src::H))),
            0x7D => Some(Operation::Load8(Load8Op::LD(Load8Dest::A, Load8Src::L))),
            0x7E => Some(Operation::Load8(Load8Op::LD(Load8Dest::A, Load8Src::HL))),
            0x7F => Some(Operation::Load8(Load8Op::LD(Load8Dest::A, Load8Src::A))),
            0x80 => Some(Operation::ALU8(ALU8Op::ADD(ALU8Dest::A, ALU8Src::B))),
            0x81 => Some(Operation::ALU8(ALU8Op::ADD(ALU8Dest::A, ALU8Src::C))),
            0x82 => Some(Operation::ALU8(ALU8Op::ADD(ALU8Dest::A, ALU8Src::D))),
            0x83 => Some(Operation::ALU8(ALU8Op::ADD(ALU8Dest::A, ALU8Src::E))),
            0x84 => Some(Operation::ALU8(ALU8Op::ADD(ALU8Dest::A, ALU8Src::H))),
            0x85 => Some(Operation::ALU8(ALU8Op::ADD(ALU8Dest::A, ALU8Src::L))),
            0x86 => Some(Operation::ALU8(ALU8Op::ADD(ALU8Dest::A, ALU8Src::HL))),
            0x87 => Some(Operation::ALU8(ALU8Op::ADD(ALU8Dest::A, ALU8Src::A))),
            0x88 => Some(Operation::ALU8(ALU8Op::ADC(ALU8Dest::A, ALU8Src::B))),
            0x89 => Some(Operation::ALU8(ALU8Op::ADC(ALU8Dest::A, ALU8Src::C))),
            0x8A => Some(Operation::ALU8(ALU8Op::ADC(ALU8Dest::A, ALU8Src::D))),
            0x8B => Some(Operation::ALU8(ALU8Op::ADC(ALU8Dest::A, ALU8Src::E))),
            0x8C => Some(Operation::ALU8(ALU8Op::ADC(ALU8Dest::A, ALU8Src::H))),
            0x8D => Some(Operation::ALU8(ALU8Op::ADC(ALU8Dest::A, ALU8Src::L))),
            0x8E => Some(Operation::ALU8(ALU8Op::ADC(ALU8Dest::A, ALU8Src::HL))),
            0x8F => Some(Operation::ALU8(ALU8Op::ADC(ALU8Dest::A, ALU8Src::A))),
            0x90 => Some(Operation::ALU8(ALU8Op::SUB(ALU8Dest::B))),
            0x91 => Some(Operation::ALU8(ALU8Op::SUB(ALU8Dest::C))),
            0x92 => Some(Operation::ALU8(ALU8Op::SUB(ALU8Dest::D))),
            0x93 => Some(Operation::ALU8(ALU8Op::SUB(ALU8Dest::E))),
            0x94 => Some(Operation::ALU8(ALU8Op::SUB(ALU8Dest::H))),
            0x95 => Some(Operation::ALU8(ALU8Op::SUB(ALU8Dest::L))),
            0x96 => Some(Operation::ALU8(ALU8Op::SUB(ALU8Dest::HL))),
            0x97 => Some(Operation::ALU8(ALU8Op::SUB(ALU8Dest::A))),
            0x98 => Some(Operation::ALU8(ALU8Op::SBC(ALU8Dest::A, ALU8Src::B))),
            0x99 => Some(Operation::ALU8(ALU8Op::SBC(ALU8Dest::A, ALU8Src::C))),
            0x9A => Some(Operation::ALU8(ALU8Op::SBC(ALU8Dest::A, ALU8Src::D))),
            0x9B => Some(Operation::ALU8(ALU8Op::SBC(ALU8Dest::A, ALU8Src::E))),
            0x9C => Some(Operation::ALU8(ALU8Op::SBC(ALU8Dest::A, ALU8Src::H))),
            0x9D => Some(Operation::ALU8(ALU8Op::SBC(ALU8Dest::A, ALU8Src::L))),
            0x9E => Some(Operation::ALU8(ALU8Op::SBC(ALU8Dest::A, ALU8Src::HL))),
            0x9F => Some(Operation::ALU8(ALU8Op::SBC(ALU8Dest::A, ALU8Src::A))),
            0xA0 => Some(Operation::ALU8(ALU8Op::AND(ALU8Dest::B))),
            0xA1 => Some(Operation::ALU8(ALU8Op::AND(ALU8Dest::C))),
            0xA2 => Some(Operation::ALU8(ALU8Op::AND(ALU8Dest::D))),
            0xA3 => Some(Operation::ALU8(ALU8Op::AND(ALU8Dest::E))),
            0xA4 => Some(Operation::ALU8(ALU8Op::AND(ALU8Dest::H))),
            0xA5 => Some(Operation::ALU8(ALU8Op::AND(ALU8Dest::L))),
            0xA6 => Some(Operation::ALU8(ALU8Op::AND(ALU8Dest::HL))),
            0xA7 => Some(Operation::ALU8(ALU8Op::AND(ALU8Dest::A))),
            0xA8 => Some(Operation::ALU8(ALU8Op::XOR(ALU8Dest::B))),
            0xA9 => Some(Operation::ALU8(ALU8Op::XOR(ALU8Dest::C))),
            0xAA => Some(Operation::ALU8(ALU8Op::XOR(ALU8Dest::D))),
            0xAB => Some(Operation::ALU8(ALU8Op::XOR(ALU8Dest::E))),
            0xAC => Some(Operation::ALU8(ALU8Op::XOR(ALU8Dest::H))),
            0xAD => Some(Operation::ALU8(ALU8Op::XOR(ALU8Dest::L))),
            0xAE => Some(Operation::ALU8(ALU8Op::XOR(ALU8Dest::HL))),
            0xAF => Some(Operation::ALU8(ALU8Op::XOR(ALU8Dest::A))),
            0xB0 => Some(Operation::ALU8(ALU8Op::OR(ALU8Dest::B))),
            0xB1 => Some(Operation::ALU8(ALU8Op::OR(ALU8Dest::C))),
            0xB2 => Some(Operation::ALU8(ALU8Op::OR(ALU8Dest::D))),
            0xB3 => Some(Operation::ALU8(ALU8Op::OR(ALU8Dest::E))),
            0xB4 => Some(Operation::ALU8(ALU8Op::OR(ALU8Dest::H))),
            0xB5 => Some(Operation::ALU8(ALU8Op::OR(ALU8Dest::L))),
            0xB6 => Some(Operation::ALU8(ALU8Op::OR(ALU8Dest::HL))),
            0xB7 => Some(Operation::ALU8(ALU8Op::OR(ALU8Dest::A))),
            0xB8 => Some(Operation::ALU8(ALU8Op::CP(ALU8Dest::B))),
            0xB9 => Some(Operation::ALU8(ALU8Op::CP(ALU8Dest::C))),
            0xBA => Some(Operation::ALU8(ALU8Op::CP(ALU8Dest::D))),
            0xBB => Some(Operation::ALU8(ALU8Op::CP(ALU8Dest::E))),
            0xBC => Some(Operation::ALU8(ALU8Op::CP(ALU8Dest::H))),
            0xBD => Some(Operation::ALU8(ALU8Op::CP(ALU8Dest::L))),
            0xBE => Some(Operation::ALU8(ALU8Op::CP(ALU8Dest::HL))),
            0xBF => Some(Operation::ALU8(ALU8Op::CP(ALU8Dest::A))),
            0xC0 => Some(Operation::Jump(JumpOp::RET(JumpCondition::NZ))),
            0xC1 => Some(Operation::Load16(Load16Op::POP(Load16Dest::BC))),
            0xC2 => Some(Operation::Jump(JumpOp::JP(JumpCondition::NZ))),
            0xC3 => Some(Operation::Jump(JumpOp::JP(JumpCondition::NIL))),
            0xC4 => Some(Operation::Jump(JumpOp::CALL(JumpCondition::NZ))),
            0xC5 => Some(Operation::Load16(Load16Op::PUSH(Load16Dest::BC))),
            0xC6 => Some(Operation::ALU8(ALU8Op::ADD(ALU8Dest::A, ALU8Src::Direct8Bit))),
            0xC7 => Some(Operation::Jump(JumpOp::RST(RSTTarget::X00))),
            0xC8 => Some(Operation::Jump(JumpOp::RET(JumpCondition::Z))),
            0xC9 => Some(Operation::Jump(JumpOp::RET(JumpCondition::NIL))),
            0xCA => Some(Operation::Jump(JumpOp::JP(JumpCondition::Z))),
            0xCB => Some(Operation::Misc(MiscOp::PREFIX)),
            0xCC => Some(Operation::Jump(JumpOp::CALL(JumpCondition::Z))),
            0xCD => Some(Operation::Jump(JumpOp::CALL(JumpCondition::NIL))),
            0xCE => Some(Operation::ALU8(ALU8Op::ADC(ALU8Dest::A, ALU8Src::Direct8Bit))),
            0xCF => Some(Operation::Jump(JumpOp::RST(RSTTarget::X08))),
            0xD0 => Some(Operation::Jump(JumpOp::RET(JumpCondition::NC))),
            0xD1 => Some(Operation::Load16(Load16Op::POP(Load16Dest::DE))),
            0xD2 => Some(Operation::Jump(JumpOp::JP(JumpCondition::NC))),
            0xD3 => None,
            0xD4 => Some(Operation::Jump(JumpOp::CALL(JumpCondition::NC))),
            0xD5 => Some(Operation::Load16(Load16Op::PUSH(Load16Dest::DE))),
            0xD6 => Some(Operation::ALU8(ALU8Op::SUB(ALU8Dest::Direct8Bit))),
            0xD7 => Some(Operation::Jump(JumpOp::RST(RSTTarget::X10))),
            0xD8 => Some(Operation::Jump(JumpOp::RET(JumpCondition::C))),
            0xD9 => Some(Operation::Jump(JumpOp::RETI)),
            0xDA => Some(Operation::Jump(JumpOp::JP(JumpCondition::C))),
            0xDB => None,
            0xDC => Some(Operation::Jump(JumpOp::CALL(JumpCondition::C))),
            0xDD => None,
            0xDE => Some(Operation::ALU8(ALU8Op::SBC(ALU8Dest::A, ALU8Src::Direct8Bit))),
            0xDF => Some(Operation::Jump(JumpOp::RST(RSTTarget::X18))),
            0xE0 => Some(Operation::Load8(Load8Op::LDH(Load8Dest::Unsigned8, Load8Src::A))),
            0xE1 => Some(Operation::Load16(Load16Op::POP(Load16Dest::HL))),
            0xE2 => Some(Operation::Load8(Load8Op::LD(Load8Dest::AddrC, Load8Src::A))),
            0xE3 => None,
            0xE4 => None,
            0xE5 => Some(Operation::Load16(Load16Op::PUSH(Load16Dest::HL))),
            0xE6 => Some(Operation::ALU8(ALU8Op::AND(ALU8Dest::Direct8Bit))),
            0xE7 => Some(Operation::Jump(JumpOp::RST(RSTTarget::X20))),
            0xE8 => Some(Operation::ALU16(ALU16Op::ADD(ALU16Dest::SP, ALU16Src::Signed8))),
            0xE9 => Some(Operation::Jump(JumpOp::JPToHL)),
            0xEA => Some(Operation::Load8(Load8Op::LD(Load8Dest::Addr16Bit, Load8Src::A))),
            0xEB => None,
            0xEC => None,
            0xED => None,
            0xEE => Some(Operation::ALU8(ALU8Op::XOR(ALU8Dest::Direct8Bit))),
            0xEF => Some(Operation::Jump(JumpOp::RST(RSTTarget::X28))),
            0xF0 => Some(Operation::Load8(Load8Op::LDH(Load8Dest::A, Load8Src::Unsigned8))),
            0xF1 => Some(Operation::Load16(Load16Op::POP(Load16Dest::AF))),
            0xF2 => Some(Operation::Load8(Load8Op::LD(Load8Dest::A, Load8Src::AddrC))),
            0xF3 => Some(Operation::Misc(MiscOp::DI)),
            0xF4 => None,
            0xF5 => Some(Operation::Load16(Load16Op::PUSH(Load16Dest::AF))),
            0xF6 => Some(Operation::ALU8(ALU8Op::OR(ALU8Dest::Direct8Bit))),
            0xF7 => Some(Operation::Jump(JumpOp::RST(RSTTarget::X30))),
            0xF8 => Some(Operation::Load16(Load16Op::LD(Load16Dest::HL, Load16Src::SPr8))),
            0xF9 => Some(Operation::Load16(Load16Op::LD(Load16Dest::SP, Load16Src::HL))),
            0xFA => Some(Operation::Load8(Load8Op::LD(Load8Dest::A, Load8Src::Addr16Bit))),
            0xFB => Some(Operation::Misc(MiscOp::EI)),
            0xFC => None,
            0xFD => None,
            0xFE => Some(Operation::ALU8(ALU8Op::CP(ALU8Dest::Direct8Bit))),
            0xFF => Some(Operation::Jump(JumpOp::RST(RSTTarget::X38))),
        }
    }

    pub fn is_prefix(opcode: u8) -> (r: bool)
        ensures
            r == (opcode == PREFIX_INST),
    {
        opcode == PREFIX_INST
    }

    /// The opcode as a 16-bit key: 0xCB in the high byte for the prefixed table.
    pub fn construct_opcode(opcode: u8, prefixed: bool) -> (r: u16)
        ensures
            r == (if prefixed { 0xCB00 + opcode } else { opcode as int }),
    {
        if prefixed {
            0xCB00 + opcode as u16
        } else {
            opcode as u16
        }
    }

    /// Runs a decoded instruction on the CPU. An instruction takes at most
    /// six m-cycles after its opcode.
    pub fn execute(cpu: &mut CPU, op: Operation)
        requires
            old(cpu).ready(),
            is_executable(op),
        ensures
            executes(*final(cpu), *old(cpu), op),
            final(cpu).wf(),
            old(cpu).cycles <= final(cpu).cycles <= old(cpu).cycles + 24,
    {
        match op {
            Operation::Misc(o) => Self::execute_misc(cpu, o),
            Operation::Load8(o) => Self::execute_load8(cpu, o),
            Operation::Load16(o) => Self::execute_load16(cpu, o),
            Operation::ALU16(o) => Self::execute_alu16(cpu, o),
            Operation::ALU8(o) => Self::execute_alu8(cpu, o),
            Operation::Bit(o) => Self::execute_bit(cpu, o),
            Operation::Jump(o) => Self::execute_jump(cpu, o),
        }
    }

    fn execute_misc(cpu: &mut CPU, o: MiscOp)
        requires
            old(cpu).ready(),
            is_executable(Operation::Misc(o)),
        ensures
            executes(*final(cpu), *old(cpu), Operation::Misc(o)),
            final(cpu).wf(),
            old(cpu).cycles <= final(cpu).cycles <= old(cpu).cycles + 24,
    {
        match o {
            MiscOp::NOP => misc_handlers::nop(cpu),
            MiscOp::STOP => misc_handlers::stop(cpu),
            MiscOp::HALT => misc_handlers::halt(cpu),
            MiscOp::PREFIX => {},
            MiscOp::EI => misc_handlers::ei(cpu),
            MiscOp::DI => misc_handlers::di(cpu),
        }
    }

    fn execute_load8(cpu: &mut CPU, o: Load8Op)
        requires
            old(cpu).ready(),
            is_executable(Operation::Load8(o)),
        ensures
            executes(*final(cpu), *old(cpu), Operation::Load8(o)),
            final(cpu).wf(),
            old(cpu).cycles <= final(cpu).cycles <= old(cpu).cycles + 24,
    {
        match o {
            Load8Op::LD(dest, src) => load8_handlers::ld(cpu, dest, src),
            Load8Op::LDH(dest, src) => load8_handlers::ldh(cpu, dest, src),
        }
    }

    fn execute_load16(cpu: &mut CPU, o: Load16Op)
        requires
            old(cpu).ready(),
            is_executable(Operation::Load16(o)),
        ensures
            executes(*final(cpu), *old(cpu), Operation::Load16(o)),
            final(cpu).wf(),
            old(cpu).cycles <= final(cpu).cycles <= old(cpu).cycles + 24,
    {
        match o {
            Load16Op::LD(dest, src) => load16_handlers::ld(cpu, dest, src),
            Load16Op::POP(dest) => load16_handlers::pop(cpu, dest),
            Load16Op::PUSH(dest) => load16_handlers::push(cpu, dest),
        }
    }

    fn execute_alu16(cpu: &mut CPU, o: ALU16Op)
        requires
            old(cpu).ready(),
            is_executable(Operation::ALU16(o)),
        ensures
            executes(*final(cpu), *old(cpu), Operation::ALU16(o)),
            final(cpu).wf(),
            old(cpu).cycles <= final(cpu).cycles <= old(cpu).cycles + 24,
    {
        match o {
            ALU16Op::INC(dest) => alu16_handlers::inc(cpu, dest),
            ALU16Op::ADD(dest, src) => alu16_handlers::add(cpu, dest, src),
            ALU16Op::DEC(dest) => alu16_handlers::dec(cpu, dest),
        }
    }

    fn execute_alu8(cpu: &mut CPU, o: ALU8Op)
        requires
            old(cpu).ready(),
            is_executable(Operation::ALU8(o)),
        ensures
            executes(*final(cpu), *old(cpu), Operation::ALU8(o)),
            final(cpu).wf(),
            old(cpu).cycles <= final(cpu).cycles <= old(cpu).cycles + 24,
    {
        match o {
            ALU8Op::DAA => alu8_handlers::daa(cpu),
            ALU8Op::CPL => alu8_handlers::cpl(cpu),
            ALU8Op::SCF => alu8_handlers::scf(cpu),
            ALU8Op::CCF => alu8_handlers::ccf(cpu),
            ALU8Op::INC(dest) => alu8_handlers::inc(cpu, dest),
            ALU8Op::DEC(dest) => alu8_handlers::dec(cpu, dest),
            ALU8Op::SUB(dest) => alu8_handlers::sub(cpu, dest),
            ALU8Op::AND(dest) => alu8_handlers::and(cpu, dest),
            ALU8Op::XOR(dest) => alu8_handlers::xor(cpu, dest),
            ALU8Op::OR(dest) => alu8_handlers::or(cpu, dest),
            ALU8Op::CP(dest) => alu8_handlers::cp(cpu, dest),
            ALU8Op::ADD(dest, src) => alu8_handlers::add(cpu, dest, src),
            ALU8Op::ADC(dest, src) => alu8_handlers::adc(cpu, dest, src),
            ALU8Op::SBC(dest, src) => alu8_handlers::sbc(cpu, dest, src),
        }
    }

    fn execute_bit(cpu: &mut CPU, o: BitOp)
        requires
            old(cpu).ready(),
            is_executable(Operation::Bit(o)),
        ensures
            executes(*final(cpu), *old(cpu), Operation::Bit(o)),
            final(cpu).wf(),
            old(cpu).cycles <= final(cpu).cycles <= old(cpu).cycles + 24,
    {
        match o {
            BitOp::RLCA => bit_handlers::rlca(cpu),
            BitOp::RRCA => bit_handlers::rrca(cpu),
            BitOp::RLA => bit_handlers::rla(cpu),
            BitOp::RRA => bit_handlers::rra(cpu),
            BitOp::RLC(dest) => bit_handlers::rlc(cpu, dest),
            BitOp::RRC(dest) => bit_handlers::rrc(cpu, dest),
            BitOp::RL(dest) => bit_handlers::rl(cpu, dest),
            BitOp::RR(dest) => bit_handlers::rr(cpu, dest),
            BitOp::SLA(dest) => bit_handlers::sla(cpu, dest),
            BitOp::SRA(dest) => bit_handlers::sra(cpu, dest),
            BitOp::SWAP(dest) => bit_handlers::swap(cpu, dest),
            BitOp::SRL(dest) => bit_handlers::srl(cpu, dest),
            BitOp::BIT(pos, dest) => bit_handlers::bit(cpu, pos, dest),
            BitOp::RES(pos, dest) => bit_handlers::res(cpu, pos, dest),
            BitOp::SET(pos, dest) => bit_handlers::set(cpu, pos, dest),
        }
    }

    fn execute_jump(cpu: &mut CPU, o: JumpOp)
        requires
            old(cpu).ready(),
            is_executable(Operation::Jump(o)),
        ensures
            executes(*final(cpu), *old(cpu), Operation::Jump(o)),
            final(cpu).wf(),
            old(cpu).cycles <= final(cpu).cycles <= old(cpu).cycles + 24,
    {
        match o {
            JumpOp::RETI => jump_handlers::reti(cpu),
            JumpOp::JR(c) => jump_handlers::jr(cpu, c),
            JumpOp::JPToHL => jump_handlers::jp_hl(cpu),
            JumpOp::JP(c) => jump_handlers::jp(cpu, c),
            JumpOp::RET(c) => jump_handlers::ret(cpu, c),
            JumpOp::CALL(c) => jump_handlers::call(cpu, c),
            JumpOp::RST(t) => jump_handlers::rst(cpu, t),
        }
    }
}

} // verus!

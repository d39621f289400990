use vstd::prelude::*;

verus! {

#[derive(PartialEq, Eq, Structural, Debug, Clone, Copy)]
pub enum MiscOp {
    NOP,
    STOP,
    HALT,
    PREFIX,
    EI,
    DI,
}

#[derive(Eq, PartialEq, Structural, Debug, Clone, Copy)]
pub enum Load8Dest {
    /// (0xFF00 + C)
    AddrC,
    /// (0xFF00 + a8)
    Unsigned8,
    /// (a16)
    Addr16Bit,
    BC,
    B,
    A,
    C,
    DE,
    D,
    E,
    /// (HL), then HL + 1
    HLI,
    H,
    L,
    /// (HL), then HL - 1
    HLD,
    HL,
}

#[derive(Eq, PartialEq, Structural, Debug, Clone, Copy)]
pub enum Load8Src {
    Unsigned8,
    AddrC,
    Addr16Bit,
    A,
    Direct8Bit,
    BC,
    DE,
    HLI,
    HLD,
    B,
    C,
    D,
    E,
    H,
    L,
    HL,
}

#[derive(PartialEq, Eq, Structural, Debug, Clone, Copy)]
pub enum Load8Op {
    LD(Load8Dest, Load8Src),
    LDH(Load8Dest, Load8Src),
}

#[derive(PartialEq, Eq, Structural, Debug, Clone, Copy)]
pub enum Load16Dest {
    BC,
    Addr16Bit,
    DE,
    HL,
    SP,
    AF,
}

#[derive(PartialEq, Eq, Structural, Debug, Clone, Copy)]
pub enum Load16Src {
    /// Immediate little-endian word.
    Direct16Bit,
    SP,
    HL,
    /// SP plus a signed immediate byte.
    SPr8,
}

#[derive(PartialEq, Eq, Structural, Debug, Clone, Copy)]
pub enum Load16Op {
    LD(Load16Dest, Load16Src),
    POP(Load16Dest),
    PUSH(Load16Dest),
}

#[derive(PartialEq, Eq, Structural, Debug, Clone, Copy)]
pub enum ALU16Dest {
    BC,
    HL,
    DE,
    SP,
}

#[derive(PartialEq, Eq, Structural, Debug, Clone, Copy)]
pub enum ALU16Src {
    Signed8,
    NIL,
    BC,
    DE,
    HL,
    SP,
}

#[derive(PartialEq, Eq, Structural, Debug, Clone, Copy)]
pub enum ALU16Op {
    INC(ALU16Dest),
    ADD(ALU16Dest, ALU16Src),
    DEC(ALU16Dest),
}

#[derive(PartialEq, Eq, Structural, Debug, Clone, Copy)]
pub enum ALU8Dest {
    B,
    C,
    D,
    E,
    H,
    L,
    HL,
    A,
    Direct8Bit,
}

#[derive(PartialEq, Eq, Structural, Debug, Clone, Copy)]
pub enum ALU8Src {
    NIL,
    B,
    C,
    D,
    E,
    H,
    L,
    HL,
    A,
    Direct8Bit,
}

#[derive(PartialEq, Eq, Structural, Debug, Clone, Copy)]
pub enum ALU8Op {
    DAA,
    CPL,
    SCF,
    CCF,
    INC(ALU8Dest),
    DEC(ALU8Dest),
    SUB(ALU8Dest),
    AND(ALU8Dest),
    XOR(ALU8Dest),
    OR(ALU8Dest),
    CP(ALU8Dest),
    ADD(ALU8Dest, ALU8Src),
    ADC(ALU8Dest, ALU8Src),
    SBC(ALU8Dest, ALU8Src),
}

#[derive(PartialEq, Eq, Structural, Debug, Clone, Copy)]
pub enum BitDest {
    B,
    C,
    D,
    E,
    H,
    L,
    HL,
    A,
}

#[derive(PartialEq, Eq, Structural, Debug, Clone, Copy)]
pub enum BitPos {
    B0,
    B1,
    B2,
    B3,
    B4,
    B5,
    B6,
    B7,
}

impl BitPos {
    pub open spec fn pos(self) -> u8 {
        match self {
            BitPos::B0 => 0,
            BitPos::B1 => 1,
            BitPos::B2 => 2,
            BitPos::B3 => 3,
            BitPos::B4 => 4,
            BitPos::B5 => 5,
            BitPos::B6 => 6,
            BitPos::B7 => 7,
        }
    }

    pub open spec fn of_pos(p: u8) -> BitPos {
        if p == 0 {
            BitPos::B0
        } else if p == 1 {
            BitPos::B1
        } else if p == 2 {
            BitPos::B2
        } else if p == 3 {
            BitPos::B3
        } else if p == 4 {
            BitPos::B4
        } else if p == 5 {
            BitPos::B5
        } else if p == 6 {
            BitPos::B6
        } else {
            BitPos::B7
        }
    }

    pub fn to_u8(&self) -> (r: u8)
        ensures
            r == self.pos(),
            r < 8,
    {
        match self {
            BitPos::B0 => 0,
            BitPos::B1 => 1,
            BitPos::B2 => 2,
            BitPos::B3 => 3,
            BitPos::B4 => 4,
            BitPos::B5 => 5,
            BitPos::B6 => 6,
            BitPos::B7 => 7,
        }
    }

    pub fn from_u8(p: u8) -> (r: BitPos)
        requires
            p < 8,
        ensures
            r == BitPos::of_pos(p),
            r.pos() == p,
    {
        if p == 0 {
            BitPos::B0
        } else if p == 1 {
            BitPos::B1
        } else if p == 2 {
            BitPos::B2
        } else if p == 3 {
            BitPos::B3
        } else if p == 4 {
            BitPos::B4
        } else if p == 5 {
            BitPos::B5
        } else if p == 6 {
            BitPos::B6
        } else {
            BitPos::B7
        }
    }
}

impl From<BitPos> for u8 {
    fn from(pos: BitPos) -> (r: u8) {
        pos.to_u8()
    }
}

impl vstd::std_specs::convert::FromSpecImpl<BitPos> for u8 {
    open spec fn obeys_from_spec() -> bool {
        true
    }

    open spec fn from_spec(v: BitPos) -> u8 {
        v.pos()
    }
}

#[derive(PartialEq, Eq, Structural, Debug, Clone, Copy)]
pub enum BitOp {
    RLCA,
    RRCA,
    RLA,
    RRA,
    RLC(BitDest),
    RRC(BitDest),
    RL(BitDest),
    RR(BitDest),
    SLA(BitDest),
    SRA(BitDest),
    SWAP(BitDest),
    SRL(BitDest),
    BIT(BitPos, BitDest),
    RES(BitPos, BitDest),
    SET(BitPos, BitDest),
}

#[derive(PartialEq, Eq, Structural, Debug, Clone, Copy)]
pub enum JumpCondition {
    NIL,
    Z,
    C,
    NZ,
    NC,
}

#[derive(PartialEq, Eq, Structural, Debug, Clone, Copy)]
pub enum RSTTarget {
    X00,
    X08,
    X10,
    X18,
    X20,
    X28,
    X30,
    X38,
}

impl RSTTarget {
    pub open spec fn address(self) -> u16 {
        match self {
            RSTTarget::X00 => 0x00,
            RSTTarget::X08 => 0x08,
            RSTTarget::X10 => 0x10,
            RSTTarget::X18 => 0x18,
            RSTTarget::X20 => 0x20,
            RSTTarget::X28 => 0x28,
            RSTTarget::X30 => 0x30,
            RSTTarget::X38 => 0x38,
        }
    }

    pub fn to_address(&self) -> (r: u16)
        ensures
            r == self.address(),
    {
        match self {
            RSTTarget::X00 => 0x00,
            RSTTarget::X08 => 0x08,
            RSTTarget::X10 => 0x10,
            RSTTarget::X18 => 0x18,
            RSTTarget::X20 => 0x20,
            RSTTarget::X28 => 0x28,
            RSTTarget::X30 => 0x30,
            RSTTarget::X38 => 0x38,
        }
    }
}

#[derive(PartialEq, Eq, Structural, Debug, Clone, Copy)]
pub enum JumpOp {
    RETI,
    JR(JumpCondition),
    JPToHL,
    JP(JumpCondition),
    RET(JumpCondition),
    CALL(JumpCondition),
    RST(RSTTarget),
}

} // verus!

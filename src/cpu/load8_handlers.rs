use vstd::prelude::*;

use crate::bus::{is_stable, lemma_stable_read};
use crate::cpu::opcodes::{Load8Dest, Load8Src};
use crate::cpu::registers::{Reg16, Registers};
use crate::cpu::{word_read, wrap16, CPU};

verus! {

/// m-cycles that evaluating a load source takes.
pub open spec fn src_cost(s: Load8Src) -> int {
    match s {
        Load8Src::A | Load8Src::B | Load8Src::C | Load8Src::D | Load8Src::E | Load8Src::H
        | Load8Src::L => 0,
        Load8Src::Addr16Bit => 3,
        _ => 1,
    }
}

/// m-cycles that storing into a load destination takes.
pub open spec fn dest_cost(d: Load8Dest) -> int {
    match d {
        Load8Dest::A | Load8Dest::B | Load8Dest::C | Load8Dest::D | Load8Dest::E | Load8Dest::H
        | Load8Dest::L => 0,
        Load8Dest::Addr16Bit => 3,
        _ => 1,
    }
}

pub open spec fn is_reg_dest(d: Load8Dest) -> bool {
    dest_cost(d) == 0
}

/// The byte a source gives, where its only bus access is its first one.
pub open spec fn src_value(cpu: CPU, s: Load8Src) -> u8 {
    let r = cpu.registers;
    match s {
        Load8Src::A => r.a,
        Load8Src::B => r.b,
        Load8Src::C => r.c,
        Load8Src::D => r.d,
        Load8Src::E => r.e,
        Load8Src::H => r.h,
        Load8Src::L => r.l,
        Load8Src::BC => cpu.bus.read_spec(r.pair(Reg16::BC)),
        Load8Src::DE => cpu.bus.read_spec(r.pair(Reg16::DE)),
        Load8Src::HL | Load8Src::HLI | Load8Src::HLD => cpu.bus.read_spec(r.pair(Reg16::HL)),
        Load8Src::AddrC => cpu.bus.read_spec((0xFF00 + r.c) as u16),
        _ => cpu.bus.read_spec(r.pc),
    }
}

/// The registers after evaluating a source: HL moves for (HL+) and (HL-),
/// PC moves past immediates.
pub open spec fn after_src(r: Registers, s: Load8Src) -> Registers {
    match s {
        Load8Src::HLI => r.with_pair(Reg16::HL, wrap16(r.pair(Reg16::HL) + 1)),
        Load8Src::HLD => r.with_pair(Reg16::HL, wrap16(r.pair(Reg16::HL) - 1)),
        Load8Src::Direct8Bit => Registers { pc: wrap16(r.pc + 1), ..r },
        Load8Src::Addr16Bit => Registers { pc: wrap16(r.pc + 2), ..r },
        _ => r,
    }
}

/// The registers after storing `v` in a register destination.
pub open spec fn with_dest(r: Registers, d: Load8Dest, v: u8) -> Registers {
    match d {
        Load8Dest::A => Registers { a: v, ..r },
        Load8Dest::B => Registers { b: v, ..r },
        Load8Dest::C => Registers { c: v, ..r },
        Load8Dest::D => Registers { d: v, ..r },
        Load8Dest::E => Registers { e: v, ..r },
        Load8Dest::H => Registers { h: v, ..r },
        Load8Dest::L => Registers { l: v, ..r },
        Load8Dest::HLI => r.with_pair(Reg16::HL, wrap16(r.pair(Reg16::HL) + 1)),
        Load8Dest::HLD => r.with_pair(Reg16::HL, wrap16(r.pair(Reg16::HL) - 1)),
        Load8Dest::Addr16Bit => Registers { pc: wrap16(r.pc + 2), ..r },
        _ => r,
    }
}

/// The address that a memory destination writes, in the registers `r`.
pub open spec fn dest_address(r: Registers, d: Load8Dest) -> u16 {
    match d {
        Load8Dest::BC => r.pair(Reg16::BC),
        Load8Dest::DE => r.pair(Reg16::DE),
        Load8Dest::AddrC => (0xFF00 + r.c) as u16,
        _ => r.pair(Reg16::HL),
    }
}

fn read_source(cpu: &mut CPU, src: Load8Src) -> (r: u8)
    requires
        old(cpu).ready(),
        src != Load8Src::Unsigned8,
    ensures
        src != Load8Src::Addr16Bit ==> r == src_value(*old(cpu), src),
        src == Load8Src::Addr16Bit ==> exists|addr: u16|
            {
                &&& word_read(addr, old(cpu).bus, old(cpu).registers.pc)
                &&& (is_stable(addr) ==> r == old(cpu).bus.read_spec(addr))
            },
        final(cpu).registers == after_src(old(cpu).registers, src),
        final(cpu).after_ticks(*old(cpu), src_cost(src)),
        final(cpu).memory_kept(*old(cpu)),
        src_cost(src) == 0 ==> final(cpu).bus == old(cpu).bus,
{
    match src {
        Load8Src::A => cpu.registers.a,
        Load8Src::B => cpu.registers.b,
        Load8Src::C => cpu.registers.c,
        Load8Src::D => cpu.registers.d,
        Load8Src::E => cpu.registers.e,
        Load8Src::H => cpu.registers.h,
        Load8Src::L => cpu.registers.l,
        Load8Src::HL => {
            let addr = cpu.registers.get_reg_pair(Reg16::HL);
            cpu.read_byte_bus(addr)
        },
        Load8Src::BC => {
            let addr = cpu.registers.get_reg_pair(Reg16::BC);
            cpu.read_byte_bus(addr)
        },
        Load8Src::DE => {
            let addr = cpu.registers.get_reg_pair(Reg16::DE);
            cpu.read_byte_bus(addr)
        },
        Load8Src::HLI => {
            let addr = cpu.registers.get_reg_pair(Reg16::HL);
            let value = cpu.read_byte_bus(addr);
            cpu.registers.set_reg_pair(addr.wrapping_add(1), Reg16::HL);
            value
        },
        Load8Src::HLD => {
            let addr = cpu.registers.get_reg_pair(Reg16::HL);
            let value = cpu.read_byte_bus(addr);
            cpu.registers.set_reg_pair(addr.wrapping_sub(1), Reg16::HL);
            value
        },
        Load8Src::AddrC => {
            let c = cpu.registers.c;
            let addr = 0xFF00 | (c as u16);
            assert(0xFF00u16 | (c as u16) == 0xFF00 + c) by (bit_vector);
            cpu.read_byte_bus(addr)
        },
        Load8Src::Addr16Bit => {
            let addr = cpu.fetch_word();
            let ghost mid = *cpu;
            let b = cpu.read_byte_bus(addr);
            proof {
                if is_stable(addr) {
                    lemma_stable_read(old(cpu).bus, mid.bus, addr);
                }
            }
            b
        },
        _ => cpu.fetch_byte(),
    }
}

/// What `ld` does: the state `new` follows `old`.
pub open spec fn ld_done(new: CPU, old: CPU, dest: Load8Dest, src: Load8Src) -> bool {
    &&& new.after_ticks(old, src_cost(src) + dest_cost(dest))
    &&& ({
            let r1 = after_src(old.registers, src);
            let v = src_value(old, src);
            &&& is_reg_dest(dest) && src != Load8Src::Addr16Bit ==> new.registers
                == with_dest(r1, dest, v)
            &&& !is_reg_dest(dest) ==> new.registers == with_dest(r1, dest, 0)
            &&& !is_reg_dest(dest) && dest != Load8Dest::Addr16Bit && src != Load8Src::Addr16Bit
                ==> new.ram_written(old, dest_address(r1, dest), v)
            &&& is_reg_dest(dest) ==> new.memory_kept(old)
            &&& is_reg_dest(dest) && src == Load8Src::Addr16Bit ==> exists|addr: u16, b: u8|
                {
                    &&& word_read(addr, old.bus, old.registers.pc)
                    &&& (is_stable(addr) ==> b == old.bus.read_spec(addr))
                    &&& new.registers == with_dest(r1, dest, b)
                }
            &&& dest == Load8Dest::Addr16Bit && src_cost(src) == 0 ==> exists|addr: u16|
                {
                    &&& word_read(addr, old.bus, old.registers.pc)
                    &&& new.ram_written(old, addr, v)
                }
        })
}

fn is_register_dest(d: Load8Dest) -> (r: bool)
    ensures
        r == is_reg_dest(d),
{
    match d {
        Load8Dest::A | Load8Dest::B | Load8Dest::C | Load8Dest::D | Load8Dest::E | Load8Dest::H
        | Load8Dest::L => true,
        _ => false,
    }
}

/// Stores into a register destination.
fn store_register(cpu: &mut CPU, dest: Load8Dest, byte: u8)
    requires
        is_reg_dest(dest),
    ensures
        final(cpu).registers == with_dest(old(cpu).registers, dest, byte),
        final(cpu).bus == old(cpu).bus,
        final(cpu).cycles == old(cpu).cycles,
        final(cpu).ime == old(cpu).ime,
        final(cpu).halted == old(cpu).halted,
        final(cpu).enable_ime_next_cycle == old(cpu).enable_ime_next_cycle,
{
    match dest {
        Load8Dest::A => cpu.registers.a = byte,
        Load8Dest::B => cpu.registers.b = byte,
        Load8Dest::C => cpu.registers.c = byte,
        Load8Dest::D => cpu.registers.d = byte,
        Load8Dest::E => cpu.registers.e = byte,
        Load8Dest::H => cpu.registers.h = byte,
        _ => cpu.registers.l = byte,
    }
}

/// Stores through (BC), (DE), (HL), (HL+), (HL-) or (0xFF00 + C).
#[verifier::rlimit(60)]
fn store_memory(cpu: &mut CPU, dest: Load8Dest, byte: u8)
    requires
        old(cpu).wf(),
        old(cpu).cycles <= u64::MAX - 4,
        !is_reg_dest(dest),
        dest != Load8Dest::Addr16Bit,
        dest != Load8Dest::Unsigned8,
    ensures
        final(cpu).registers == with_dest(old(cpu).registers, dest, 0),
        final(cpu).after_ticks(*old(cpu), 1),
        final(cpu).ram_written(*old(cpu), dest_address(old(cpu).registers, dest), byte),
{
    match dest {
        Load8Dest::AddrC => {
            let c = cpu.registers.c;
            let addr = 0xFF00 | (c as u16);
            assert(0xFF00u16 | (c as u16) == 0xFF00 + c) by (bit_vector);
            cpu.write_byte(addr, byte);
        },
        Load8Dest::HLI => {
            let addr = cpu.registers.get_reg_pair(Reg16::HL);
            cpu.write_byte(addr, byte);
            cpu.registers.set_reg_pair(addr.wrapping_add(1), Reg16::HL);
        },
        Load8Dest::HLD => {
            let addr = cpu.registers.get_reg_pair(Reg16::HL);
            cpu.write_byte(addr, byte);
            cpu.registers.set_reg_pair(addr.wrapping_sub(1), Reg16::HL);
        },
        Load8Dest::BC => {
            let addr = cpu.registers.get_reg_pair(Reg16::BC);
            cpu.write_byte(addr, byte);
        },
        Load8Dest::DE => {
            let addr = cpu.registers.get_reg_pair(Reg16::DE);
            cpu.write_byte(addr, byte);
        },
        _ => {
            let addr = cpu.registers.get_reg_pair(Reg16::HL);
            cpu.write_byte(addr, byte);
        },
    }
}

/// Stores a byte at the address that the immediate word names.
fn store_to_immediate_address(cpu: &mut CPU, byte: u8) -> (addr: u16)
    requires
        old(cpu).wf(),
        old(cpu).cycles <= u64::MAX - 12,
    ensures
        word_read(addr, old(cpu).bus, old(cpu).registers.pc),
        final(cpu).ram_written(*old(cpu), addr, byte),
        final(cpu).registers == (Registers { pc: wrap16(old(cpu).registers.pc + 2), ..old(cpu).registers }),
        final(cpu).after_ticks(*old(cpu), 3),
{
    let addr = cpu.fetch_word();
    cpu.write_byte(addr, byte);
    addr
}

/// LD: evaluates the source, then stores into the destination; (HL+) and
/// (HL-) move HL after the access.
#[verifier::rlimit(60)]
pub fn ld(cpu: &mut CPU, dest: Load8Dest, src: Load8Src)
    requires
        old(cpu).ready(),
        src != Load8Src::Unsigned8,
        dest != Load8Dest::Unsigned8,
    ensures
        ld_done(*final(cpu), *old(cpu), dest, src),
{

    let byte = read_source(cpu, src);
    let ghost mut addr1: u16 = 0;
    let ghost addr0: u16 = if src == Load8Src::Addr16Bit {
        choose|addr: u16|
            {
                &&& word_read(addr, old(cpu).bus, old(cpu).registers.pc)
                &&& (is_stable(addr) ==> byte == old(cpu).bus.read_spec(addr))
            }
    } else {
        0
    };
    if is_register_dest(dest) {
        store_register(cpu, dest, byte);
    } else if dest == Load8Dest::Addr16Bit {
        let addr = store_to_immediate_address(cpu, byte);
        proof {
            addr1 = addr;
        }
    } else {
        store_memory(cpu, dest, byte);
    }
    proof {
        if is_reg_dest(dest) && src == Load8Src::Addr16Bit {
            assert(word_read(addr0, old(cpu).bus, old(cpu).registers.pc));
            assert(cpu.registers == with_dest(after_src(old(cpu).registers, src), dest, byte));
        }
        if dest == Load8Dest::Addr16Bit && src_cost(src) == 0 {
            assert(word_read(addr1, old(cpu).bus, old(cpu).registers.pc));
            assert(cpu.ram_written(*old(cpu), addr1, src_value(*old(cpu), src)));
        }
    }
}

/// What `ldh` does: the state `new` follows `old`.
pub open spec fn ldh_done(new: CPU, old: CPU, dest: Load8Dest, _src: Load8Src) -> bool {
    &&& new.after_ticks(old, 2)
    &&& ({
            let addr = (0xFF00 + old.bus.read_spec(old.registers.pc)) as u16;
            let r1 = Registers { pc: wrap16(old.registers.pc + 1), ..old.registers };
            &&& dest == Load8Dest::Unsigned8 ==> new.registers == r1 && new.ram_written(
                old,
                addr,
                old.registers.a,
            )
            &&& dest == Load8Dest::A ==> new.registers == (Registers {
                a: new.registers.a,
                ..r1
            }) && new.memory_kept(old) && (is_stable(addr) ==> new.registers.a
                == old.bus.read_spec(addr))
        })
}

/// LDH (a8), A and LDH A, (a8): access 0xFF00 + a8.
pub fn ldh(cpu: &mut CPU, dest: Load8Dest, _src: Load8Src)
    requires
        old(cpu).ready(),
        dest == Load8Dest::Unsigned8 || dest == Load8Dest::A,
    ensures
        ldh_done(*final(cpu), *old(cpu), dest, _src),
{
    let d8 = cpu.fetch_byte();
    let addr = 0xFF00 | (d8 as u16);
    assert(0xFF00u16 | (d8 as u16) == 0xFF00 + d8) by (bit_vector);
    if dest == Load8Dest::Unsigned8 {
        cpu.write_byte(addr, cpu.registers.a);
    } else {
        let ghost mid = *cpu;
        let byte = cpu.read_byte_bus(addr);
        proof {
            if is_stable(addr) {
                lemma_stable_read(old(cpu).bus, mid.bus, addr);
            }
        }
        cpu.registers.a = byte;
    }
}

} // verus!

use vstd::prelude::*;

use crate::cpu::alu::{add16_spec, add_sp_spec, alu_add16, alu_add_sp};
use crate::cpu::opcodes::{ALU16Dest, ALU16Src};
use crate::cpu::registers::{Reg16, Registers};
use crate::cpu::{wrap16, CPU};

verus! {

pub open spec fn dest_pair(d: ALU16Dest) -> Reg16 {
    match d {
        ALU16Dest::BC => Reg16::BC,
        ALU16Dest::HL => Reg16::HL,
        ALU16Dest::DE => Reg16::DE,
        ALU16Dest::SP => Reg16::SP,
    }
}

pub open spec fn src_pair(s: ALU16Src) -> Reg16 {
    match s {
        ALU16Src::BC => Reg16::BC,
        ALU16Src::DE => Reg16::DE,
        ALU16Src::HL => Reg16::HL,
        _ => Reg16::SP,
    }
}

fn to_dest_pair(d: ALU16Dest) -> (r: Reg16)
    ensures
        r == dest_pair(d),
{
    match d {
        ALU16Dest::BC => Reg16::BC,
        ALU16Dest::HL => Reg16::HL,
        ALU16Dest::DE => Reg16::DE,
        ALU16Dest::SP => Reg16::SP,
    }
}

fn to_src_pair(s: ALU16Src) -> (r: Reg16)
    ensures
        r == src_pair(s),
{
    match s {
        ALU16Src::BC => Reg16::BC,
        ALU16Src::DE => Reg16::DE,
        ALU16Src::HL => Reg16::HL,
        _ => Reg16::SP,
    }
}

/// What `inc` does: the state `new` follows `old`.
pub open spec fn inc_done(new: CPU, old: CPU, dest: ALU16Dest) -> bool {
    &&& new.registers == old.registers.with_pair(
            dest_pair(dest),
            wrap16(old.registers.pair(dest_pair(dest)) + 1),
        )
    &&& new.after_ticks(old, 1)
    &&& new.memory_kept(old)
}

/// INC rr: no flags, one internal m-cycle.
pub fn inc(cpu: &mut CPU, dest: ALU16Dest)
    requires
        old(cpu).ready(),
    ensures
        inc_done(*final(cpu), *old(cpu), dest),
{
    let p = to_dest_pair(dest);
    let word = cpu.registers.get_reg_pair(p);
    cpu.tick();
    cpu.registers.set_reg_pair(word.wrapping_add(1), p);
}

/// What `dec` does: the state `new` follows `old`.
pub open spec fn dec_done(new: CPU, old: CPU, dest: ALU16Dest) -> bool {
    &&& new.registers == old.registers.with_pair(
            dest_pair(dest),
            wrap16(old.registers.pair(dest_pair(dest)) - 1),
        )
    &&& new.after_ticks(old, 1)
    &&& new.memory_kept(old)
}

/// DEC rr: no flags, one internal m-cycle.
pub fn dec(cpu: &mut CPU, dest: ALU16Dest)
    requires
        old(cpu).ready(),
    ensures
        dec_done(*final(cpu), *old(cpu), dest),
{
    let p = to_dest_pair(dest);
    let word = cpu.registers.get_reg_pair(p);
    cpu.tick();
    cpu.registers.set_reg_pair(word.wrapping_sub(1), p);
}

/// What `add` does: the state `new` follows `old`.
pub open spec fn add_done(new: CPU, old: CPU, dest: ALU16Dest, src: ALU16Src) -> bool {
    &&& (dest == ALU16Dest::SP ==> {
            let (sum, f) = add_sp_spec(
                old.registers.sp,
                old.bus.read_spec(old.registers.pc),
            );
            &&& new.registers == (Registers {
                sp: sum,
                f,
                pc: wrap16(old.registers.pc + 1),
                ..old.registers
            })
            &&& new.after_ticks(old, 3)
        })
    &&& (dest == ALU16Dest::HL ==> {
            let (sum, f) = add16_spec(
                old.registers.pair(Reg16::HL),
                old.registers.pair(src_pair(src)),
                old.registers.f,
            );
            &&& new.registers == (Registers { f, ..old.registers }).with_pair(
                Reg16::HL,
                sum,
            )
            &&& new.after_ticks(old, 1)
        })
    &&& new.memory_kept(old)
}

/// ADD HL, rr (one internal m-cycle) and ADD SP, e8 (an immediate and two
/// internal m-cycles).
pub fn add(cpu: &mut CPU, dest: ALU16Dest, src: ALU16Src)
    requires
        old(cpu).ready(),
        dest == ALU16Dest::SP || dest == ALU16Dest::HL,
        dest == ALU16Dest::HL ==> src != ALU16Src::NIL && src != ALU16Src::Signed8,
    ensures
        add_done(*final(cpu), *old(cpu), dest, src),
{
    if dest == ALU16Dest::SP {
        let e = cpu.fetch_byte();
        let (sum, f) = alu_add_sp(cpu.registers.sp, e);
        cpu.tick();
        cpu.tick();
        cpu.registers.f = f;
        cpu.registers.sp = sum;
    } else {
        let orig = cpu.registers.get_reg_pair(Reg16::HL);
        let word = cpu.registers.get_reg_pair(to_src_pair(src));
        let (sum, f) = alu_add16(orig, word, cpu.registers.f);
        cpu.tick();
        cpu.registers.f = f;
        cpu.registers.set_reg_pair(sum, Reg16::HL);
    }
}

} // verus!

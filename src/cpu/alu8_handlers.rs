use vstd::prelude::*;

use crate::cpu::alu::{
    add8_spec, alu_add, alu_and, alu_daa, alu_dec, alu_inc, alu_or, alu_sub, alu_xor, and8_spec,
    daa_spec, dec8_spec, inc8_spec, or8_spec, sub8_spec, xor8_spec,
};
use crate::cpu::opcodes::{ALU8Dest, ALU8Src};
use crate::cpu::registers::flags::Flags;
use crate::cpu::registers::{Reg16, Registers};
use crate::cpu::{wrap16, CPU};

verus! {

/// The operand that an 8-bit ALU operand names, read in the state `cpu`.
pub open spec fn operand_value(cpu: CPU, d: ALU8Dest) -> u8 {
    match d {
        ALU8Dest::A => cpu.registers.a,
        ALU8Dest::B => cpu.registers.b,
        ALU8Dest::C => cpu.registers.c,
        ALU8Dest::D => cpu.registers.d,
        ALU8Dest::E => cpu.registers.e,
        ALU8Dest::H => cpu.registers.h,
        ALU8Dest::L => cpu.registers.l,
        ALU8Dest::HL => cpu.bus.read_spec(cpu.registers.pair(Reg16::HL)),
        ALU8Dest::Direct8Bit => cpu.bus.read_spec(cpu.registers.pc),
    }
}

/// m-cycles that reading the operand takes.
pub open spec fn operand_cost(d: ALU8Dest) -> int {
    match d {
        ALU8Dest::HL | ALU8Dest::Direct8Bit => 1,
        _ => 0,
    }
}

/// The registers after reading the operand: an immediate moves PC past it.
pub open spec fn after_operand(r: Registers, d: ALU8Dest) -> Registers {
    match d {
        ALU8Dest::Direct8Bit => Registers { pc: wrap16(r.pc + 1), ..r },
        _ => r,
    }
}

/// The registers after storing `v` in a register operand.
pub open spec fn with_operand(r: Registers, d: ALU8Dest, v: u8) -> Registers {
    match d {
        ALU8Dest::A => Registers { a: v, ..r },
        ALU8Dest::B => Registers { b: v, ..r },
        ALU8Dest::C => Registers { c: v, ..r },
        ALU8Dest::D => Registers { d: v, ..r },
        ALU8Dest::E => Registers { e: v, ..r },
        ALU8Dest::H => Registers { h: v, ..r },
        ALU8Dest::L => Registers { l: v, ..r },
        _ => r,
    }
}

pub open spec fn src_operand(s: ALU8Src) -> ALU8Dest {
    match s {
        ALU8Src::B => ALU8Dest::B,
        ALU8Src::C => ALU8Dest::C,
        ALU8Src::D => ALU8Dest::D,
        ALU8Src::E => ALU8Dest::E,
        ALU8Src::H => ALU8Dest::H,
        ALU8Src::L => ALU8Dest::L,
        ALU8Src::HL => ALU8Dest::HL,
        ALU8Src::A => ALU8Dest::A,
        _ => ALU8Dest::Direct8Bit,
    }
}

/// An accumulator operation on operand `d` left A = `res` and F = `f`.
pub open spec fn acc_done(new: CPU, old: CPU, d: ALU8Dest, res: u8, f: Flags) -> bool {
    &&& new.registers == (Registers { a: res, f, ..after_operand(old.registers, d) })
    &&& new.after_ticks(old, operand_cost(d))
    &&& new.memory_kept(old)
}

fn src_to_operand(src: ALU8Src) -> (r: ALU8Dest)
    requires
        src != ALU8Src::NIL,
    ensures
        r == src_operand(src),
{
    match src {
        ALU8Src::B => ALU8Dest::B,
        ALU8Src::C => ALU8Dest::C,
        ALU8Src::D => ALU8Dest::D,
        ALU8Src::E => ALU8Dest::E,
        ALU8Src::H => ALU8Dest::H,
        ALU8Src::L => ALU8Dest::L,
        ALU8Src::HL => ALU8Dest::HL,
        ALU8Src::A => ALU8Dest::A,
        _ => ALU8Dest::Direct8Bit,
    }
}

/// Reads an operand: a register, (HL), or the immediate byte.
fn get_operand(cpu: &mut CPU, d: ALU8Dest) -> (r: u8)
    requires
        old(cpu).ready(),
    ensures
        r == operand_value(*old(cpu), d),
        final(cpu).registers == after_operand(old(cpu).registers, d),
        final(cpu).after_ticks(*old(cpu), operand_cost(d)),
        final(cpu).memory_kept(*old(cpu)),
        operand_cost(d) == 0 ==> final(cpu).bus == old(cpu).bus,
{
    match d {
        ALU8Dest::A => cpu.registers.a,
        ALU8Dest::B => cpu.registers.b,
        ALU8Dest::C => cpu.registers.c,
        ALU8Dest::D => cpu.registers.d,
        ALU8Dest::E => cpu.registers.e,
        ALU8Dest::H => cpu.registers.h,
        ALU8Dest::L => cpu.registers.l,
        ALU8Dest::HL => {
            let addr = cpu.registers.get_reg_pair(Reg16::HL);
            cpu.read_byte_bus(addr)
        },
        ALU8Dest::Direct8Bit => cpu.fetch_byte(),
    }
}

/// Stores into a register operand or (HL).
fn set_operand(cpu: &mut CPU, d: ALU8Dest, v: u8)
    requires
        old(cpu).wf(),
        old(cpu).cycles <= u64::MAX - 4,
        d != ALU8Dest::Direct8Bit,
    ensures
        final(cpu).registers == with_operand(old(cpu).registers, d, v),
        final(cpu).after_ticks(*old(cpu), if d == ALU8Dest::HL { 1 } else { 0 }),
        d == ALU8Dest::HL ==> final(cpu).ram_written(*old(cpu), old(cpu).registers.pair(Reg16::HL), v),
        d != ALU8Dest::HL ==> final(cpu).bus == old(cpu).bus,
{
    match d {
        ALU8Dest::A => cpu.registers.a = v,
        ALU8Dest::B => cpu.registers.b = v,
        ALU8Dest::C => cpu.registers.c = v,
        ALU8Dest::D => cpu.registers.d = v,
        ALU8Dest::E => cpu.registers.e = v,
        ALU8Dest::H => cpu.registers.h = v,
        ALU8Dest::L => cpu.registers.l = v,
        _ => {
            let addr = cpu.registers.get_reg_pair(Reg16::HL);
            cpu.write_byte(addr, v);
        },
    }
}

/// What `inc` does: the state `new` follows `old`.
pub open spec fn inc_done(new: CPU, old: CPU, dest: ALU8Dest) -> bool {
    &&& ({
            let (res, f) = inc8_spec(operand_value(old, dest), old.registers.f);
            &&& new.registers == with_operand(Registers { f, ..old.registers }, dest, res)
            &&& new.after_ticks(old, 2 * operand_cost(dest))
            &&& dest == ALU8Dest::HL ==> new.ram_written(old, old.registers.pair(Reg16::HL), res)
            &&& dest != ALU8Dest::HL ==> new.bus == old.bus
        })
}

/// INC r / INC (HL): C is kept.
pub fn inc(cpu: &mut CPU, dest: ALU8Dest)
    requires
        old(cpu).ready(),
        dest != ALU8Dest::Direct8Bit,
    ensures
        inc_done(*final(cpu), *old(cpu), dest),
{
    let v = get_operand(cpu, dest);
    let (res, f) = alu_inc(v, cpu.registers.f);
    cpu.registers.f = f;
    set_operand(cpu, dest, res);
}

/// What `dec` does: the state `new` follows `old`.
pub open spec fn dec_done(new: CPU, old: CPU, dest: ALU8Dest) -> bool {
    &&& ({
            let (res, f) = dec8_spec(operand_value(old, dest), old.registers.f);
            &&& new.registers == with_operand(Registers { f, ..old.registers }, dest, res)
            &&& new.after_ticks(old, 2 * operand_cost(dest))
            &&& dest == ALU8Dest::HL ==> new.ram_written(old, old.registers.pair(Reg16::HL), res)
            &&& dest != ALU8Dest::HL ==> new.bus == old.bus
        })
}

/// DEC r / DEC (HL): C is kept.
pub fn dec(cpu: &mut CPU, dest: ALU8Dest)
    requires
        old(cpu).ready(),
        dest != ALU8Dest::Direct8Bit,
    ensures
        dec_done(*final(cpu), *old(cpu), dest),
{
    let v = get_operand(cpu, dest);
    let (res, f) = alu_dec(v, cpu.registers.f);
    cpu.registers.f = f;
    set_operand(cpu, dest, res);
}

/// What `or` does: the state `new` follows `old`.
pub open spec fn or_done(new: CPU, old: CPU, dest: ALU8Dest) -> bool {
    &&& ({
            let (res, f) = or8_spec(old.registers.a, operand_value(old, dest));
            acc_done(new, old, dest, res, f)
        })
}

pub fn or(cpu: &mut CPU, dest: ALU8Dest)
    requires
        old(cpu).ready(),
    ensures
        or_done(*final(cpu), *old(cpu), dest),
{
    let v = get_operand(cpu, dest);
    let (res, f) = alu_or(cpu.registers.a, v);
    cpu.registers.a = res;
    cpu.registers.f = f;
}

/// What `sub` does: the state `new` follows `old`.
pub open spec fn sub_done(new: CPU, old: CPU, dest: ALU8Dest) -> bool {
    &&& ({
            let (res, f) = sub8_spec(old.registers.a, operand_value(old, dest), false);
            acc_done(new, old, dest, res, f)
        })
}

pub fn sub(cpu: &mut CPU, dest: ALU8Dest)
    requires
        old(cpu).ready(),
    ensures
        sub_done(*final(cpu), *old(cpu), dest),
{
    let v = get_operand(cpu, dest);
    let (res, f) = alu_sub(cpu.registers.a, v, false);
    cpu.registers.a = res;
    cpu.registers.f = f;
}

/// What `cp` does: the state `new` follows `old`.
pub open spec fn cp_done(new: CPU, old: CPU, dest: ALU8Dest) -> bool {
    &&& ({
            let (_, f) = sub8_spec(old.registers.a, operand_value(old, dest), false);
            acc_done(new, old, dest, old.registers.a, f)
        })
}

/// CP: the flags of SUB, A kept.
pub fn cp(cpu: &mut CPU, dest: ALU8Dest)
    requires
        old(cpu).ready(),
    ensures
        cp_done(*final(cpu), *old(cpu), dest),
{
    let v = get_operand(cpu, dest);
    let (_, f) = alu_sub(cpu.registers.a, v, false);
    cpu.registers.f = f;
}

/// What `and` does: the state `new` follows `old`.
pub open spec fn and_done(new: CPU, old: CPU, dest: ALU8Dest) -> bool {
    &&& ({
            let (res, f) = and8_spec(old.registers.a, operand_value(old, dest));
            acc_done(new, old, dest, res, f)
        })
}

pub fn and(cpu: &mut CPU, dest: ALU8Dest)
    requires
        old(cpu).ready(),
    ensures
        and_done(*final(cpu), *old(cpu), dest),
{
    let v = get_operand(cpu, dest);
    let (res, f) = alu_and(cpu.registers.a, v);
    cpu.registers.a = res;
    cpu.registers.f = f;
}

/// What `xor` does: the state `new` follows `old`.
pub open spec fn xor_done(new: CPU, old: CPU, dest: ALU8Dest) -> bool {
    &&& ({
            let (res, f) = xor8_spec(old.registers.a, operand_value(old, dest));
            acc_done(new, old, dest, res, f)
        })
}

pub fn xor(cpu: &mut CPU, dest: ALU8Dest)
    requires
        old(cpu).ready(),
    ensures
        xor_done(*final(cpu), *old(cpu), dest),
{
    let v = get_operand(cpu, dest);
    let (res, f) = alu_xor(cpu.registers.a, v);
    cpu.registers.a = res;
    cpu.registers.f = f;
}

/// What `add` does: the state `new` follows `old`.
pub open spec fn add_done(new: CPU, old: CPU, _dest: ALU8Dest, src: ALU8Src) -> bool {
    &&& ({
            let d = src_operand(src);
            let (res, f) = add8_spec(old.registers.a, operand_value(old, d), false);
            acc_done(new, old, d, res, f)
        })
}

pub fn add(cpu: &mut CPU, _dest: ALU8Dest, src: ALU8Src)
    requires
        old(cpu).ready(),
        src != ALU8Src::NIL,
    ensures
        add_done(*final(cpu), *old(cpu), _dest, src),
{
    let v = get_operand(cpu, src_to_operand(src));
    let (res, f) = alu_add(cpu.registers.a, v, false);
    cpu.registers.a = res;
    cpu.registers.f = f;
}

/// What `adc` does: the state `new` follows `old`.
pub open spec fn adc_done(new: CPU, old: CPU, _dest: ALU8Dest, src: ALU8Src) -> bool {
    &&& ({
            let d = src_operand(src);
            let (res, f) = add8_spec(
                old.registers.a,
                operand_value(old, d),
                old.registers.f.carry,
            );
            acc_done(new, old, d, res, f)
        })
}

pub fn adc(cpu: &mut CPU, _dest: ALU8Dest, src: ALU8Src)
    requires
        old(cpu).ready(),
        src != ALU8Src::NIL,
    ensures
        adc_done(*final(cpu), *old(cpu), _dest, src),
{
    let v = get_operand(cpu, src_to_operand(src));
    let (res, f) = alu_add(cpu.registers.a, v, cpu.registers.f.carry);
    cpu.registers.a = res;
    cpu.registers.f = f;
}

/// What `sbc` does: the state `new` follows `old`.
pub open spec fn sbc_done(new: CPU, old: CPU, _dest: ALU8Dest, src: ALU8Src) -> bool {
    &&& ({
            let d = src_operand(src);
            let (res, f) = sub8_spec(
                old.registers.a,
                operand_value(old, d),
                old.registers.f.carry,
            );
            acc_done(new, old, d, res, f)
        })
}

pub fn sbc(cpu: &mut CPU, _dest: ALU8Dest, src: ALU8Src)
    requires
        old(cpu).ready(),
        src != ALU8Src::NIL,
    ensures
        sbc_done(*final(cpu), *old(cpu), _dest, src),
{
    let v = get_operand(cpu, src_to_operand(src));
    let (res, f) = alu_sub(cpu.registers.a, v, cpu.registers.f.carry);
    cpu.registers.a = res;
    cpu.registers.f = f;
}

/// What `cpl` does: the state `new` follows `old`.
pub open spec fn cpl_done(new: CPU, old: CPU) -> bool {
    &&& new.registers == (Registers {
            a: !old.registers.a,
            f: Flags { sub: true, half_carry: true, ..old.registers.f },
            ..old.registers
        })
    &&& new.bus == old.bus
    &&& new.cycles == old.cycles
    &&& new.ime == old.ime
    &&& new.halted == old.halted
    &&& new.enable_ime_next_cycle == old.enable_ime_next_cycle
}

/// CPL: A is complemented, N and H set.
pub fn cpl(cpu: &mut CPU)
    ensures
        cpl_done(*final(cpu), *old(cpu)),
{
    cpu.registers.a = !cpu.registers.a;
    cpu.registers.f.sub = true;
    cpu.registers.f.half_carry = true;
}

/// What `ccf` does: the state `new` follows `old`.
pub open spec fn ccf_done(new: CPU, old: CPU) -> bool {
    &&& new.registers == (Registers {
            f: Flags {
                sub: false,
                half_carry: false,
                carry: !old.registers.f.carry,
                ..old.registers.f
            },
            ..old.registers
        })
    &&& new.bus == old.bus
    &&& new.cycles == old.cycles
    &&& new.ime == old.ime
    &&& new.halted == old.halted
    &&& new.enable_ime_next_cycle == old.enable_ime_next_cycle
}

/// CCF: C is complemented, N and H cleared.
pub fn ccf(cpu: &mut CPU)
    ensures
        ccf_done(*final(cpu), *old(cpu)),
{
    cpu.registers.f.sub = false;
    cpu.registers.f.half_carry = false;
    cpu.registers.f.carry = !cpu.registers.f.carry;
}

/// What `scf` does: the state `new` follows `old`.
pub open spec fn scf_done(new: CPU, old: CPU) -> bool {
    &&& new.registers == (Registers {
            f: Flags { sub: false, half_carry: false, carry: true, ..old.registers.f },
            ..old.registers
        })
    &&& new.bus == old.bus
    &&& new.cycles == old.cycles
    &&& new.ime == old.ime
    &&& new.halted == old.halted
    &&& new.enable_ime_next_cycle == old.enable_ime_next_cycle
}

/// SCF: C set, N and H cleared.
pub fn scf(cpu: &mut CPU)
    ensures
        scf_done(*final(cpu), *old(cpu)),
{
    cpu.registers.f.sub = false;
    cpu.registers.f.half_carry = false;
    cpu.registers.f.carry = true;
}

/// What `daa` does: the state `new` follows `old`.
pub open spec fn daa_done(new: CPU, old: CPU) -> bool {
    &&& ({
            let (res, f) = daa_spec(old.registers.a, old.registers.f);
            new.registers == (Registers { a: res, f, ..old.registers })
        })
    &&& new.bus == old.bus
    &&& new.cycles == old.cycles
    &&& new.ime == old.ime
    &&& new.halted == old.halted
    &&& new.enable_ime_next_cycle == old.enable_ime_next_cycle
}

/// DAA: decimal correction of A after an addition or a subtraction.
pub fn daa(cpu: &mut CPU)
    ensures
        daa_done(*final(cpu), *old(cpu)),
{
    let (res, f) = alu_daa(cpu.registers.a, cpu.registers.f);
    cpu.registers.a = res;
    cpu.registers.f = f;
}

} // verus!

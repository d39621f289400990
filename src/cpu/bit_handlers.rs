use vstd::prelude::*;

use crate::cpu::alu::{
    alu_bit, alu_rotl, alu_rotl_a, alu_rotr, alu_rotr_a, alu_sla, alu_sra, alu_srl, alu_swap,
    bit_flags_spec, rotl_a_spec, rotl_cb_spec, rotr_a_spec, rotr_cb_spec, sla_spec, sra_spec,
    srl_spec, swap_flags_spec,
};
use crate::cpu::opcodes::{BitDest, BitPos};
use crate::cpu::registers::flags::Flags;
use crate::cpu::registers::{Reg16, Registers};
use crate::cpu::CPU;
use crate::utils::{reset_bit, reset_bit_spec, set_bit, set_bit_spec};

verus! {

/// The byte that a CB-prefixed operand names, read in the state `cpu`.
pub open spec fn target_value(cpu: CPU, d: BitDest) -> u8 {
    match d {
        BitDest::A => cpu.registers.a,
        BitDest::B => cpu.registers.b,
        BitDest::C => cpu.registers.c,
        BitDest::D => cpu.registers.d,
        BitDest::E => cpu.registers.e,
        BitDest::H => cpu.registers.h,
        BitDest::L => cpu.registers.l,
        BitDest::HL => cpu.bus.read_spec(cpu.registers.pair(Reg16::HL)),
    }
}

/// The registers after storing `v` in a register operand.
pub open spec fn with_target(r: Registers, d: BitDest, v: u8) -> Registers {
    match d {
        BitDest::A => Registers { a: v, ..r },
        BitDest::B => Registers { b: v, ..r },
        BitDest::C => Registers { c: v, ..r },
        BitDest::D => Registers { d: v, ..r },
        BitDest::E => Registers { e: v, ..r },
        BitDest::H => Registers { h: v, ..r },
        BitDest::L => Registers { l: v, ..r },
        BitDest::HL => r,
    }
}

/// A read-modify-write of operand `d` stored `res` and left F = `f`.
pub open spec fn rmw_done(new: CPU, old: CPU, d: BitDest, res: u8, f: Flags) -> bool {
    &&& new.registers == with_target(Registers { f, ..old.registers }, d, res)
    &&& new.after_ticks(old, if d == BitDest::HL { 2 } else { 0 })
    &&& d == BitDest::HL ==> new.ram_written(old, old.registers.pair(Reg16::HL), res)
    &&& d != BitDest::HL ==> new.bus == old.bus
}

/// An operation on A alone left A = `res` and F = `f`, in no time.
pub open spec fn a_done(new: CPU, old: CPU, res: u8, f: Flags) -> bool {
    &&& new.registers == (Registers { a: res, f, ..old.registers })
    &&& new.bus == old.bus
    &&& new.cycles == old.cycles
    &&& new.ime == old.ime
    &&& new.halted == old.halted
    &&& new.enable_ime_next_cycle == old.enable_ime_next_cycle
}

fn fetch_value(cpu: &mut CPU, d: BitDest) -> (r: u8)
    requires
        old(cpu).ready(),
    ensures
        r == target_value(*old(cpu), d),
        final(cpu).registers == old(cpu).registers,
        final(cpu).after_ticks(*old(cpu), if d == BitDest::HL { 1 } else { 0 }),
        final(cpu).memory_kept(*old(cpu)),
        d != BitDest::HL ==> final(cpu).bus == old(cpu).bus,
{
    match d {
        BitDest::A => cpu.registers.a,
        BitDest::B => cpu.registers.b,
        BitDest::C => cpu.registers.c,
        BitDest::D => cpu.registers.d,
        BitDest::E => cpu.registers.e,
        BitDest::H => cpu.registers.h,
        BitDest::L => cpu.registers.l,
        BitDest::HL => {
            let addr = cpu.registers.get_reg_pair(Reg16::HL);
            cpu.read_byte_bus(addr)
        },
    }
}

fn set_value(cpu: &mut CPU, d: BitDest, v: u8)
    requires
        old(cpu).wf(),
        old(cpu).cycles <= u64::MAX - 4,
    ensures
        final(cpu).registers == with_target(old(cpu).registers, d, v),
        final(cpu).after_ticks(*old(cpu), if d == BitDest::HL { 1 } else { 0 }),
        d == BitDest::HL ==> final(cpu).ram_written(*old(cpu), old(cpu).registers.pair(Reg16::HL), v),
        d != BitDest::HL ==> final(cpu).bus == old(cpu).bus,
{
    match d {
        BitDest::A => cpu.registers.a = v,
        BitDest::B => cpu.registers.b = v,
        BitDest::C => cpu.registers.c = v,
        BitDest::D => cpu.registers.d = v,
        BitDest::E => cpu.registers.e = v,
        BitDest::H => cpu.registers.h = v,
        BitDest::L => cpu.registers.l = v,
        BitDest::HL => {
            let addr = cpu.registers.get_reg_pair(Reg16::HL);
            cpu.write_byte(addr, v);
        },
    }
}

/// What `res` does: the state `new` follows `old`.
pub open spec fn res_done(new: CPU, old: CPU, pos: BitPos, dest: BitDest) -> bool {
    &&& rmw_done(
            new,
            old,
            dest,
            reset_bit_spec(target_value(old, dest), pos.pos()),
            old.registers.f,
        )
}

/// RES b: clears bit b; no flag changes.
pub fn res(cpu: &mut CPU, pos: BitPos, dest: BitDest)
    requires
        old(cpu).ready(),
    ensures
        res_done(*final(cpu), *old(cpu), pos, dest),
{
    let bit_pos: u8 = pos.to_u8();
    let value = fetch_value(cpu, dest);
    let value = reset_bit(value, bit_pos);
    set_value(cpu, dest, value);
}

/// What `set` does: the state `new` follows `old`.
pub open spec fn set_done(new: CPU, old: CPU, pos: BitPos, dest: BitDest) -> bool {
    &&& rmw_done(
            new,
            old,
            dest,
            set_bit_spec(target_value(old, dest), pos.pos()),
            old.registers.f,
        )
}

/// SET b: sets bit b; no flag changes.
pub fn set(cpu: &mut CPU, pos: BitPos, dest: BitDest)
    requires
        old(cpu).ready(),
    ensures
        set_done(*final(cpu), *old(cpu), pos, dest),
{
    let bit_pos: u8 = pos.to_u8();
    let value = fetch_value(cpu, dest);
    let value = set_bit(value, bit_pos);
    set_value(cpu, dest, value);
}

/// What `bit` does: the state `new` follows `old`.
pub open spec fn bit_done(new: CPU, old: CPU, pos: BitPos, src: BitDest) -> bool {
    &&& new.registers == (Registers {
            f: bit_flags_spec(target_value(old, src), pos.pos(), old.registers.f),
            ..old.registers
        })
    &&& new.after_ticks(old, if src == BitDest::HL { 1 } else { 0 })
    &&& new.memory_kept(old)
}

/// BIT b: Z is the complement of bit b, N cleared, H set, C kept.
pub fn bit(cpu: &mut CPU, pos: BitPos, src: BitDest)
    requires
        old(cpu).ready(),
    ensures
        bit_done(*final(cpu), *old(cpu), pos, src),
{
    let bit_pos: u8 = pos.to_u8();
    let value = fetch_value(cpu, src);
    cpu.registers.f = alu_bit(value, bit_pos, cpu.registers.f);
}

/// What `rlca` does: the state `new` follows `old`.
pub open spec fn rlca_done(new: CPU, old: CPU) -> bool {
    &&& ({
            let (res, f) = rotl_a_spec(old.registers.a, old.registers.f, false);
            a_done(new, old, res, f)
        })
}

pub fn rlca(cpu: &mut CPU)
    ensures
        rlca_done(*final(cpu), *old(cpu)),
{
    let (res, f) = alu_rotl_a(cpu.registers.a, cpu.registers.f, false);
    cpu.registers.a = res;
    cpu.registers.f = f;
}

/// What `rla` does: the state `new` follows `old`.
pub open spec fn rla_done(new: CPU, old: CPU) -> bool {
    &&& ({
            let (res, f) = rotl_a_spec(old.registers.a, old.registers.f, true);
            a_done(new, old, res, f)
        })
}

pub fn rla(cpu: &mut CPU)
    ensures
        rla_done(*final(cpu), *old(cpu)),
{
    let (res, f) = alu_rotl_a(cpu.registers.a, cpu.registers.f, true);
    cpu.registers.a = res;
    cpu.registers.f = f;
}

/// What `rrca` does: the state `new` follows `old`.
pub open spec fn rrca_done(new: CPU, old: CPU) -> bool {
    &&& ({
            let (res, f) = rotr_a_spec(old.registers.a, old.registers.f, false);
            a_done(new, old, res, f)
        })
}

pub fn rrca(cpu: &mut CPU)
    ensures
        rrca_done(*final(cpu), *old(cpu)),
{
    let (res, f) = alu_rotr_a(cpu.registers.a, cpu.registers.f, false);
    cpu.registers.a = res;
    cpu.registers.f = f;
}

/// What `rra` does: the state `new` follows `old`.
pub open spec fn rra_done(new: CPU, old: CPU) -> bool {
    &&& ({
            let (res, f) = rotr_a_spec(old.registers.a, old.registers.f, true);
            a_done(new, old, res, f)
        })
}

pub fn rra(cpu: &mut CPU)
    ensures
        rra_done(*final(cpu), *old(cpu)),
{
    let (res, f) = alu_rotr_a(cpu.registers.a, cpu.registers.f, true);
    cpu.registers.a = res;
    cpu.registers.f = f;
}

/// What `rlc` does: the state `new` follows `old`.
pub open spec fn rlc_done(new: CPU, old: CPU, dest: BitDest) -> bool {
    &&& ({
            let (res, f) = rotl_cb_spec(target_value(old, dest), old.registers.f, false);
            rmw_done(new, old, dest, res, f)
        })
}

pub fn rlc(cpu: &mut CPU, dest: BitDest)
    requires
        old(cpu).ready(),
    ensures
        rlc_done(*final(cpu), *old(cpu), dest),
{
    let v = fetch_value(cpu, dest);
    let (res, f) = alu_rotl(v, cpu.registers.f, false);
    cpu.registers.f = f;
    set_value(cpu, dest, res);
}

/// What `rl` does: the state `new` follows `old`.
pub open spec fn rl_done(new: CPU, old: CPU, dest: BitDest) -> bool {
    &&& ({
            let (res, f) = rotl_cb_spec(target_value(old, dest), old.registers.f, true);
            rmw_done(new, old, dest, res, f)
        })
}

pub fn rl(cpu: &mut CPU, dest: BitDest)
    requires
        old(cpu).ready(),
    ensures
        rl_done(*final(cpu), *old(cpu), dest),
{
    let v = fetch_value(cpu, dest);
    let (res, f) = alu_rotl(v, cpu.registers.f, true);
    cpu.registers.f = f;
    set_value(cpu, dest, res);
}

/// What `rrc` does: the state `new` follows `old`.
pub open spec fn rrc_done(new: CPU, old: CPU, dest: BitDest) -> bool {
    &&& ({
            let (res, f) = rotr_cb_spec(target_value(old, dest), old.registers.f, false);
            rmw_done(new, old, dest, res, f)
        })
}

pub fn rrc(cpu: &mut CPU, dest: BitDest)
    requires
        old(cpu).ready(),
    ensures
        rrc_done(*final(cpu), *old(cpu), dest),
{
    let v = fetch_value(cpu, dest);
    let (res, f) = alu_rotr(v, cpu.registers.f, false);
    cpu.registers.f = f;
    set_value(cpu, dest, res);
}

/// What `rr` does: the state `new` follows `old`.
pub open spec fn rr_done(new: CPU, old: CPU, dest: BitDest) -> bool {
    &&& ({
            let (res, f) = rotr_cb_spec(target_value(old, dest), old.registers.f, true);
            rmw_done(new, old, dest, res, f)
        })
}

pub fn rr(cpu: &mut CPU, dest: BitDest)
    requires
        old(cpu).ready(),
    ensures
        rr_done(*final(cpu), *old(cpu), dest),
{
    let v = fetch_value(cpu, dest);
    let (res, f) = alu_rotr(v, cpu.registers.f, true);
    cpu.registers.f = f;
    set_value(cpu, dest, res);
}

/// What `sla` does: the state `new` follows `old`.
pub open spec fn sla_done(new: CPU, old: CPU, dest: BitDest) -> bool {
    &&& ({
            let (res, f) = sla_spec(target_value(old, dest));
            rmw_done(new, old, dest, res, f)
        })
}

pub fn sla(cpu: &mut CPU, dest: BitDest)
    requires
        old(cpu).ready(),
    ensures
        sla_done(*final(cpu), *old(cpu), dest),
{
    let v = fetch_value(cpu, dest);
    let (res, f) = alu_sla(v);
    cpu.registers.f = f;
    set_value(cpu, dest, res);
}

/// What `sra` does: the state `new` follows `old`.
pub open spec fn sra_done(new: CPU, old: CPU, dest: BitDest) -> bool {
    &&& ({
            let (res, f) = sra_spec(target_value(old, dest));
            rmw_done(new, old, dest, res, f)
        })
}

pub fn sra(cpu: &mut CPU, dest: BitDest)
    requires
        old(cpu).ready(),
    ensures
        sra_done(*final(cpu), *old(cpu), dest),
{
    let v = fetch_value(cpu, dest);
    let (res, f) = alu_sra(v);
    cpu.registers.f = f;
    set_value(cpu, dest, res);
}

/// What `swap` does: the state `new` follows `old`.
pub open spec fn swap_done(new: CPU, old: CPU, dest: BitDest) -> bool {
    &&& ({
            let (res, f) = swap_flags_spec(target_value(old, dest));
            rmw_done(new, old, dest, res, f)
        })
}

pub fn swap(cpu: &mut CPU, dest: BitDest)
    requires
        old(cpu).ready(),
    ensures
        swap_done(*final(cpu), *old(cpu), dest),
{
    let v = fetch_value(cpu, dest);
    let (res, f) = alu_swap(v);
    cpu.registers.f = f;
    set_value(cpu, dest, res);
}

/// What `srl` does: the state `new` follows `old`.
pub open spec fn srl_done(new: CPU, old: CPU, dest: BitDest) -> bool {
    &&& ({
            let (res, f) = srl_spec(target_value(old, dest));
            rmw_done(new, old, dest, res, f)
        })
}

pub fn srl(cpu: &mut CPU, dest: BitDest)
    requires
        old(cpu).ready(),
    ensures
        srl_done(*final(cpu), *old(cpu), dest),
{
    let v = fetch_value(cpu, dest);
    let (res, f) = alu_srl(v);
    cpu.registers.f = f;
    set_value(cpu, dest, res);
}

} // verus!

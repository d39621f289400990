use vstd::prelude::*;

use crate::bus::{is_stable, lemma_stable_read, Bus};
use crate::cpu::alu::signed8;
use crate::cpu::opcodes::{JumpCondition, RSTTarget};
use crate::cpu::registers::flags::Flags;
use crate::cpu::registers::{Reg16, Registers};
use crate::cpu::{ram_after_write, word_read, wrap16, CPU};

verus! {

pub open spec fn cond_holds(f: Flags, c: JumpCondition) -> bool {
    match c {
        JumpCondition::NIL => true,
        JumpCondition::Z => f.zero,
        JumpCondition::C => f.carry,
        JumpCondition::NZ => !f.zero,
        JumpCondition::NC => !f.carry,
    }
}

/// Work and high RAM after the return address `ret` was pushed below `sp`.
pub open spec fn pushed(old: CPU, ret: u16) -> (Seq<u8>, Seq<u8>) {
    let sp = old.registers.sp;
    let (w1, h1) = ram_after_write(old.bus.wram@, old.bus.hram@, wrap16(sp - 1), (ret / 256) as u8);
    ram_after_write(w1, h1, wrap16(sp - 2), (ret % 256) as u8)
}

/// `w` is the little-endian word at `addr`, read after some ticks: each of
/// its bytes is the one the bus showed where that address is stable.
pub open spec fn word_read_late(w: u16, bus: Bus, addr: u16) -> bool {
    &&& is_stable(addr) ==> w % 256 == bus.read_spec(addr)
    &&& is_stable(wrap16(addr + 1)) ==> w / 256 == bus.read_spec(wrap16(addr + 1))
}

fn to_jump(f: &Flags, c: JumpCondition) -> (r: bool)
    ensures
        r == cond_holds(*f, c),
{
    match c {
        JumpCondition::NIL => true,
        JumpCondition::Z => f.zero,
        JumpCondition::C => f.carry,
        JumpCondition::NZ => !f.zero,
        JumpCondition::NC => !f.carry,
    }
}

/// What `call` does: the state `new` follows `old`.
pub open spec fn call_done(new: CPU, old: CPU, flag: JumpCondition) -> bool {
    &&& (cond_holds(old.registers.f, flag) ==> {
            &&& word_read(new.registers.pc, old.bus, old.registers.pc)
            &&& new.registers == (Registers {
                pc: new.registers.pc,
                sp: wrap16(old.registers.sp - 2),
                ..old.registers
            })
            &&& new.after_ticks(old, 5)
            &&& (new.bus.wram@, new.bus.hram@) == pushed(
                old,
                wrap16(old.registers.pc + 2),
            )
        })
    &&& (!cond_holds(old.registers.f, flag) ==> {
            &&& new.registers == (Registers {
                pc: wrap16(old.registers.pc + 2),
                ..old.registers
            })
            &&& new.after_ticks(old, 2)
            &&& new.memory_kept(old)
        })
}

/// CALL cc, a16: when taken, pushes the address after the instruction and
/// jumps; three more m-cycles than when not taken.
pub fn call(cpu: &mut CPU, flag: JumpCondition)
    requires
        old(cpu).ready(),
    ensures
        call_done(*final(cpu), *old(cpu), flag),
{
    let addr = cpu.fetch_word();
    if to_jump(&cpu.registers.f, flag) {
        cpu.tick();
        cpu.push_word(cpu.registers.pc);
        cpu.registers.pc = addr;
    }
}

/// What `jp` does: the state `new` follows `old`.
pub open spec fn jp_done(new: CPU, old: CPU, flag: JumpCondition) -> bool {
    &&& (cond_holds(old.registers.f, flag) ==> {
            &&& word_read(new.registers.pc, old.bus, old.registers.pc)
            &&& new.registers == (Registers { pc: new.registers.pc, ..old.registers })
            &&& new.after_ticks(old, 3)
        })
    &&& (!cond_holds(old.registers.f, flag) ==> {
            &&& new.registers == (Registers {
                pc: wrap16(old.registers.pc + 2),
                ..old.registers
            })
            &&& new.after_ticks(old, 2)
        })
    &&& new.memory_kept(old)
}

/// JP cc, a16: one more m-cycle when taken.
pub fn jp(cpu: &mut CPU, flag: JumpCondition)
    requires
        old(cpu).ready(),
    ensures
        jp_done(*final(cpu), *old(cpu), flag),
{
    let addr = cpu.fetch_word();
    if to_jump(&cpu.registers.f, flag) {
        cpu.tick();
        cpu.registers.pc = addr;
    }
}

/// What `jr` does: the state `new` follows `old`.
pub open spec fn jr_done(new: CPU, old: CPU, flag: JumpCondition) -> bool {
    &&& ({
            let next = old.registers.pc + 1;
            let e = old.bus.read_spec(old.registers.pc);
            if cond_holds(old.registers.f, flag) {
                &&& new.registers == (Registers {
                    pc: wrap16(next + signed8(e)),
                    ..old.registers
                })
                &&& new.after_ticks(old, 2)
            } else {
                &&& new.registers == (Registers { pc: wrap16(next), ..old.registers })
                &&& new.after_ticks(old, 1)
            }
        })
    &&& new.memory_kept(old)
}

/// JR cc, e8: the signed offset is added to the PC after the offset byte.
pub fn jr(cpu: &mut CPU, flag: JumpCondition)
    requires
        old(cpu).ready(),
    ensures
        jr_done(*final(cpu), *old(cpu), flag),
{
    let s8 = cpu.fetch_byte();
    if to_jump(&cpu.registers.f, flag) {
        cpu.tick();
        let pc = cpu.registers.pc;
        if s8 < 128 {
            cpu.registers.pc = pc.wrapping_add(s8 as u16);
        } else {
            cpu.registers.pc = pc.wrapping_sub((256 - s8 as u16) as u16);
        }
    }
}

/// What `ret` does: the state `new` follows `old`.
pub open spec fn ret_done(new: CPU, old: CPU, flag: JumpCondition) -> bool {
    &&& (cond_holds(old.registers.f, flag) ==> {
            &&& flag == JumpCondition::NIL ==> word_read(
                new.registers.pc,
                old.bus,
                old.registers.sp,
            )
            &&& word_read_late(new.registers.pc, old.bus, old.registers.sp)
            &&& new.registers == (Registers {
                pc: new.registers.pc,
                sp: wrap16(old.registers.sp + 2),
                ..old.registers
            })
            &&& new.after_ticks(old, if flag == JumpCondition::NIL { 3 } else { 4 })
        })
    &&& (!cond_holds(old.registers.f, flag) ==> {
            &&& new.registers == old.registers
            &&& new.after_ticks(old, 1)
        })
    &&& new.memory_kept(old)
}

/// RET cc: pops the return address. The conditional forms spend one m-cycle
/// on the test; the taken return then takes three more.
pub fn ret(cpu: &mut CPU, flag: JumpCondition)
    requires
        old(cpu).ready(),
    ensures
        ret_done(*final(cpu), *old(cpu), flag),
{
    if flag == JumpCondition::NIL {
        let addr = cpu.pop_word();
        cpu.tick();
        cpu.registers.pc = addr;
    } else {
        let taken = to_jump(&cpu.registers.f, flag);
        cpu.tick();
        if taken {
            let ghost before = *cpu;
            let addr = cpu.pop_word();
            cpu.tick();
            cpu.registers.pc = addr;
            proof {
                let sp = old(cpu).registers.sp;
                if is_stable(sp) {
                    lemma_stable_read(old(cpu).bus, before.bus, sp);
                }
                if is_stable(wrap16(sp + 1)) {
                    lemma_stable_read(old(cpu).bus, before.bus, wrap16(sp + 1));
                }
            }
        }
    }
}

/// What `reti` does: the state `new` follows `old`.
pub open spec fn reti_done(new: CPU, old: CPU) -> bool {
    &&& word_read(new.registers.pc, old.bus, old.registers.sp)
    &&& new.registers == (Registers {
            pc: new.registers.pc,
            sp: wrap16(old.registers.sp + 2),
            ..old.registers
        })
    &&& new.ime
    &&& new.cycles == old.cycles + 12
    &&& new.halted == old.halted
    &&& !new.enable_ime_next_cycle
    &&& new.wf()
    &&& new.memory_kept(old)
}

/// RETI: RET, and IME is set at once.
pub fn reti(cpu: &mut CPU)
    requires
        old(cpu).ready(),
    ensures
        reti_done(*final(cpu), *old(cpu)),
{
    ret(cpu, JumpCondition::NIL);
    cpu.ime = true;
}

/// What `jp_hl` does: the state `new` follows `old`.
pub open spec fn jp_hl_done(new: CPU, old: CPU) -> bool {
    &&& new.registers == (Registers {
            pc: old.registers.pair(Reg16::HL),
            ..old.registers
        })
    &&& new.bus == old.bus
    &&& new.cycles == old.cycles
    &&& new.ime == old.ime
    &&& new.halted == old.halted
    &&& new.enable_ime_next_cycle == old.enable_ime_next_cycle
}

/// JP HL: no extra m-cycle.
pub fn jp_hl(cpu: &mut CPU)
    ensures
        jp_hl_done(*final(cpu), *old(cpu)),
{
    let addr = cpu.registers.get_reg_pair(Reg16::HL);
    cpu.registers.pc = addr;
}

/// What `rst` does: the state `new` follows `old`.
pub open spec fn rst_done(new: CPU, old: CPU, target: RSTTarget) -> bool {
    &&& new.registers == (Registers {
            pc: target.address(),
            sp: wrap16(old.registers.sp - 2),
            ..old.registers
        })
    &&& new.after_ticks(old, 3)
    &&& (new.bus.wram@, new.bus.hram@) == pushed(old, old.registers.pc)
    &&& new.bus.cartridge == old.bus.cartridge
}

/// RST n: pushes the PC and jumps to the fixed address.
pub fn rst(cpu: &mut CPU, target: RSTTarget)
    requires
        old(cpu).ready(),
    ensures
        rst_done(*final(cpu), *old(cpu), target),
{
    let addr = target.to_address();
    cpu.tick();
    cpu.push_word(cpu.registers.pc);
    cpu.registers.pc = addr;
}

} // verus!

use vstd::prelude::*;

use crate::cpu::alu::{add_sp_spec, alu_add_sp};
use crate::cpu::opcodes::{Load16Dest, Load16Src};
use crate::cpu::registers::{Reg16, Registers};
use crate::cpu::{word_read, wrap16, CPU};

verus! {

/// The register pair that a 16-bit load destination names.
pub open spec fn pair_of(d: Load16Dest) -> Reg16 {
    match d {
        Load16Dest::BC => Reg16::BC,
        Load16Dest::DE => Reg16::DE,
        Load16Dest::HL => Reg16::HL,
        Load16Dest::SP => Reg16::SP,
        _ => Reg16::AF,
    }
}

fn to_pair(d: Load16Dest) -> (r: Reg16)
    ensures
        r == pair_of(d),
{
    match d {
        Load16Dest::BC => Reg16::BC,
        Load16Dest::DE => Reg16::DE,
        Load16Dest::HL => Reg16::HL,
        Load16Dest::SP => Reg16::SP,
        _ => Reg16::AF,
    }
}

/// m-cycles of a 16-bit load after its opcode.
pub open spec fn ld16_cost(dest: Load16Dest, src: Load16Src) -> int {
    let s = match src {
        Load16Src::Direct16Bit | Load16Src::SPr8 => 2,
        Load16Src::HL => if dest == Load16Dest::SP { 1int } else { 0 },
        Load16Src::SP => 0,
    };
    let d = if dest == Load16Dest::Addr16Bit { 4int } else { 0 };
    s + d
}

/// What `ld` does: the state `new` follows `old`.
pub open spec fn ld_done(new: CPU, old: CPU, dest: Load16Dest, src: Load16Src) -> bool {
    &&& new.after_ticks(old, ld16_cost(dest, src))
    &&& (dest != Load16Dest::Addr16Bit ==> new.memory_kept(old))
    &&& ({
            let r = old.registers;
            let e = old.bus.read_spec(r.pc);
            let (sum, f) = add_sp_spec(r.sp, e);
            dest != Load16Dest::Addr16Bit ==> match src {
                Load16Src::Direct16Bit => {
                    let w = new.registers.pair(pair_of(dest));
                    &&& word_read(w, old.bus, r.pc)
                    &&& new.registers == (Registers { pc: wrap16(r.pc + 2), ..r }).with_pair(pair_of(dest), w)
                },
                Load16Src::SP => new.registers == r.with_pair(pair_of(dest), r.sp),
                Load16Src::HL => new.registers == r.with_pair(pair_of(dest), r.pair(Reg16::HL)),
                Load16Src::SPr8 => new.registers == (Registers {
                    pc: wrap16(r.pc + 1),
                    f,
                    ..r
                }).with_pair(pair_of(dest), sum),
            }
        })
}

/// LD rr, d16 / LD SP, HL / LD HL, SP+e8 / LD (a16), SP.
pub fn ld(cpu: &mut CPU, dest: Load16Dest, src: Load16Src)
    requires
        old(cpu).ready(),
        dest != Load16Dest::AF,
    ensures
        ld_done(*final(cpu), *old(cpu), dest, src),
{
    let res = match src {
        Load16Src::Direct16Bit => cpu.fetch_word(),
        Load16Src::SP => cpu.registers.sp,
        Load16Src::HL => cpu.registers.get_reg_pair(Reg16::HL),
        Load16Src::SPr8 => {
            let e = cpu.fetch_byte();
            let (sum, f) = alu_add_sp(cpu.registers.sp, e);
            cpu.registers.f = f;
            cpu.tick();
            sum
        },
    };
    if dest == Load16Dest::Addr16Bit {
        let addr = cpu.fetch_word();
        cpu.write_word(addr, res);
    } else {
        if dest == Load16Dest::SP && src == Load16Src::HL {
            cpu.tick();
        }
        cpu.registers.set_reg_pair(res, to_pair(dest));
    }
}

/// What `pop` does: the state `new` follows `old`.
pub open spec fn pop_done(new: CPU, old: CPU, dest: Load16Dest) -> bool {
    &&& exists|w: u16|
            word_read(w, old.bus, old.registers.sp) && new.registers == (
            Registers { sp: wrap16(old.registers.sp + 2), ..old.registers }).with_pair(
                pair_of(dest),
                w,
            )
    &&& new.after_ticks(old, 2)
    &&& new.memory_kept(old)
}

/// POP rr: low byte first; a pop into AF clears the low nibble of F.
pub fn pop(cpu: &mut CPU, dest: Load16Dest)
    requires
        old(cpu).ready(),
        dest != Load16Dest::Addr16Bit && dest != Load16Dest::SP,
    ensures
        pop_done(*final(cpu), *old(cpu), dest),
{
    let word = cpu.pop_word();
    cpu.registers.set_reg_pair(word, to_pair(dest));
}

/// What `push` does: the state `new` follows `old`.
pub open spec fn push_done(new: CPU, old: CPU, dest: Load16Dest) -> bool {
    &&& new.registers == (Registers {
            sp: wrap16(old.registers.sp - 2),
            ..old.registers
        })
    &&& new.after_ticks(old, 3)
    &&& (new.bus.wram@, new.bus.hram@) == crate::cpu::jump_handlers::pushed(
            old,
            old.registers.pair(pair_of(dest)),
        )
    &&& new.bus.cartridge == old.bus.cartridge
}

/// PUSH rr: one internal m-cycle, then the high byte and the low byte.
pub fn push(cpu: &mut CPU, dest: Load16Dest)
    requires
        old(cpu).ready(),
        dest != Load16Dest::Addr16Bit && dest != Load16Dest::SP,
    ensures
        push_done(*final(cpu), *old(cpu), dest),
{
    let word = cpu.registers.get_reg_pair(to_pair(dest));
    cpu.tick();
    cpu.push_word(word);
}

} // verus!

use vstd::prelude::*;

use crate::cpu::CPU;

verus! {

/// The registers, the bus and the cycle counter are unchanged.
pub open spec fn unchanged_but(new: CPU, old: CPU) -> bool {
    &&& new.registers == old.registers
    &&& new.bus == old.bus
    &&& new.cycles == old.cycles
}

/// What `nop` does: the state `new` follows `old`.
pub open spec fn nop_done(new: CPU, old: CPU) -> bool {
    &&& new == old
}

pub fn nop(_cpu: &mut CPU)
    ensures
        nop_done(*final(_cpu), *old(_cpu)),
{
}

/// What `di` does: the state `new` follows `old`.
pub open spec fn di_done(new: CPU, old: CPU) -> bool {
    &&& unchanged_but(new, old)
    &&& !new.ime
    &&& new.halted == old.halted
    &&& new.enable_ime_next_cycle == old.enable_ime_next_cycle
}

/// DI: IME is cleared at once.
pub fn di(cpu: &mut CPU)
    ensures
        di_done(*final(cpu), *old(cpu)),
{
    cpu.ime = false;
}

/// What `ei` does: the state `new` follows `old`.
pub open spec fn ei_done(new: CPU, old: CPU) -> bool {
    &&& unchanged_but(new, old)
    &&& new.enable_ime_next_cycle
    &&& new.ime == old.ime
    &&& new.halted == old.halted
}

/// EI: IME is set after the next instruction.
pub fn ei(cpu: &mut CPU)
    ensures
        ei_done(*final(cpu), *old(cpu)),
{
    cpu.enable_ime_next_cycle = true;
}

/// What `stop` does: the state `new` follows `old`.
pub open spec fn stop_done(new: CPU, old: CPU) -> bool {
    &&& new == old
}

/// STOP: a NOP that takes only its opcode's m-cycle.
pub fn stop(cpu: &mut CPU)
    ensures
        stop_done(*final(cpu), *old(cpu)),
{
}

/// What `halt` does: the state `new` follows `old`.
pub open spec fn halt_done(new: CPU, old: CPU) -> bool {
    &&& unchanged_but(new, old)
    &&& new.halted
    &&& new.ime == old.ime
    &&& new.enable_ime_next_cycle == old.enable_ime_next_cycle
}

/// HALT: the CPU waits for a pending interrupt.
pub fn halt(cpu: &mut CPU)
    ensures
        halt_done(*final(cpu), *old(cpu)),
{
    cpu.halted = true;
}

} // verus!

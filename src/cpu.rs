use vstd::prelude::*;

use crate::bus::{is_plain, is_stable, lemma_stable_read, Bus};
pub use crate::bus::ram_after_write;
use crate::interrupt::{first_pending, is_pending, Interrupts};
use crate::utils::{bit8, word_to_bytes};

use self::operation::{
    block_operation, cb_operation, executes, is_executable, is_illegal, quadrant_decodes, Operation,
};
use self::registers::Registers;

pub mod alu;
pub mod alu8_handlers;
pub mod bit_handlers;
pub mod jump_handlers;
pub mod load8_handlers;
pub mod load16_handlers;
pub mod alu16_handlers;
pub mod misc_handlers;
pub mod opcodes;
pub mod operation;
pub mod registers;

verus! {

/// The largest cycle count at which a step may start: a step takes at most
/// 24 t-cycles, so the counter never overflows.
pub const CYCLE_LIMIT: u64 = 0xFFFF_FFFF_FFFF_0000;

/// The CPU with the bus it drives.
pub struct CPU {
    pub registers: Registers,
    pub bus: Bus,
    /// t-cycles since power-on.
    pub cycles: u64,
    pub ime: bool,
    pub halted: bool,
    /// EI was executed: IME is set at the next m-cycle.
    pub enable_ime_next_cycle: bool,
}

/// The length of one m-cycle in t-cycles.
#[derive(Copy, Clone, Debug, PartialEq, Eq, Structural)]
pub enum Cycles {
    N4,
}

impl Cycles {
    pub fn t_cycles(&self) -> (r: u64)
        ensures
            r == 4,
    {
        4
    }
}

/// An opcode that no instruction has.
#[derive(Copy, Clone, Debug, PartialEq, Eq, Structural)]
pub struct DecodeError {
    pub opcode: u8,
    pub prefixed: bool,
}

/// The word `w + n` wrapped to 16 bits.
pub open spec fn wrap16(w: int) -> u16 {
    ((w + 0x10000) % 0x10000) as u16
}

impl CPU {
    pub open spec fn wf(self) -> bool {
        self.bus.wf()
    }

    /// Well formed, with room in the cycle counter for the rest of a step.
    pub open spec fn ready(self) -> bool {
        self.wf() && self.cycles <= CYCLE_LIMIT + 8
    }

    /// `self` follows `old` after `n` m-cycles of ticking: the counter moved
    /// and a pending EI took effect.
    pub open spec fn after_ticks(self, old: CPU, n: int) -> bool {
        &&& self.wf()
        &&& self.cycles == old.cycles + 4 * n
        &&& self.halted == old.halted
        &&& self.ime == (if n > 0 && old.enable_ime_next_cycle {
            true
        } else {
            old.ime
        })
        &&& self.enable_ime_next_cycle == (old.enable_ime_next_cycle && n == 0)
    }

    /// The memory that ticks leave alone is unchanged.
    pub open spec fn memory_kept(self, old: CPU) -> bool {
        self.bus.same_memory(old.bus)
    }

    /// The memory that keeps its contents across ticks holds what `old` held
    /// after a write of `v` to `addr`: work RAM, high RAM, VRAM, the unmapped
    /// bytes and IE; a write to 0xFF46 has started a DMA from page `v`.
    pub open spec fn ram_written(self, old: CPU, addr: u16, v: u8) -> bool {
        &&& (self.bus.wram@, self.bus.hram@) == ram_after_write(old.bus.wram@, old.bus.hram@, addr, v)
        &&& self.bus.cartridge == old.bus.cartridge
        &&& self.bus.ppu.vram@ == (if 0x8000 <= addr <= 0x9FFF {
            old.bus.ppu.vram@.update(addr - 0x8000, v)
        } else {
            old.bus.ppu.vram@
        })
        &&& self.bus.memory@ == (if is_plain(addr) {
            old.bus.memory@.update(addr as int, v)
        } else {
            old.bus.memory@
        })
        &&& self.bus.interrupts.enable == (if addr == 0xFFFF {
            v
        } else {
            old.bus.interrupts.enable
        })
        &&& addr == 0xFF46 ==> self.bus.ppu.dma == v && self.bus.ppu.dma_mode
    }

    pub fn new(bus: Bus) -> (r: Self)
        requires
            bus.wf(),
        ensures
            r.wf(),
            r.registers == Registers::new_spec(),
            r.bus == bus,
            r.cycles == 0,
            !r.ime && !r.halted && !r.enable_ime_next_cycle,
    {
        CPU {
            registers: Registers::new(),
            bus,
            cycles: 0,
            ime: false,
            halted: false,
            enable_ime_next_cycle: false,
        }
    }

    /// Some interrupt is enabled and requested.
    pub fn has_interrupt(&self) -> (r: bool)
        ensures
            r == is_pending(self.bus.interrupts.enable, self.bus.interrupts.flag),
    {
        self.bus.interrupts.pending_interrupt()
    }

    /// One m-cycle: the bus, timer and PPU advance, and a pending EI takes effect.
    pub fn tick(&mut self)
        requires
            old(self).wf(),
            old(self).cycles <= u64::MAX - 4,
        ensures
            final(self).after_ticks(*old(self), 1),
            final(self).memory_kept(*old(self)),
            final(self).bus.dma_ticked(old(self).bus),
            final(self).registers == old(self).registers,
    {
        self.add_cycles(Cycles::N4);
        self.bus.tick();
        if self.enable_ime_next_cycle {
            self.ime = true;
            self.enable_ime_next_cycle = false;
        }
    }

    fn add_cycles(&mut self, n_cycles: Cycles)
        requires
            old(self).cycles <= u64::MAX - 4,
        ensures
            final(self).cycles == old(self).cycles + 4,
            final(self).registers == old(self).registers,
            final(self).bus == old(self).bus,
            final(self).ime == old(self).ime,
            final(self).halted == old(self).halted,
            final(self).enable_ime_next_cycle == old(self).enable_ime_next_cycle,
    {
        self.cycles = self.cycles + n_cycles.t_cycles();
    }

    /// Reads the byte at PC and moves PC past it: one m-cycle.
    pub fn fetch_byte(&mut self) -> (r: u8)
        requires
            old(self).wf(),
            old(self).cycles <= u64::MAX - 4,
        ensures
            r == old(self).bus.read_spec(old(self).registers.pc),
            final(self).registers == (Registers {
                pc: wrap16(old(self).registers.pc + 1),
                ..old(self).registers
            }),
            final(self).after_ticks(*old(self), 1),
            final(self).memory_kept(*old(self)),
    {
        let byte = self.bus.read(self.registers.pc);
        self.registers.pc = self.registers.pc.wrapping_add(1);
        self.tick();
        byte
    }

    /// Reads a byte from the bus: one m-cycle.
    pub fn read_byte_bus(&mut self, addr: u16) -> (r: u8)
        requires
            old(self).wf(),
            old(self).cycles <= u64::MAX - 4,
        ensures
            r == old(self).bus.read_spec(addr),
            final(self).registers == old(self).registers,
            final(self).after_ticks(*old(self), 1),
            final(self).memory_kept(*old(self)),
    {
        let byte = self.bus.read(addr);
        self.tick();
        byte
    }

    /// Writes a byte to the bus: one m-cycle.
    pub fn write_byte(&mut self, addr: u16, byte: u8)
        requires
            old(self).wf(),
            old(self).cycles <= u64::MAX - 4,
        ensures
            final(self).registers == old(self).registers,
            final(self).after_ticks(*old(self), 1),
            final(self).ram_written(*old(self), addr, byte),
    {
        self.bus.write(addr, byte);
        self.tick();
    }

    /// Writes a word, low byte first: two m-cycles.
    pub fn write_word(&mut self, addr: u16, word: u16)
        requires
            old(self).wf(),
            old(self).cycles <= u64::MAX - 8,
        ensures
            final(self).registers == old(self).registers,
            final(self).after_ticks(*old(self), 2),
            ({
                let (w1, h1) = ram_after_write(
                    old(self).bus.wram@,
                    old(self).bus.hram@,
                    addr,
                    (word % 256) as u8,
                );
                (final(self).bus.wram@, final(self).bus.hram@) == ram_after_write(
                    w1,
                    h1,
                    wrap16(addr + 1),
                    (word / 256) as u8,
                )
            }),
            final(self).bus.cartridge == old(self).bus.cartridge,
    {
        let (hi, lo) = word_to_bytes(word);
        self.write_byte(addr, lo);
        self.write_byte(addr.wrapping_add(1), hi);
    }

    /// Pushes a word on the stack, high byte first, each byte one m-cycle.
    pub fn push_word(&mut self, word: u16)
        requires
            old(self).wf(),
            old(self).cycles <= u64::MAX - 8,
        ensures
            final(self).registers == (Registers {
                sp: wrap16(old(self).registers.sp - 2),
                ..old(self).registers
            }),
            final(self).after_ticks(*old(self), 2),
            ({
                let (w1, h1) = ram_after_write(
                    old(self).bus.wram@,
                    old(self).bus.hram@,
                    wrap16(old(self).registers.sp - 1),
                    (word / 256) as u8,
                );
                (final(self).bus.wram@, final(self).bus.hram@) == ram_after_write(
                    w1,
                    h1,
                    wrap16(old(self).registers.sp - 2),
                    (word % 256) as u8,
                )
            }),
            final(self).bus.cartridge == old(self).bus.cartridge,
    {
        let (hi, lo) = word_to_bytes(word);
        self.registers.sp = self.registers.sp.wrapping_sub(1);
        self.write_byte(self.registers.sp, hi);
        self.registers.sp = self.registers.sp.wrapping_sub(1);
        self.write_byte(self.registers.sp, lo);
    }

    /// Pops a word from the stack, low byte first, each byte one m-cycle.
    pub fn pop_word(&mut self) -> (r: u16)
        requires
            old(self).wf(),
            old(self).cycles <= u64::MAX - 8,
        ensures
            word_read(r, old(self).bus, old(self).registers.sp),
            final(self).registers == (Registers {
                sp: wrap16(old(self).registers.sp + 2),
                ..old(self).registers
            }),
            final(self).after_ticks(*old(self), 2),
            final(self).memory_kept(*old(self)),
    {
        let lo = self.read_byte_bus(self.registers.sp);
        self.registers.sp = self.registers.sp.wrapping_add(1);
        let ghost mid = *self;
        let hi = self.read_byte_bus(self.registers.sp);
        self.registers.sp = self.registers.sp.wrapping_add(1);
        proof {
            if is_stable(wrap16(old(self).registers.sp + 1)) {
                lemma_stable_read(old(self).bus, mid.bus, wrap16(old(self).registers.sp + 1));
            }
        }
        crate::utils::le_bytes_to_word(lo, hi)
    }

    /// Reads the little-endian word at PC and moves PC past it: two m-cycles.
    /// The high byte is read one m-cycle later, so only a stable address is
    /// sure to give the byte it held at the start.
    pub fn fetch_word(&mut self) -> (r: u16)
        requires
            old(self).wf(),
            old(self).cycles <= u64::MAX - 8,
        ensures
            word_read(r, old(self).bus, old(self).registers.pc),
            final(self).registers == (Registers {
                pc: wrap16(old(self).registers.pc + 2),
                ..old(self).registers
            }),
            final(self).after_ticks(*old(self), 2),
            final(self).memory_kept(*old(self)),
    {
        let lo = self.fetch_byte();
        let ghost mid = *self;
        let hi = self.fetch_byte();
        proof {
            if is_stable(wrap16(old(self).registers.pc + 1)) {
                lemma_stable_read(old(self).bus, mid.bus, wrap16(old(self).registers.pc + 1));
            }
        }
        crate::utils::le_bytes_to_word(lo, hi)
    }

    /// Serves the highest-priority pending interrupt: two m-cycles of latency,
    /// the PC pushed high byte first, the vector loaded, the IF bit cleared,
    /// and one final m-cycle.
    fn handle_interrupt(&mut self)
        requires
            old(self).wf(),
            old(self).cycles <= CYCLE_LIMIT,
            is_pending(old(self).bus.interrupts.enable, old(self).bus.interrupts.flag),
        ensures
            ({
                let it = first_pending(old(self).bus.interrupts.enable, old(self).bus.interrupts.flag);
                &&& final(self).registers == (Registers {
                    pc: it.vector(),
                    sp: wrap16(old(self).registers.sp - 2),
                    ..old(self).registers
                })
                &&& !bit8(final(self).bus.interrupts.flag, it.bit())
            }),
            (final(self).bus.wram@, final(self).bus.hram@) == jump_handlers::pushed(
                *old(self),
                old(self).registers.pc,
            ),
            final(self).wf(),
            final(self).cycles == old(self).cycles + 20,
            final(self).halted == old(self).halted,
            final(self).bus.cartridge == old(self).bus.cartridge,
    {
        let it_type = Interrupts::interrupt_type(
            self.bus.interrupts.enable,
            self.bus.interrupts.flag,
        );
        let address = Interrupts::interrupt_addr(it_type);
        self.tick();
        self.tick();
        self.push_word(self.registers.pc);
        self.registers.pc = address;
        self.tick();
        self.bus.interrupts.reset_interrupt(it_type);
    }

    /// Fetches, decodes and runs one instruction; an opcode without an
    /// instruction is an error.
    fn execute(&mut self) -> (r: Result<(), DecodeError>)
        requires
            old(self).wf(),
            old(self).cycles <= CYCLE_LIMIT,
        ensures
            final(self).wf(),
            old(self).cycles + 4 <= final(self).cycles <= old(self).cycles + 32,
            r.is_err() <==> is_illegal(old(self).bus.read_spec(old(self).registers.pc)),
            r.is_err() ==> r == Err::<(), DecodeError>(
                DecodeError { opcode: old(self).bus.read_spec(old(self).registers.pc), prefixed: false },
            ),
            r.is_ok() ==> runs_instruction(*final(self), *old(self)),
    {
        let first = self.fetch_byte();
        let prefixed = Operation::is_prefix(first);
        let ghost after_first = *self;
        let opcode = if prefixed {
            self.fetch_byte()
        } else {
            first
        };
        proof {
            if prefixed && is_stable(wrap16(old(self).registers.pc + 1)) {
                lemma_stable_read(old(self).bus, after_first.bus, wrap16(old(self).registers.pc + 1));
            }
        }
        match Operation::get_operation(opcode, prefixed) {
            Some(op) => {
                let ghost mid = *self;
                Operation::execute(self, op);
                assert(executes(*self, mid, op));
                Ok(())
            },
            None => Err(DecodeError { opcode, prefixed }),
        }
    }

    /// One step: a halted CPU without a pending interrupt waits one m-cycle;
    /// a pending interrupt wakes it, and is served when IME is set; else one
    /// instruction runs. Returns the t-cycles spent.
    pub fn step(&mut self) -> (r: Result<u64, DecodeError>)
        requires
            old(self).wf(),
            old(self).cycles <= CYCLE_LIMIT,
        ensures
            final(self).wf(),
            old(self).cycles + 4 <= final(self).cycles <= old(self).cycles + 32,
            r.is_ok() ==> r.unwrap() == final(self).cycles - old(self).cycles,
            stepped(*final(self), *old(self), r),
    {
        let cur_cycles = self.cycles;
        if self.halted && !self.has_interrupt() {
            self.tick();
            return Ok(self.cycles - cur_cycles);
        }
        if self.has_interrupt() {
            self.halted = false;
        }
        if self.ime && self.has_interrupt() {
            self.handle_interrupt();
            self.ime = false;
            self.enable_ime_next_cycle = false;
            self.halted = false;
        } else {
            match self.execute() {
                Ok(()) => {},
                Err(e) => {
                    return Err(e);
                },
            }
        }
        Ok(self.cycles - cur_cycles)
    }
}

/// What the decoder is stated to give for an unprefixed opcode: the
/// register loads and accumulator blocks and the regular columns of the
/// other quadrants by their bit fields, HALT and NOP.
pub open spec fn decodes_to(opcode: u8, op: Operation) -> bool {
    &&& quadrant_decodes(opcode, op)
    &&& 0x40 <= opcode < 0xC0 && opcode != 0x76 ==> op == block_operation(opcode)
    &&& opcode == 0x76 ==> op == Operation::Misc(opcodes::MiscOp::HALT)
    &&& opcode == 0x00 ==> op == Operation::Misc(opcodes::MiscOp::NOP)
}

/// `new` follows `old` by one instruction: the opcode (and the CB byte) were
/// fetched, then a decoded instruction ran as its handler states.
pub open spec fn runs_instruction(new: CPU, old: CPU) -> bool {
    let pc = old.registers.pc;
    let opcode = old.bus.read_spec(pc);
    exists|mid: CPU, op: Operation|
        {
            &&& is_executable(op)
            &&& #[trigger] executes(new, mid, op)
            &&& mid.memory_kept(old)
            &&& opcode != 0xCB ==> {
                &&& mid.registers == (Registers { pc: wrap16(pc + 1), ..old.registers })
                &&& mid.after_ticks(old, 1)
                &&& decodes_to(opcode, op)
            }
            &&& opcode == 0xCB ==> {
                &&& mid.registers == (Registers { pc: wrap16(pc + 2), ..old.registers })
                &&& mid.after_ticks(old, 2)
                &&& is_stable(wrap16(pc + 1)) ==> op == cb_operation(
                    old.bus.read_spec(wrap16(pc + 1)),
                )
            }
        }
}

/// What one step did: `new` follows `old`, and `r` is the step's result.
pub open spec fn stepped(new: CPU, old: CPU, r: Result<u64, DecodeError>) -> bool {
    let ints = old.bus.interrupts;
    let pending = is_pending(ints.enable, ints.flag);
    let it = first_pending(ints.enable, ints.flag);
    let opcode = old.bus.read_spec(old.registers.pc);
    if old.halted && !pending {
        &&& r == Ok::<u64, DecodeError>(4)
        &&& new.registers == old.registers
        &&& new.halted
    } else if pending && old.ime {
        &&& r == Ok::<u64, DecodeError>(20)
        &&& new.registers == (Registers {
            pc: it.vector(),
            sp: wrap16(old.registers.sp - 2),
            ..old.registers
        })
        &&& !new.ime
        &&& !new.halted
        &&& !bit8(new.bus.interrupts.flag, it.bit())
    } else {
        &&& r.is_err() <==> is_illegal(opcode)
        &&& r.is_err() ==> r == Err::<u64, DecodeError>(DecodeError { opcode, prefixed: false })
        &&& r.is_ok() ==> runs_instruction(
            new,
            CPU { halted: old.halted && !pending, ..old },
        )
    }
}

/// `w` is the little-endian word at `addr` as far as the bus shows it: its
/// low byte is there, and its high byte follows when that address is stable.
pub open spec fn word_read(w: u16, bus: Bus, addr: u16) -> bool {
    &&& w % 256 == bus.read_spec(addr)
    &&& is_stable(wrap16(addr + 1)) ==> w / 256 == bus.read_spec(wrap16(addr + 1))
}

} // verus!

use vstd::prelude::*;

use crate::cartridge::Cartridge;
use crate::interrupt::Interrupts;
use crate::io::joypad::Joypad;
use crate::io::ppu::{timing_after, timing_step, PPU};
use crate::io::serial::Serial;
use crate::io::timer::Timer;

use self::ranges::{HRAM_SIZE, WRAM_SIZE};

pub mod ranges;

verus! {

/// The memory map: cartridge, video memory, work RAM and its echo, sprite
/// table, I/O registers, high RAM and the interrupt registers.
pub struct Bus {
    pub cartridge: Cartridge,
    pub timer: Timer,
    pub serial: Serial,
    pub ppu: PPU,
    pub joypad: Joypad,
    pub interrupts: Interrupts,
    pub wram: Vec<u8>,
    pub hram: Vec<u8>,
    /// Backing bytes of the addresses that nothing else maps.
    pub memory: Vec<u8>,
}

pub open spec fn is_wram(a: u16) -> bool {
    0xC000 <= a <= 0xFDFF
}

/// Index into work RAM of an address of work RAM or of its echo.
pub open spec fn wram_index(a: u16) -> int {
    if a >= 0xE000 {
        a - 0xE000
    } else {
        a - 0xC000
    }
}

pub open spec fn is_hram(a: u16) -> bool {
    0xFF80 <= a <= 0xFFFE
}

pub open spec fn is_ppu(a: u16) -> bool {
    (0x8000 <= a <= 0x9FFF) || (0xFE00 <= a <= 0xFE9F) || (0xFF40 <= a <= 0xFF4B)
}

pub open spec fn is_timer(a: u16) -> bool {
    0xFF04 <= a <= 0xFF07
}

pub open spec fn is_serial(a: u16) -> bool {
    a == 0xFF01 || a == 0xFF02
}

pub open spec fn is_interrupt_reg(a: u16) -> bool {
    a == 0xFF0F || a == 0xFFFF
}

/// Addresses that no component maps.
pub open spec fn is_plain(a: u16) -> bool {
    !(a < 0x8000 || is_wram(a) || is_hram(a) || is_ppu(a) || is_timer(a) || is_serial(a)
        || is_interrupt_reg(a) || a == 0xFF00)
}

/// Addresses whose contents only a write changes: the cartridge, work RAM
/// and its echo, high RAM and the unmapped bytes.
pub open spec fn is_stable(a: u16) -> bool {
    a < 0x8000 || is_wram(a) || is_hram(a) || (is_plain(a) && !(0xFE00 <= a <= 0xFEFF))
}

/// Work RAM and high RAM after a write of `v` to `addr`.
pub open spec fn ram_after_write(wram: Seq<u8>, hram: Seq<u8>, addr: u16, v: u8) -> (Seq<u8>, Seq<u8>) {
    (
        if is_wram(addr) { wram.update(wram_index(addr), v) } else { wram },
        if is_hram(addr) { hram.update(addr - 0xFF80, v) } else { hram },
    )
}

impl Bus {
    pub open spec fn wf(self) -> bool {
        &&& self.cartridge.wf()
        &&& self.ppu.wf()
        &&& self.wram@.len() == WRAM_SIZE
        &&& self.hram@.len() == HRAM_SIZE
        &&& self.memory@.len() == 0x10000
    }

    /// What a read of `address` returns.
    pub open spec fn read_spec(self, address: u16) -> u8 {
        if address < 0x8000 {
            self.cartridge.read_spec(address)
        } else if is_wram(address) {
            self.wram@[wram_index(address)]
        } else if is_hram(address) {
            self.hram@[address - 0xFF80]
        } else if is_ppu(address) {
            self.ppu.read_spec(address)
        } else if is_timer(address) {
            self.timer.read_spec(address)
        } else if is_serial(address) {
            self.serial.read_spec(address)
        } else if is_interrupt_reg(address) {
            self.interrupts.read_spec(address)
        } else if address == 0xFF00 {
            self.joypad.read_spec()
        } else {
            self.memory@[address as int]
        }
    }

    pub fn new(cartridge: Cartridge) -> (r: Self)
        requires
            cartridge.wf(),
        ensures
            r.wf(),
            r.cartridge == cartridge,
            r.interrupts == (Interrupts { enable: 0, flag: 0xE1 }),
            !r.ppu.dma_mode,
    {
        Bus {
            cartridge,
            timer: Timer::new(),
            serial: Serial::new(),
            ppu: PPU::new(),
            joypad: Joypad::new(),
            interrupts: Interrupts::new(),
            wram: vec![0u8; WRAM_SIZE],
            hram: vec![0u8; HRAM_SIZE],
            memory: vec![0u8; 0x10000],
        }
    }

    pub fn read(&self, address: u16) -> (r: u8)
        requires
            self.wf(),
        ensures
            r == self.read_spec(address),
    {
        if address < 0x8000 {
            self.cartridge.read(address)
        } else if 0xC000 <= address && address <= 0xFDFF {
            if address >= 0xE000 {
                self.wram[(address - 0xE000) as usize]
            } else {
                self.wram[(address - 0xC000) as usize]
            }
        } else if 0xFF80 <= address && address <= 0xFFFE {
            self.hram[(address - 0xFF80) as usize]
        } else if (0x8000 <= address && address <= 0x9FFF) || (0xFE00 <= address && address
            <= 0xFE9F) || (0xFF40 <= address && address <= 0xFF4B) {
            self.ppu.read(address)
        } else if 0xFF04 <= address && address <= 0xFF07 {
            self.timer.read(address)
        } else if address == 0xFF01 || address == 0xFF02 {
            self.serial.read(address)
        } else if address == 0xFF0F || address == 0xFFFF {
            self.interrupts.read(address)
        } else if address == 0xFF00 {
            self.joypad.read()
        } else {
            self.memory[address as usize]
        }
    }

    /// Reads a little-endian word: the low byte at `address`, the high byte after it.
    pub fn read16(&self, address: u16) -> (r: u16)
        requires
            self.wf(),
        ensures
            r == self.read_spec(address) as int + 256 * self.read_spec(
                ((address + 1) % 0x10000) as u16,
            ) as int,
    {
        let low = self.read(address);
        let high = self.read(address.wrapping_add(1));
        crate::utils::bytes_to_word(high, low)
    }

    pub fn write(&mut self, address: u16, byte: u8)
        requires
            old(self).wf(),
        ensures
            final(self).wf(),
            final(self).cartridge == old(self).cartridge,
            is_wram(address) ==> final(self).wram@ == old(self).wram@.update(
                wram_index(address),
                byte,
            ),
            !is_wram(address) ==> final(self).wram@ == old(self).wram@,
            is_hram(address) ==> final(self).hram@ == old(self).hram@.update(
                address - 0xFF80,
                byte,
            ),
            !is_hram(address) ==> final(self).hram@ == old(self).hram@,
            is_timer(address) ==> final(self).timer == old(self).timer.write_spec(address, byte),
            !is_timer(address) ==> final(self).timer == old(self).timer,
            address == 0xFF0F ==> final(self).interrupts == (Interrupts {
                flag: byte,
                ..old(self).interrupts
            }),
            address == 0xFFFF ==> final(self).interrupts == (Interrupts {
                enable: byte,
                ..old(self).interrupts
            }),
            !is_interrupt_reg(address) ==> final(self).interrupts == old(self).interrupts,
            !is_ppu(address) ==> final(self).ppu == old(self).ppu,
            is_ppu(address) ==> final(self).ppu.written(old(self).ppu, address, byte),
            !is_serial(address) ==> final(self).serial == old(self).serial,
            address == 0xFF01 ==> final(self).serial.data == byte && final(self).serial.output@
                == old(self).serial.output@,
            address == 0xFF02 && byte == 0x81 ==> final(self).serial.control == 0
                && final(self).serial.output@ == old(self).serial.output@.push(old(self).serial.data),
            address == 0xFF00 ==> final(self).joypad == old(self).joypad.write_spec(byte),
            address != 0xFF00 ==> final(self).joypad == old(self).joypad,
            is_plain(address) ==> final(self).memory@ == old(self).memory@.update(
                address as int,
                byte,
            ),
            !is_plain(address) ==> final(self).memory@ == old(self).memory@,
            address == 0xFF46 ==> final(self).ppu.dma_mode && final(self).ppu.dma == byte
                && final(self).ppu.dma_cycles == 0,
    {
        if address < 0x8000 {
            self.cartridge.write(address, byte);
        } else if 0xC000 <= address && address <= 0xFDFF {
            if address >= 0xE000 {
                self.wram.set((address - 0xE000) as usize, byte);
            } else {
                self.wram.set((address - 0xC000) as usize, byte);
            }
        } else if 0xFF80 <= address && address <= 0xFFFE {
            self.hram.set((address - 0xFF80) as usize, byte);
        } else if (0x8000 <= address && address <= 0x9FFF) || (0xFE00 <= address && address
            <= 0xFE9F) || (0xFF40 <= address && address <= 0xFF4B) {
            self.ppu.write(address, byte);
        } else if 0xFF04 <= address && address <= 0xFF07 {
            self.timer.write(address, byte);
        } else if address == 0xFF01 || address == 0xFF02 {
            self.serial.write(address, byte);
        } else if address == 0xFF0F || address == 0xFFFF {
            self.interrupts.write(address, byte);
        } else if address == 0xFF00 {
            self.joypad.write(byte);
        } else {
            self.memory.set(address as usize, byte);
        }
    }

    /// Writes a little-endian word: the low byte at `address`, the high byte after it.
    pub fn write16(&mut self, address: u16, value: u16)
        requires
            old(self).wf(),
        ensures
            final(self).wf(),
            final(self).cartridge == old(self).cartridge,
            ({
                let (w1, h1) = ram_after_write(
                    old(self).wram@,
                    old(self).hram@,
                    address,
                    (value % 256) as u8,
                );
                (final(self).wram@, final(self).hram@) == ram_after_write(
                    w1,
                    h1,
                    ((address + 1) % 0x10000) as u16,
                    (value / 256) as u8,
                )
            }),
    {
        self.write(address, (value % 256) as u8);
        self.write(address.wrapping_add(1), (value / 256) as u8);
    }

    /// The address that step `i` of a DMA from page `page` reads.
    pub open spec fn dma_source(page: u8, i: int) -> u16 {
        (page as int * 256 + i) as u16
    }

    /// `self` follows `old` by one m-cycle as far as DMA goes: a running DMA
    /// copied byte `i` of the source page to the sprite table.
    pub open spec fn dma_ticked(self, old: Bus) -> bool {
        &&& self.wf()
        &&& self.same_memory(old)
        &&& self.ppu.dma == old.ppu.dma
        &&& old.ppu.dma_mode ==> {
            let i = old.ppu.dma_cycles as int;
            &&& self.ppu.oam@ == old.ppu.oam@.update(
                i / 4,
                old.ppu.oam@[i / 4].with_field(old.dma_read_spec(Bus::dma_source(old.ppu.dma, i)), i % 4),
            )
            &&& self.ppu.dma_cycles == i + 1
            &&& self.ppu.dma_mode == (i + 1 < 160)
        }
        &&& !old.ppu.dma_mode ==> self.ppu.oam@ == old.ppu.oam@ && !self.ppu.dma_mode
    }

    /// What a DMA reads at `address`: VRAM directly, whatever the PPU mode,
    /// and elsewhere what the bus reads.
    pub open spec fn dma_read_spec(self, address: u16) -> u8 {
        if 0x8000 <= address <= 0x9FFF {
            self.ppu.vram@[address - 0x8000]
        } else {
            self.read_spec(address)
        }
    }

    /// Byte `j` of the sprite table.
    pub open spec fn oam_byte(self, j: int) -> u8 {
        self.ppu.oam@[j / 4].field(j % 4)
    }

    /// The parts of the bus that a tick leaves alone.
    pub open spec fn same_memory(self, other: Bus) -> bool {
        &&& self.cartridge == other.cartridge
        &&& self.wram@ == other.wram@
        &&& self.hram@ == other.hram@
        &&& self.memory@ == other.memory@
        &&& self.serial == other.serial
        &&& self.joypad == other.joypad
        &&& self.interrupts.enable == other.interrupts.enable
        &&& self.ppu.vram@ == other.ppu.vram@
    }

    /// One m-cycle: a running DMA copies one byte to the sprite table, then the
    /// timer advances one m-cycle and the PPU four t-cycles.
    pub fn tick(&mut self)
        requires
            old(self).wf(),
        ensures
            final(self).wf(),
            final(self).same_memory(*old(self)),
            final(self).timer == old(self).timer.tick_spec().0,
            (final(self).ppu.stat.mode(), final(self).ppu.ly, final(self).ppu.ticks)
                == timing_after(old(self).ppu.stat.mode(), old(self).ppu.ly, old(self).ppu.ticks, 4),
            final(self).dma_ticked(*old(self)),
    {
        self.dma_transfer();
        self.timer.tick(&mut self.interrupts);
        let ghost p0 = self.ppu;
        self.ppu.tick(&mut self.interrupts);
        self.ppu.tick(&mut self.interrupts);
        self.ppu.tick(&mut self.interrupts);
        self.ppu.tick(&mut self.interrupts);
        proof {
            let s1 = timing_step(p0.stat.mode(), p0.ly, p0.ticks);
            let s2 = timing_step(s1.0, s1.1, s1.2);
            let s3 = timing_step(s2.0, s2.1, s2.2);
            let s4 = timing_step(s3.0, s3.1, s3.2);
            assert(timing_after(s4.0, s4.1, s4.2, 0) == s4);
            assert(timing_after(s3.0, s3.1, s3.2, 1) == s4);
            assert(timing_after(s2.0, s2.1, s2.2, 2) == s4);
            assert(timing_after(s1.0, s1.1, s1.2, 3) == s4);
        }
    }

    /// One step of a running DMA: copies the next byte from the source page.
    fn dma_transfer(&mut self)
        requires
            old(self).wf(),
        ensures
            final(self).wf(),
            final(self).same_memory(*old(self)),
            final(self).interrupts == old(self).interrupts,
            final(self).timer == old(self).timer,
            final(self).ppu.stat == old(self).ppu.stat,
            final(self).ppu.ly == old(self).ppu.ly,
            final(self).ppu.ticks == old(self).ppu.ticks,
            final(self).ppu.dma == old(self).ppu.dma,
            old(self).ppu.dma_mode ==> {
                let i = old(self).ppu.dma_cycles as int;
                &&& final(self).ppu.oam@ == old(self).ppu.oam@.update(
                    i / 4,
                    old(self).ppu.oam@[i / 4].with_field(
                        old(self).dma_read_spec(Bus::dma_source(old(self).ppu.dma, i)),
                        i % 4,
                    ),
                )
                &&& final(self).ppu.dma_cycles == i + 1
                &&& final(self).ppu.dma_mode == (i + 1 < 160)
            },
            !old(self).ppu.dma_mode ==> final(self).ppu.oam@ == old(self).ppu.oam@
                && !final(self).ppu.dma_mode && final(self).ppu.dma_cycles == old(self).ppu.dma_cycles,
    {
        if self.ppu.dma_mode {
            let src = self.ppu.dma as u16 * 256 + self.ppu.dma_cycles as u16;
            let byte = if 0x8000 <= src && src <= 0x9FFF {
                self.ppu.vram[(src - 0x8000) as usize]
            } else {
                self.read(src)
            };
            self.ppu.dma_step(byte);
        }
    }
}

/// Addresses whose DMA reads only a write changes: the stable ones and VRAM.
pub open spec fn is_dma_stable(a: u16) -> bool {
    is_stable(a) || 0x8000 <= a <= 0x9FFF
}

/// Ticks do not change what a stable address reads.
pub proof fn lemma_stable_read(b1: Bus, b2: Bus, a: u16)
    requires
        b1.wf(),
        b2.wf(),
        b2.same_memory(b1),
        is_stable(a),
    ensures
        b2.read_spec(a) == b1.read_spec(a),
{
}

proof fn lemma_dma_prefix(states: Seq<Bus>, page: u8, k: int)
    requires
        states.len() == 161,
        0 <= k <= 160,
        forall|i: int| 0 <= i < 160 ==> #[trigger] states[i + 1].dma_ticked(states[i]),
        states[0].wf(),
        states[0].ppu.dma_mode,
        states[0].ppu.dma_cycles == 0,
        states[0].ppu.dma == page,
        forall|j: int| 0 <= j < 160 ==> is_dma_stable(#[trigger] Bus::dma_source(page, j)),
    ensures
        states[k].wf(),
        states[k].same_memory(states[0]),
        states[k].ppu.dma == page,
        states[k].ppu.dma_cycles == k,
        states[k].ppu.dma_mode == (k < 160),
        forall|j: int|
            0 <= j < k ==> #[trigger] states[k].oam_byte(j) == states[0].dma_read_spec(
                Bus::dma_source(page, j),
            ),
    decreases k,
{
    if k > 0 {
        lemma_dma_prefix(states, page, k - 1);
        let i = k - 1;
        assert(states[i + 1].dma_ticked(states[i]));
        assert(i + 1 == k);
        let prev = states[i];
        let cur = states[k];
        let src = Bus::dma_source(page, i);
        if is_stable(src) {
            lemma_stable_read(states[0], prev, src);
        }
        assert forall|j: int| 0 <= j < k implies #[trigger] cur.oam_byte(j) == states[0].dma_read_spec(
            Bus::dma_source(page, j),
        ) by {
            if j < i {
                assert(j != i);
                if j / 4 == i / 4 {
                    assert(j % 4 != i % 4);
                }
                assert(cur.oam_byte(j) == prev.oam_byte(j));
            }
        }
    }
}

/// While a DMA runs, the sprite table reads as 0xFF; after 160 m-cycles it
/// holds the 160 bytes of the source page, and the DMA is over. The source
/// page is one that only writes change (cartridge, VRAM, work RAM, high RAM).
pub proof fn lemma_dma_transfer(states: Seq<Bus>, page: u8)
    requires
        states.len() == 161,
        forall|i: int| 0 <= i < 160 ==> #[trigger] states[i + 1].dma_ticked(states[i]),
        states[0].wf(),
        states[0].ppu.dma_mode,
        states[0].ppu.dma_cycles == 0,
        states[0].ppu.dma == page,
        forall|j: int| 0 <= j < 160 ==> is_dma_stable(#[trigger] Bus::dma_source(page, j)),
    ensures
        !states[160].ppu.dma_mode,
        forall|j: int|
            0 <= j < 160 ==> #[trigger] states[160].oam_byte(j) == states[0].dma_read_spec(
                Bus::dma_source(page, j),
            ),
        forall|k: int, a: u16|
            0 <= k < 160 && 0xFE00 <= a <= 0xFE9F ==> #[trigger] states[k].read_spec(a) == 0xFF,
{
    lemma_dma_prefix(states, page, 160);
    assert forall|k: int, a: u16|
        0 <= k < 160 && 0xFE00 <= a <= 0xFE9F implies #[trigger] states[k].read_spec(a) == 0xFF by {
        lemma_dma_prefix(states, page, k);
    }
}

} // verus!

//! Core of a Game Boy (DMG) emulator: CPU, bus, timer, PPU and interrupt
//! controller, each step stated and proved with Verus.

pub mod utils;
pub mod cpu;
pub mod interrupt;
pub mod io;
pub mod cartridge;
pub mod bus;
pub mod emu;
pub mod gameboy;
pub mod display;
pub mod rom;

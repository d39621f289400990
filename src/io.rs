pub mod timer;
pub mod serial;
pub mod joypad;
pub mod ppu;

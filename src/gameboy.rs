use vstd::prelude::*;

use crate::cpu::CPU;

verus! {

/// A console: the CPU, which owns the bus.
pub struct Gameboy {
    pub cpu: CPU,
}

impl Gameboy {
    pub fn step() {
    }
}

} // verus!

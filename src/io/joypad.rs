use vstd::prelude::*;

use crate::interrupt::{InterruptType, Interrupts};

verus! {

#[derive(Copy, Clone, Debug, PartialEq, Eq, Structural)]
pub enum JoypadInput {
    Start,
    Select,
    A,
    B,
    Up,
    Down,
    Left,
    Right,
}

/// The joypad register at 0xFF00. A line reads 1 when its key is up and 0
/// when it is down; bits 5 and 4 select the action and direction keys
/// (0 selects).
#[derive(Copy, Clone, Debug, PartialEq, Eq, Structural)]
pub struct Joypad {
    /// Bit 5
    pub select_action: bool,
    /// Bit 4
    pub select_direction: bool,
    /// Down | Start
    pub bit_3: bool,
    /// Up | Select
    pub bit_2: bool,
    /// Left | B
    pub bit_1: bool,
    /// Right | A
    pub bit_0: bool,
}

pub open spec fn b2i(b: bool, w: int) -> int {
    if b { w } else { 0 }
}

impl Joypad {
    pub open spec fn action_mode(self) -> bool {
        !self.select_action
    }

    pub open spec fn direction_mode(self) -> bool {
        !self.select_direction
    }

    /// The joypad after a key changed: the line of the key takes `level` in
    /// each selected group that holds the key.
    pub open spec fn with_key(self, level: bool, key: JoypadInput) -> Joypad {
        let j1 = if self.action_mode() {
            match key {
                JoypadInput::Start => Joypad { bit_3: level, ..self },
                JoypadInput::Select => Joypad { bit_2: level, ..self },
                JoypadInput::A => Joypad { bit_0: level, ..self },
                JoypadInput::B => Joypad { bit_1: level, ..self },
                _ => self,
            }
        } else {
            self
        };
        if self.direction_mode() {
            match key {
                JoypadInput::Up => Joypad { bit_2: level, ..j1 },
                JoypadInput::Down => Joypad { bit_3: level, ..j1 },
                JoypadInput::Left => Joypad { bit_1: level, ..j1 },
                JoypadInput::Right => Joypad { bit_0: level, ..j1 },
                _ => j1,
            }
        } else {
            j1
        }
    }

    pub open spec fn read_spec(self) -> u8 {
        let state: int = if self.action_mode() {
            0x10
        } else if self.direction_mode() {
            0x20
        } else {
            0x30
        };
        (state + b2i(self.bit_3, 8) + b2i(self.bit_2, 4) + b2i(self.bit_1, 2) + b2i(
            self.bit_0,
            1,
        )) as u8
    }

    pub open spec fn write_spec(self, byte: u8) -> Joypad {
        let sel = byte & 0x30u8;
        if sel == 0x10 {
            Joypad { select_action: false, select_direction: true, ..self }
        } else if sel == 0x20 {
            Joypad { select_direction: false, select_action: true, ..self }
        } else {
            Joypad { select_action: true, select_direction: true, ..self }
        }
    }

    pub fn new() -> (r: Self)
        ensures
            !r.select_action && !r.select_direction,
            r.bit_3 && r.bit_2 && r.bit_1 && r.bit_0,
    {
        Joypad {
            select_action: false,
            select_direction: false,
            bit_3: true,
            bit_2: true,
            bit_1: true,
            bit_0: true,
        }
    }

    /// A key goes down: its line reads 0 and the JOYPAD interrupt is requested.
    pub fn key_down(&mut self, key: JoypadInput, interrupts: &mut Interrupts)
        ensures
            *final(self) == old(self).with_key(false, key),
            *final(interrupts) == old(interrupts).requested(InterruptType::JOYPAD),
    {
        self.set_joypad(false, key);
        interrupts.create_interrupt(InterruptType::JOYPAD);
    }

    /// A key goes up: its line reads 1.
    pub fn key_up(&mut self, key: JoypadInput)
        ensures
            *final(self) == old(self).with_key(true, key),
    {
        self.set_joypad(true, key);
    }

    fn set_joypad(&mut self, level: bool, key: JoypadInput)
        ensures
            *final(self) == old(self).with_key(level, key),
    {
        if self.is_action_mode() {
            match key {
                JoypadInput::Start => self.bit_3 = level,
                JoypadInput::Select => self.bit_2 = level,
                JoypadInput::A => self.bit_0 = level,
                JoypadInput::B => self.bit_1 = level,
                _ => {},
            }
        }
        if self.is_direction_mode() {
            match key {
                JoypadInput::Up => self.bit_2 = level,
                JoypadInput::Down => self.bit_3 = level,
                JoypadInput::Left => self.bit_1 = level,
                JoypadInput::Right => self.bit_0 = level,
                _ => {},
            }
        }
    }

    /// Bits 5..4 as read: the selected group reads 0.
    fn get_state(&self) -> (r: u8)
        ensures
            r == (if self.action_mode() {
                0x10u8
            } else if self.direction_mode() {
                0x20u8
            } else {
                0x30u8
            }),
    {
        if self.is_action_mode() {
            return 0b0001_0000;
        }
        if self.is_direction_mode() {
            return 0b0010_0000;
        }
        0b0011_0000
    }

    /// Bits 3..0 as read.
    fn get_input(&self) -> (r: u8)
        ensures
            r == b2i(self.bit_3, 8) + b2i(self.bit_2, 4) + b2i(self.bit_1, 2) + b2i(self.bit_0, 1),
    {
        let mut r: u8 = 0;
        if self.bit_3 {
            r = r + 8;
        }
        if self.bit_2 {
            r = r + 4;
        }
        if self.bit_1 {
            r = r + 2;
        }
        if self.bit_0 {
            r = r + 1;
        }
        r
    }

    fn is_action_mode(&self) -> (r: bool)
        ensures
            r == self.action_mode(),
    {
        !self.select_action
    }

    fn is_direction_mode(&self) -> (r: bool)
        ensures
            r == self.direction_mode(),
    {
        !self.select_direction
    }

    pub fn read(&self) -> (r: u8)
        ensures
            r == self.read_spec(),
    {
        self.get_state() + self.get_input()
    }

    pub fn write(&mut self, byte: u8)
        ensures
            *final(self) == old(self).write_spec(byte),
    {
        let sel = byte & 0b0011_0000;
        if sel == 0b0001_0000 {
            self.select_action = false;
            self.select_direction = true;
        } else if sel == 0b0010_0000 {
            self.select_direction = false;
            self.select_action = true;
        } else {
            self.select_action = true;
            self.select_direction = true;
        }
    }
}

} // verus!

//! The eight buttons and the register through which a program reads them.

use vstd::prelude::*;
use crate::joypad_events::{JoypadButton, JoypadEvent};
use crate::utils::{get_bit, lemma_bits_as_arithmetic};

verus! {

/// Which buttons are held down, and which of the two button groups the
/// program has selected for reading.
#[derive(Debug, Clone, Copy, PartialEq, Eq, Structural)]
pub struct Joypad {
    pub up: bool,
    pub down: bool,
    pub left: bool,
    pub right: bool,
    pub a: bool,
    pub b: bool,
    pub select: bool,
    pub start: bool,
    pub select_buttons: bool,
    pub direction_buttons: bool,
}

/// Four keys as the low nibble of the register: a key that is held down
/// reads as zero.
pub open spec fn spec_key_nibble(key0: bool, key1: bool, key2: bool, key3: bool) -> int {
    (if key0 { 0int } else { 1 }) + (if key1 { 0int } else { 2 }) + (if key2 { 0int } else { 4 }) + (if key3 {
        0int
    } else {
        8
    })
}

impl Joypad {
    pub open spec fn spec_new() -> Joypad {
        Joypad {
            up: false,
            down: false,
            left: false,
            right: false,
            a: false,
            b: false,
            select: false,
            start: false,
            select_buttons: false,
            direction_buttons: false,
        }
    }

    pub open spec fn spec_consume_platform_event(self, event: JoypadEvent) -> Joypad {
        match event.button {
            JoypadButton::Up => Joypad { up: event.is_down, ..self },
            JoypadButton::Down => Joypad { down: event.is_down, ..self },
            JoypadButton::Left => Joypad { left: event.is_down, ..self },
            JoypadButton::Right => Joypad { right: event.is_down, ..self },
            JoypadButton::A => Joypad { a: event.is_down, ..self },
            JoypadButton::B => Joypad { b: event.is_down, ..self },
            JoypadButton::Select => Joypad { select: event.is_down, ..self },
            JoypadButton::Start => Joypad { start: event.is_down, ..self },
        }
    }

    /// The register as the program reads it. The low nibble shows the
    /// selected group, the action buttons where both are selected, and all
    /// ones where none is; bits 4 and 5 show the selection, zero meaning
    /// selected.
    pub open spec fn spec_read(self) -> u8 {
        let keys = if self.select_buttons {
            spec_key_nibble(self.a, self.b, self.select, self.start)
        } else if self.direction_buttons {
            spec_key_nibble(self.right, self.left, self.up, self.down)
        } else {
            0x0F
        };
        (keys + (if self.direction_buttons { 0int } else { 0x10 }) + (if self.select_buttons {
            0int
        } else {
            0x20
        })) as u8
    }

    /// A write selects a group by clearing its bit: bit 4 for the
    /// directions, bit 5 for the action buttons.
    pub open spec fn spec_write(self, value: u8) -> Joypad {
        Joypad {
            direction_buttons: (value / 16) % 2 == 0,
            select_buttons: (value / 32) % 2 == 0,
            ..self
        }
    }

    pub fn new() -> (r: Self)
        ensures
            r == Joypad::spec_new(),
    {
        Self {
            up: false,
            down: false,
            left: false,
            right: false,
            a: false,
            b: false,
            select: false,
            start: false,
            select_buttons: false,
            direction_buttons: false,
        }
    }

    pub fn consume_platform_event(&mut self, event: JoypadEvent)
        ensures
            *final(self) == old(self).spec_consume_platform_event(event),
    {
        match event.button {
            JoypadButton::Up => self.up = event.is_down,
            JoypadButton::Down => self.down = event.is_down,
            JoypadButton::Left => self.left = event.is_down,
            JoypadButton::Right => self.right = event.is_down,
            JoypadButton::A => self.a = event.is_down,
            JoypadButton::B => self.b = event.is_down,
            JoypadButton::Select => self.select = event.is_down,
            JoypadButton::Start => self.start = event.is_down,
        }
    }

    pub fn read(&self) -> (r: u8)
        ensures
            r == self.spec_read(),
    {
        let mut base: u8 = 0x0F;

        if self.direction_buttons {
            base = key_nibble(self.right, self.left, self.up, self.down);
        }
        if self.select_buttons {
            base = key_nibble(self.a, self.b, self.select, self.start);
        }
        if !self.direction_buttons {
            base = base + 0x10;
        }
        if !self.select_buttons {
            base = base + 0x20;
        }
        base
    }

    pub fn write(&mut self, value: u8)
        ensures
            *final(self) == old(self).spec_write(value),
    {
        proof {
            lemma_bits_as_arithmetic(value);
        }
        self.direction_buttons = !get_bit(value, 4);
        self.select_buttons = !get_bit(value, 5);
    }
}

fn key_nibble(key0: bool, key1: bool, key2: bool, key3: bool) -> (r: u8)
    ensures
        r == spec_key_nibble(key0, key1, key2, key3),
        r <= 0x0F,
{
    let mut nibble: u8 = 0;
    if !key0 {
        nibble = nibble + 1;
    }
    if !key1 {
        nibble = nibble + 2;
    }
    if !key2 {
        nibble = nibble + 4;
    }
    if !key3 {
        nibble = nibble + 8;
    }
    nibble
}

} // verus!

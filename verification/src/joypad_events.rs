//! Button changes as the host reports them.

use vstd::prelude::*;

verus! {

#[derive(Clone, Copy, Debug, PartialEq, Eq, Structural)]
pub enum JoypadButton {
    Up,
    Down,
    Left,
    Right,
    A,
    B,
    Select,
    Start,
}

#[derive(Clone, Copy, Debug, PartialEq, Eq, Structural)]
pub struct JoypadEvent {
    pub is_down: bool,
    pub button: JoypadButton,
}

impl JoypadEvent {
    /// The release of `button`.
    pub fn new_up(button: JoypadButton) -> (r: Self)
        ensures
            r == (JoypadEvent { is_down: false, button }),
    {
        Self { is_down: false, button }
    }

    /// The press of `button`.
    pub fn new_down(button: JoypadButton) -> (r: Self)
        ensures
            r == (JoypadEvent { is_down: true, button }),
    {
        Self { is_down: true, button }
    }
}

} // verus!

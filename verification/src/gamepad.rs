//! Gamepad data types.  Reading a pad's state is a host call outside the
//! library; the button mask and its tests are plain values verified here.

use vstd::prelude::*;

verus! {

/// The four gamepad slots.
#[derive(Clone, Copy, Debug)]
pub enum GamepadSlot {
    SlotA,
    SlotB,
    SlotC,
    SlotD,
}

/// A set of gamepad buttons, one bit per button.
#[derive(Clone, Copy, Debug, PartialEq, Eq, Structural)]
pub struct GamepadButton {
    pub bits: u16,
}

impl GamepadButton {
    /// The empty button set.
    pub fn empty() -> (r: GamepadButton)
        ensures
            r.bits == 0,
    {
        GamepadButton { bits: 0 }
    }

    /// The set holding exactly the `index`-th button.
    pub fn from_index(index: u16) -> (r: GamepadButton)
        requires
            index < 16,
        ensures
            r.bits == (1u16 << index),
    {
        GamepadButton { bits: 1u16 << index }
    }

    /// Does this set contain every button of `other`?
    pub fn contains(self, other: GamepadButton) -> (r: bool)
        ensures
            r == (self.bits & other.bits == other.bits),
    {
        self.bits & other.bits == other.bits
    }
}

/// The state of one gamepad: pressed buttons and the four stick axes.
#[derive(Clone, Copy, Debug)]
pub struct GamepadState {
    pub button_mask: GamepadButton,
    pub left_stick_x: i16,
    pub left_stick_y: i16,
    pub right_stick_x: i16,
    pub right_stick_y: i16,
}

impl GamepadState {
    /// Check if the given button is pressed
    pub fn is_pressed(self, button: GamepadButton) -> (r: bool)
        ensures
            r == (self.button_mask.bits & button.bits == button.bits),
    {
        self.button_mask.contains(button)
    }
}

/// A handle on one gamepad slot.
pub struct Gamepad {
    pub slot: GamepadSlot,
}

impl Gamepad {
    /// Construct a new Gamepad for the given slot
    pub fn new(slot: GamepadSlot) -> (r: Gamepad)
        ensures
            r.slot == slot,
    {
        Gamepad { slot }
    }
}

} // verus!

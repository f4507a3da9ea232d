//! Key input state, as the host reports it: a small set of bit flags
//! describing where one key is in its press/repeat/hold/release cycle.

use vstd::prelude::*;

verus! {

/// The state of one key, packed into bit flags: bit 0 pressed, bit 1
/// repeated, bit 2 held, bit 3 released.
#[derive(Debug, Clone, Copy, Default)]
pub struct KeyInputState(u8);

impl View for KeyInputState {
    type V = u8;

    closed spec fn view(&self) -> u8 {
        self.0
    }
}

impl KeyInputState {
    /// Packs raw host-side flag bits into a key state.
    pub fn new(bits: u8) -> (r: KeyInputState)
        ensures
            r@ == bits,
    {
        KeyInputState(bits)
    }

    /// Happens when you start the key press, or while you have not yet let
    /// go of the key; can be true while `is_repeated` is true.
    pub fn is_pressed(&self) -> (r: bool)
        ensures
            r == (self@ & 1 != 0),
    {
        self.0 & 1 != 0
    }

    /// Happens when the key fires again within the repeat interval; can be
    /// true while `is_pressed` is true.
    pub fn is_repeated(&self) -> (r: bool)
        ensures
            r == (self@ & 2 != 0),
    {
        self.0 & 2 != 0
    }

    /// A fresh press: pressed and not a repeat.
    pub fn is_pressed_but_not_repeated(&self) -> (r: bool)
        ensures
            r == (self@ & 1 != 0 && !(self@ & 2 != 0)),
    {
        self.is_pressed() && !self.is_repeated()
    }

    /// Note that this is not the same as `is_pressed`: the two can be true
    /// together.
    pub fn is_held(&self) -> (r: bool)
        ensures
            r == (self@ & 4 != 0),
    {
        self.0 & 4 != 0
    }

    /// When the key is free; not the same as `is_released`, and the two can
    /// be true together.
    pub fn is_up(&self) -> (r: bool)
        ensures
            r == (!(self@ & 1 != 0) && !(self@ & 2 != 0)),
    {
        !self.is_pressed() && !self.is_repeated()
    }

    /// Happens when you stop pressing the key.
    pub fn is_released(&self) -> (r: bool)
        ensures
            r == (self@ & 8 != 0),
    {
        self.0 & 8 != 0
    }
}

} // verus!

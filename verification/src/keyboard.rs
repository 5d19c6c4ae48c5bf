//! Which keys are held down.

use vstd::prelude::*;

verus! {

/// How many key codes there are.
pub const KEY_CODES: usize = 300;

/// The keyboard: for every key code, whether the key is down.
pub struct Keyboard {
    pub keys: [bool; 300],
}

impl Keyboard {
    /// A keyboard on which no key is down.
    pub fn new() -> (keyboard: Keyboard)
        ensures
            forall|code: int| 0 <= code < KEY_CODES ==> !keyboard.keys@[code],
    {
        Keyboard { keys: [false; 300] }
    }

    /// Notes that the key `keycode` is down, or is not.
    pub fn set_key(&mut self, keycode: u32, down: bool)
        requires
            keycode < KEY_CODES,
        ensures
            final(self).keys@ == old(self).keys@.update(keycode as int, down),
    {
        self.keys[keycode as usize] = down;
    }

    /// Whether the key `keycode` is down.
    pub fn is_key_down(&self, keycode: u32) -> (down: bool)
        requires
            keycode < KEY_CODES,
        ensures
            down == self.keys@[keycode as int],
    {
        self.keys[keycode as usize]
    }
}

} // verus!

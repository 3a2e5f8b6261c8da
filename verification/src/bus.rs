//! The bus between the host and the engine: the frame buffer that the engine
//! draws on and the host shows, and the latch that holds the key last pressed.

use vstd::prelude::*;
use crate::display::Display;
use crate::display::blank_frame;
use crate::display::is_frame;

verus! {

/// The host's codes of the sixteen keys that stand for the keypad. A key that
/// types a character has that character's code.
pub const KEY_1: i32 = 49;

pub const KEY_2: i32 = 50;

pub const KEY_3: i32 = 51;

pub const KEY_4: i32 = 52;

pub const KEY_Q: i32 = 113;

pub const KEY_W: i32 = 119;

pub const KEY_E: i32 = 101;

pub const KEY_R: i32 = 114;

pub const KEY_A: i32 = 97;

pub const KEY_S: i32 = 115;

pub const KEY_D: i32 = 100;

pub const KEY_F: i32 = 102;

pub const KEY_Z: i32 = 122;

pub const KEY_X: i32 = 120;

pub const KEY_C: i32 = 99;

pub const KEY_V: i32 = 118;

/// What the host and the engine share.
pub struct Bus {
    /// The frame buffer.
    pub display: Display,
    /// The keypad code, 0 to 15, of the key last pressed, if any.
    pub key_pressed: Option<u8>,
}

/// The keypad code that a key of the host stands for. The four rows of the
/// keypad, `1 2 3 C`, `4 5 6 D`, `7 8 9 E` and `A 0 B F`, lie on the keys
/// `1 2 3 4`, `Q W E R`, `A S D F` and `Z X C V`.
pub open spec fn keypad_code(key: i32) -> Option<u8> {
    if key == KEY_1 {
        Some(0x1u8)
    } else if key == KEY_2 {
        Some(0x2u8)
    } else if key == KEY_3 {
        Some(0x3u8)
    } else if key == KEY_4 {
        Some(0xCu8)
    } else if key == KEY_Q {
        Some(0x4u8)
    } else if key == KEY_W {
        Some(0x5u8)
    } else if key == KEY_E {
        Some(0x6u8)
    } else if key == KEY_R {
        Some(0xDu8)
    } else if key == KEY_A {
        Some(0x7u8)
    } else if key == KEY_S {
        Some(0x8u8)
    } else if key == KEY_D {
        Some(0x9u8)
    } else if key == KEY_F {
        Some(0xEu8)
    } else if key == KEY_Z {
        Some(0xAu8)
    } else if key == KEY_X {
        Some(0x0u8)
    } else if key == KEY_C {
        Some(0xBu8)
    } else if key == KEY_V {
        Some(0xFu8)
    } else {
        None
    }
}

/// What the latch holds after the host has reported `key`.
pub open spec fn latched(key: Option<i32>) -> Option<u8> {
    match key {
        Some(k) => keypad_code(k),
        None => None,
    }
}

impl Bus {
    /// A bus with a dark display and no key pressed.
    pub fn new() -> (bus: Bus)
        ensures
            bus.display@ == blank_frame(),
            is_frame(bus.display@),
            bus.key_pressed.is_none(),
    {
        Bus { display: Display::new(), key_pressed: None }
    }

    /// Latches the key that the host reports, or clears the latch when it
    /// reports none or a key that is no part of the keypad.
    pub fn set_key_pressed(&mut self, key: Option<i32>)
        ensures
            final(self).key_pressed == latched(key),
            final(self).key_pressed matches Some(code) ==> code < 16,
            final(self).display == old(self).display,
    {
        self.key_pressed = self.decode_key(key);
    }

    /// Whether the latch holds the keypad code `key`.
    pub fn is_key_pressed(&self, key: u8) -> (pressed: bool)
        ensures
            pressed == (self.key_pressed == Some(key)),
    {
        if let Some(key_pressed) = self.key_pressed {
            key == key_pressed
        } else {
            false
        }
    }

    fn decode_key(&self, key: Option<i32>) -> (code: Option<u8>)
        ensures
            code == latched(key),
    {
        match key {
            Some(KEY_1) => Some(0x1),
            Some(KEY_2) => Some(0x2),
            Some(KEY_3) => Some(0x3),
            Some(KEY_4) => Some(0xC),
            Some(KEY_Q) => Some(0x4),
            Some(KEY_W) => Some(0x5),
            Some(KEY_E) => Some(0x6),
            Some(KEY_R) => Some(0xD),
            Some(KEY_A) => Some(0x7),
            Some(KEY_S) => Some(0x8),
            Some(KEY_D) => Some(0x9),
            Some(KEY_F) => Some(0xE),
            Some(KEY_Z) => Some(0xA),
            Some(KEY_X) => Some(0x0),
            Some(KEY_C) => Some(0xB),
            Some(KEY_V) => Some(0xF),
            _ => None,
        }
    }
}

} // verus!

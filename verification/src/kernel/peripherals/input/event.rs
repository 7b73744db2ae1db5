//! A keyboard event as the loader forwards it: modifier bits and a key code.

use vstd::prelude::*;

verus! {

/// The operation mode that the modifier keys select.
#[derive(Copy, Clone, PartialEq, Eq, Debug, Structural)]
pub enum Mode {
    NoModifier,
    Action,
    Capital,
    Setting,
    Window,
    Advanced,
    Undefined(u8),
}

/// The mode of a set of modifier bits: one of the single modifiers, or
/// setting and capital together for the advanced mode.
pub open spec fn mode_of_mode(modifiers: u8) -> Mode {
    if modifiers == 0 {
        Mode::NoModifier
    } else if modifiers == 1 {
        Mode::Action
    } else if modifiers == 2 {
        Mode::Capital
    } else if modifiers == 4 {
        Mode::Setting
    } else if modifiers == 8 {
        Mode::Window
    } else if modifiers == 6 {
        Mode::Advanced
    } else {
        Mode::Undefined(modifiers)
    }
}

/// The printable ASCII character of a key code, if it is one.
pub open spec fn ascii_of_mode(code: u8) -> Option<char> {
    if 32 <= code <= 126 {
        Some(code as char)
    } else {
        None
    }
}

/// A user input event: which modifiers were held, and the key code.
#[derive(Copy, Clone, PartialEq, Eq, Debug, Structural)]
pub struct Event {
    modifiers: u8,
    code: u8,
}

impl Event {
    /// The modifier bits.
    pub closed spec fn modifier_bits(&self) -> u8 {
        self.modifiers
    }

    /// The key code.
    pub closed spec fn key_code(&self) -> u8 {
        self.code
    }

    /// The event in a raw 16-bit word: modifier bits in the high byte, key
    /// code in the low byte.
    pub fn from_u16(raw: u16) -> (r: Event)
        ensures
            r.modifier_bits() == raw / 256,
            r.key_code() == raw % 256,
    {
        assert((raw >> 8u16) as u8 == raw / 256) by (bit_vector);
        assert(raw as u8 == raw % 256) by (bit_vector);
        Event { modifiers: (raw >> 8) as u8, code: raw as u8 }
    }

    /// The operation mode of the event's modifier keys.
    pub fn mode(&self) -> (r: Mode)
        ensures
            r == mode_of_mode(self.modifier_bits()),
    {
        match self.modifiers {
            0b00000000 => Mode::NoModifier,
            0b00000001 => Mode::Action,
            0b00000010 => Mode::Capital,
            0b00000100 => Mode::Setting,
            0b00001000 => Mode::Window,
            0b00000110 => Mode::Advanced,
            modifiers => Mode::Undefined(modifiers),
        }
    }

    /// The mode and the key code, for matching.
    pub fn tupled(&self) -> (r: (Mode, u8))
        ensures
            r == (mode_of_mode(self.modifier_bits()), self.key_code()),
    {
        (self.mode(), self.code)
    }

    /// The printable ASCII character of the key, if it is one.
    pub fn ascii(&self) -> (r: Option<char>)
        ensures
            r == ascii_of_mode(self.key_code()),
    {
        if 32 <= self.code && self.code <= 126 {
            Some(self.code as char)
        } else {
            None
        }
    }
}

} // verus!

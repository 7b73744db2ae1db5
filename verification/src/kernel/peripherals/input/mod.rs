//! Keyboard events forwarded by the loader, and what the kernel does with
//! them.

pub mod event;

use vstd::prelude::*;
use crate::bootloader::peripherals::gpio::Pin;
use self::event::{mode_of_mode, Event, Mode};

verus! {

/// The operation mode that the modifier keys select.
#[derive(Copy, Clone, PartialEq, Eq, Debug, Structural)]
pub enum InputMode {
    NoModifier,
    Action,
    Capital,
    Setting,
    Window,
    Advanced,
    Undefined(u8),
}

/// The mode of a set of modifier bits: one of the single modifiers, or
/// setting and capital together for the advanced mode.
pub open spec fn mode_of_inputmode(modifiers: u8) -> InputMode {
    if modifiers == 0 {
        InputMode::NoModifier
    } else if modifiers == 1 {
        InputMode::Action
    } else if modifiers == 2 {
        InputMode::Capital
    } else if modifiers == 4 {
        InputMode::Setting
    } else if modifiers == 8 {
        InputMode::Window
    } else if modifiers == 6 {
        InputMode::Advanced
    } else {
        InputMode::Undefined(modifiers)
    }
}

/// The printable ASCII character of a key code, if it is one.
pub open spec fn ascii_of_inputmode(code: u8) -> Option<char> {
    if 32 <= code <= 126 {
        Some(code as char)
    } else {
        None
    }
}

/// A key press event from the user: which modifiers were held, and the key code.
#[derive(Copy, Clone, PartialEq, Eq, Debug, Structural)]
pub struct InputEvent {
    pub modifiers: u8,
    pub code: u8,
}

impl InputEvent {
    /// The event in a raw 16-bit word: modifier bits in the high byte, key
    /// code in the low byte.
    pub fn from_raw(raw: u16) -> (r: InputEvent)
        ensures
            r.modifiers == raw / 256,
            r.code == raw % 256,
    {
        assert((raw >> 8u16) as u8 == raw / 256) by (bit_vector);
        assert(raw as u8 == raw % 256) by (bit_vector);
        InputEvent { modifiers: (raw >> 8) as u8, code: raw as u8 }
    }

    /// The operation mode of the event's modifier keys.
    pub fn mode(&self) -> (r: InputMode)
        ensures
            r == mode_of_inputmode(self.modifiers),
    {
        match self.modifiers {
            0b00000000 => InputMode::NoModifier,
            0b00000001 => InputMode::Action,
            0b00000010 => InputMode::Capital,
            0b00000100 => InputMode::Setting,
            0b00001000 => InputMode::Window,
            0b00000110 => InputMode::Advanced,
            modifiers => InputMode::Undefined(modifiers),
        }
    }

    /// The mode and the key code, for matching.
    pub fn tupled(&self) -> (r: (InputMode, u8))
        ensures
            r == (mode_of_inputmode(self.modifiers), self.code),
    {
        (self.mode(), self.code)
    }

    /// The printable ASCII character of the key, if it is one.
    pub fn ascii(&self) -> (r: Option<char>)
        ensures
            r == ascii_of_inputmode(self.code),
    {
        if 32 <= self.code && self.code <= 126 {
            Some(self.code as char)
        } else {
            None
        }
    }
}

/// What the kernel does on a key event.
#[derive(Copy, Clone, PartialEq, Eq, Debug, Structural)]
pub enum InputAction {
    /// Restart the device.
    Reboot,
    /// Drive a GPIO line high or low.
    SetState(Pin, bool),
    /// Pulse a GPIO line.
    Pulse(Pin),
}

/// The key bindings: control, shift and q (the advanced mode with `@`)
/// reboot; super and p or o switch header pin 40 on or off; super and
/// i, u, z, t, r, e, w or q pulse header pins 11, 12, 13, 15, 16, 18, 29 or
/// 31.
pub open spec fn binding(mode: Mode, code: u8) -> Option<InputAction> {
    if mode == Mode::Advanced && code == 64 {
        Some(InputAction::Reboot)
    } else if mode != Mode::Window {
        None
    } else if code == 112 {
        Some(InputAction::SetState(Pin::V21, true))
    } else if code == 111 {
        Some(InputAction::SetState(Pin::V21, false))
    } else if code == 105 {
        Some(InputAction::Pulse(Pin::V17))
    } else if code == 117 {
        Some(InputAction::Pulse(Pin::V18))
    } else if code == 122 {
        Some(InputAction::Pulse(Pin::V27))
    } else if code == 116 {
        Some(InputAction::Pulse(Pin::V22))
    } else if code == 114 {
        Some(InputAction::Pulse(Pin::V23))
    } else if code == 101 {
        Some(InputAction::Pulse(Pin::V24))
    } else if code == 119 {
        Some(InputAction::Pulse(Pin::V5))
    } else if code == 113 {
        Some(InputAction::Pulse(Pin::V6))
    } else {
        None
    }
}

/// The key bindings on the modifier bits and key code of an event: with
/// control and shift (bits 6) `@` (64) reboots; with super (bit 8) `p`
/// (112) and `o` (111) switch header pin 40 (line 21) on and off, and `i`,
/// `u`, `z`, `t`, `r`, `e`, `w`, `q` pulse header pins 11, 12, 13, 15, 16,
/// 18, 29, 31 (lines 17, 18, 27, 22, 23, 24, 5, 6); with any other
/// modifiers no key does anything.
pub proof fn lemma_key_bindings(mods: u8, code: u8)
    ensures
        mods == 6 ==> binding(mode_of_mode(mods), code) == (if code == 64 {
            Some(InputAction::Reboot)
        } else {
            None
        }),
        mods == 8 && code == 112 ==> binding(mode_of_mode(mods), code) == Some(InputAction::SetState(Pin::V21, true)),
        mods == 8 && code == 111 ==> binding(mode_of_mode(mods), code) == Some(InputAction::SetState(Pin::V21, false)),
        mods == 8 && code == 105 ==> binding(mode_of_mode(mods), code) == Some(InputAction::Pulse(Pin::V17)),
        mods == 8 && code == 117 ==> binding(mode_of_mode(mods), code) == Some(InputAction::Pulse(Pin::V18)),
        mods == 8 && code == 122 ==> binding(mode_of_mode(mods), code) == Some(InputAction::Pulse(Pin::V27)),
        mods == 8 && code == 116 ==> binding(mode_of_mode(mods), code) == Some(InputAction::Pulse(Pin::V22)),
        mods == 8 && code == 114 ==> binding(mode_of_mode(mods), code) == Some(InputAction::Pulse(Pin::V23)),
        mods == 8 && code == 101 ==> binding(mode_of_mode(mods), code) == Some(InputAction::Pulse(Pin::V24)),
        mods == 8 && code == 119 ==> binding(mode_of_mode(mods), code) == Some(InputAction::Pulse(Pin::V5)),
        mods == 8 && code == 113 ==> binding(mode_of_mode(mods), code) == Some(InputAction::Pulse(Pin::V6)),
        mods == 8 && code != 112 && code != 111 && code != 105 && code != 117 && code != 122 && code
            != 116 && code != 114 && code != 101 && code != 119 && code != 113 ==> binding(
            mode_of_mode(mods),
            code,
        ) is None,
        mods != 6 && mods != 8 ==> binding(mode_of_mode(mods), code) is None,
{
}

/// The action bound to `event`, if any; unbound events are skipped.
pub fn action_for(event: Event) -> (r: Option<InputAction>)
    ensures
        r == binding(mode_of_mode(event.modifier_bits()), event.key_code()),
{
    let (mode, code) = event.tupled();
    match mode {
        Mode::Advanced => {
            if code == 64 {
                Some(InputAction::Reboot)
            } else {
                None
            }
        },
        Mode::Window => {
            if code == 112 {
                Some(InputAction::SetState(Pin::P40, true))
            } else if code == 111 {
                Some(InputAction::SetState(Pin::P40, false))
            } else if code == 105 {
                Some(InputAction::Pulse(Pin::P11))
            } else if code == 117 {
                Some(InputAction::Pulse(Pin::P12))
            } else if code == 122 {
                Some(InputAction::Pulse(Pin::P13))
            } else if code == 116 {
                Some(InputAction::Pulse(Pin::P15))
            } else if code == 114 {
                Some(InputAction::Pulse(Pin::P16))
            } else if code == 101 {
                Some(InputAction::Pulse(Pin::P18))
            } else if code == 119 {
                Some(InputAction::Pulse(Pin::P29))
            } else if code == 113 {
                Some(InputAction::Pulse(Pin::P31))
            } else {
                None
            }
        },
        _ => None,
    }
}

} // verus!

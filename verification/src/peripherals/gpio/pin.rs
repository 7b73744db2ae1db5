//! The GPIO controller: which register values select a pin's function, drive
//! it, or set its pull resistor.
//!
//! The functions compute the register writes; performing them (volatile
//! writes to the controller, and the busy waits between them) is left to the
//! caller.

use vstd::prelude::*;

verus! {

/// The pull resistor of a pin.
#[derive(Copy, Clone, PartialEq, Eq, Debug, Structural)]
pub enum Pull {
    Off,
    Down,
    Up,
}

pub open spec fn pull_number(p: Pull) -> u32 {
    match p {
        Pull::Off => 0,
        Pull::Down => 1,
        Pull::Up => 2,
    }
}

impl Pull {
    pub fn number(&self) -> (r: u32)
        ensures
            r == pull_number(*self),
    {
        match self {
            Pull::Off => 0,
            Pull::Down => 1,
            Pull::Up => 2,
        }
    }
}

/// The function of a pin, in the order of its 3-bit function select code.
#[derive(Copy, Clone, PartialEq, Eq, Debug, Structural)]
pub enum Function {
    Input,
    Output,
    Alternate5,
    Alternate4,
    Alternate0,
    Alternate1,
    Alternate2,
    Alternate3,
}

pub open spec fn function_number(f: Function) -> u32 {
    match f {
        Function::Input => 0,
        Function::Output => 1,
        Function::Alternate5 => 2,
        Function::Alternate4 => 3,
        Function::Alternate0 => 4,
        Function::Alternate1 => 5,
        Function::Alternate2 => 6,
        Function::Alternate3 => 7,
    }
}

impl Function {
    pub fn number(&self) -> (r: u32)
        ensures
            r == function_number(*self),
    {
        match self {
            Function::Input => 0,
            Function::Output => 1,
            Function::Alternate5 => 2,
            Function::Alternate4 => 3,
            Function::Alternate0 => 4,
            Function::Alternate1 => 5,
            Function::Alternate2 => 6,
            Function::Alternate3 => 7,
        }
    }
}

/// The 54 GPIO lines, by BCM number.
#[derive(Copy, Clone, PartialEq, Eq, Debug, Structural)]
pub enum Pin {
    Virtual0,
    Virtual1,
    Virtual2,
    Virtual3,
    Virtual4,
    Virtual5,
    Virtual6,
    Virtual7,
    Virtual8,
    Virtual9,
    Virtual10,
    Virtual11,
    Virtual12,
    Virtual13,
    Virtual14,
    Virtual15,
    Virtual16,
    Virtual17,
    Virtual18,
    Virtual19,
    Virtual20,
    Virtual21,
    Virtual22,
    Virtual23,
    Virtual24,
    Virtual25,
    Virtual26,
    Virtual27,
    Virtual28,
    Virtual29,
    Virtual30,
    Virtual31,
    Virtual32,
    Virtual33,
    Virtual34,
    Virtual35,
    Virtual36,
    Virtual37,
    Virtual38,
    Virtual39,
    Virtual40,
    Virtual41,
    Virtual42,
    Virtual43,
    Virtual44,
    Virtual45,
    Virtual46,
    Virtual47,
    Virtual48,
    Virtual49,
    Virtual50,
    Virtual51,
    Virtual52,
    Virtual53,
}

pub open spec fn pin_number(p: Pin) -> u32 {
    match p {
        Pin::Virtual0 => 0,
        Pin::Virtual1 => 1,
        Pin::Virtual2 => 2,
        Pin::Virtual3 => 3,
        Pin::Virtual4 => 4,
        Pin::Virtual5 => 5,
        Pin::Virtual6 => 6,
        Pin::Virtual7 => 7,
        Pin::Virtual8 => 8,
        Pin::Virtual9 => 9,
        Pin::Virtual10 => 10,
        Pin::Virtual11 => 11,
        Pin::Virtual12 => 12,
        Pin::Virtual13 => 13,
        Pin::Virtual14 => 14,
        Pin::Virtual15 => 15,
        Pin::Virtual16 => 16,
        Pin::Virtual17 => 17,
        Pin::Virtual18 => 18,
        Pin::Virtual19 => 19,
        Pin::Virtual20 => 20,
        Pin::Virtual21 => 21,
        Pin::Virtual22 => 22,
        Pin::Virtual23 => 23,
        Pin::Virtual24 => 24,
        Pin::Virtual25 => 25,
        Pin::Virtual26 => 26,
        Pin::Virtual27 => 27,
        Pin::Virtual28 => 28,
        Pin::Virtual29 => 29,
        Pin::Virtual30 => 30,
        Pin::Virtual31 => 31,
        Pin::Virtual32 => 32,
        Pin::Virtual33 => 33,
        Pin::Virtual34 => 34,
        Pin::Virtual35 => 35,
        Pin::Virtual36 => 36,
        Pin::Virtual37 => 37,
        Pin::Virtual38 => 38,
        Pin::Virtual39 => 39,
        Pin::Virtual40 => 40,
        Pin::Virtual41 => 41,
        Pin::Virtual42 => 42,
        Pin::Virtual43 => 43,
        Pin::Virtual44 => 44,
        Pin::Virtual45 => 45,
        Pin::Virtual46 => 46,
        Pin::Virtual47 => 47,
        Pin::Virtual48 => 48,
        Pin::Virtual49 => 49,
        Pin::Virtual50 => 50,
        Pin::Virtual51 => 51,
        Pin::Virtual52 => 52,
        Pin::Virtual53 => 53,
    }
}

/// The GPIO line on pin `physical` of the 40-pin header, where that pin is
/// a GPIO line.
pub open spec fn header_pin(physical: u32) -> Option<Pin> {
    match physical {
        3 => Some(Pin::Virtual2),
        5 => Some(Pin::Virtual3),
        7 => Some(Pin::Virtual4),
        8 => Some(Pin::Virtual14),
        10 => Some(Pin::Virtual15),
        11 => Some(Pin::Virtual17),
        12 => Some(Pin::Virtual18),
        13 => Some(Pin::Virtual27),
        15 => Some(Pin::Virtual22),
        16 => Some(Pin::Virtual23),
        18 => Some(Pin::Virtual24),
        19 => Some(Pin::Virtual10),
        21 => Some(Pin::Virtual9),
        22 => Some(Pin::Virtual25),
        23 => Some(Pin::Virtual11),
        24 => Some(Pin::Virtual8),
        26 => Some(Pin::Virtual7),
        29 => Some(Pin::Virtual5),
        31 => Some(Pin::Virtual6),
        32 => Some(Pin::Virtual12),
        33 => Some(Pin::Virtual13),
        35 => Some(Pin::Virtual19),
        36 => Some(Pin::Virtual16),
        37 => Some(Pin::Virtual26),
        38 => Some(Pin::Virtual20),
        40 => Some(Pin::Virtual21),
        _ => None,
    }
}

impl Pin {
    pub fn number(&self) -> (r: u32)
        ensures
            r == pin_number(*self),
            r < 54,
    {
        match self {
            Pin::Virtual0 => 0,
            Pin::Virtual1 => 1,
            Pin::Virtual2 => 2,
            Pin::Virtual3 => 3,
            Pin::Virtual4 => 4,
            Pin::Virtual5 => 5,
            Pin::Virtual6 => 6,
            Pin::Virtual7 => 7,
            Pin::Virtual8 => 8,
            Pin::Virtual9 => 9,
            Pin::Virtual10 => 10,
            Pin::Virtual11 => 11,
            Pin::Virtual12 => 12,
            Pin::Virtual13 => 13,
            Pin::Virtual14 => 14,
            Pin::Virtual15 => 15,
            Pin::Virtual16 => 16,
            Pin::Virtual17 => 17,
            Pin::Virtual18 => 18,
            Pin::Virtual19 => 19,
            Pin::Virtual20 => 20,
            Pin::Virtual21 => 21,
            Pin::Virtual22 => 22,
            Pin::Virtual23 => 23,
            Pin::Virtual24 => 24,
            Pin::Virtual25 => 25,
            Pin::Virtual26 => 26,
            Pin::Virtual27 => 27,
            Pin::Virtual28 => 28,
            Pin::Virtual29 => 29,
            Pin::Virtual30 => 30,
            Pin::Virtual31 => 31,
            Pin::Virtual32 => 32,
            Pin::Virtual33 => 33,
            Pin::Virtual34 => 34,
            Pin::Virtual35 => 35,
            Pin::Virtual36 => 36,
            Pin::Virtual37 => 37,
            Pin::Virtual38 => 38,
            Pin::Virtual39 => 39,
            Pin::Virtual40 => 40,
            Pin::Virtual41 => 41,
            Pin::Virtual42 => 42,
            Pin::Virtual43 => 43,
            Pin::Virtual44 => 44,
            Pin::Virtual45 => 45,
            Pin::Virtual46 => 46,
            Pin::Virtual47 => 47,
            Pin::Virtual48 => 48,
            Pin::Virtual49 => 49,
            Pin::Virtual50 => 50,
            Pin::Virtual51 => 51,
            Pin::Virtual52 => 52,
            Pin::Virtual53 => 53,
        }
    }

    /// The GPIO line on pin `physical` of the 40-pin header.
    pub fn physical(physical: u32) -> (r: Option<Pin>)
        ensures
            r == header_pin(physical),
    {
        match physical {
            3 => Some(Pin::Virtual2),
            5 => Some(Pin::Virtual3),
            7 => Some(Pin::Virtual4),
            8 => Some(Pin::Virtual14),
            10 => Some(Pin::Virtual15),
            11 => Some(Pin::Virtual17),
            12 => Some(Pin::Virtual18),
            13 => Some(Pin::Virtual27),
            15 => Some(Pin::Virtual22),
            16 => Some(Pin::Virtual23),
            18 => Some(Pin::Virtual24),
            19 => Some(Pin::Virtual10),
            21 => Some(Pin::Virtual9),
            22 => Some(Pin::Virtual25),
            23 => Some(Pin::Virtual11),
            24 => Some(Pin::Virtual8),
            26 => Some(Pin::Virtual7),
            29 => Some(Pin::Virtual5),
            31 => Some(Pin::Virtual6),
            32 => Some(Pin::Virtual12),
            33 => Some(Pin::Virtual13),
            35 => Some(Pin::Virtual19),
            36 => Some(Pin::Virtual16),
            37 => Some(Pin::Virtual26),
            38 => Some(Pin::Virtual20),
            40 => Some(Pin::Virtual21),
            _ => None,
        }
    }
}

/// Each line carries its BCM number; the function codes and pull codes
/// are those of the GPIO controller (input 0, output 1, alternate
/// functions 0 to 5 as 4, 5, 6, 7, 3, 2; pull off 0, down 1, up 2); and the
/// header pins carry the lines of the Raspberry Pi's 40-pin header, other
/// header pins (power, ground, the ID lines 27 and 28) none.
pub proof fn lemma_gpio_numbering(physical: u32)
    ensures
        pin_number(Pin::Virtual0) == 0,
        pin_number(Pin::Virtual1) == 1,
        pin_number(Pin::Virtual2) == 2,
        pin_number(Pin::Virtual3) == 3,
        pin_number(Pin::Virtual4) == 4,
        pin_number(Pin::Virtual5) == 5,
        pin_number(Pin::Virtual6) == 6,
        pin_number(Pin::Virtual7) == 7,
        pin_number(Pin::Virtual8) == 8,
        pin_number(Pin::Virtual9) == 9,
        pin_number(Pin::Virtual10) == 10,
        pin_number(Pin::Virtual11) == 11,
        pin_number(Pin::Virtual12) == 12,
        pin_number(Pin::Virtual13) == 13,
        pin_number(Pin::Virtual14) == 14,
        pin_number(Pin::Virtual15) == 15,
        pin_number(Pin::Virtual16) == 16,
        pin_number(Pin::Virtual17) == 17,
        pin_number(Pin::Virtual18) == 18,
        pin_number(Pin::Virtual19) == 19,
        pin_number(Pin::Virtual20) == 20,
        pin_number(Pin::Virtual21) == 21,
        pin_number(Pin::Virtual22) == 22,
        pin_number(Pin::Virtual23) == 23,
        pin_number(Pin::Virtual24) == 24,
        pin_number(Pin::Virtual25) == 25,
        pin_number(Pin::Virtual26) == 26,
        pin_number(Pin::Virtual27) == 27,
        pin_number(Pin::Virtual28) == 28,
        pin_number(Pin::Virtual29) == 29,
        pin_number(Pin::Virtual30) == 30,
        pin_number(Pin::Virtual31) == 31,
        pin_number(Pin::Virtual32) == 32,
        pin_number(Pin::Virtual33) == 33,
        pin_number(Pin::Virtual34) == 34,
        pin_number(Pin::Virtual35) == 35,
        pin_number(Pin::Virtual36) == 36,
        pin_number(Pin::Virtual37) == 37,
        pin_number(Pin::Virtual38) == 38,
        pin_number(Pin::Virtual39) == 39,
        pin_number(Pin::Virtual40) == 40,
        pin_number(Pin::Virtual41) == 41,
        pin_number(Pin::Virtual42) == 42,
        pin_number(Pin::Virtual43) == 43,
        pin_number(Pin::Virtual44) == 44,
        pin_number(Pin::Virtual45) == 45,
        pin_number(Pin::Virtual46) == 46,
        pin_number(Pin::Virtual47) == 47,
        pin_number(Pin::Virtual48) == 48,
        pin_number(Pin::Virtual49) == 49,
        pin_number(Pin::Virtual50) == 50,
        pin_number(Pin::Virtual51) == 51,
        pin_number(Pin::Virtual52) == 52,
        pin_number(Pin::Virtual53) == 53,
        function_number(Function::Input) == 0,
        function_number(Function::Output) == 1,
        function_number(Function::Alternate0) == 4,
        function_number(Function::Alternate1) == 5,
        function_number(Function::Alternate2) == 6,
        function_number(Function::Alternate3) == 7,
        function_number(Function::Alternate4) == 3,
        function_number(Function::Alternate5) == 2,
        pull_number(Pull::Off) == 0,
        pull_number(Pull::Down) == 1,
        pull_number(Pull::Up) == 2,
        header_pin(3) == Some(Pin::Virtual2),
        header_pin(5) == Some(Pin::Virtual3),
        header_pin(7) == Some(Pin::Virtual4),
        header_pin(8) == Some(Pin::Virtual14),
        header_pin(10) == Some(Pin::Virtual15),
        header_pin(11) == Some(Pin::Virtual17),
        header_pin(12) == Some(Pin::Virtual18),
        header_pin(13) == Some(Pin::Virtual27),
        header_pin(15) == Some(Pin::Virtual22),
        header_pin(16) == Some(Pin::Virtual23),
        header_pin(18) == Some(Pin::Virtual24),
        header_pin(19) == Some(Pin::Virtual10),
        header_pin(21) == Some(Pin::Virtual9),
        header_pin(22) == Some(Pin::Virtual25),
        header_pin(23) == Some(Pin::Virtual11),
        header_pin(24) == Some(Pin::Virtual8),
        header_pin(26) == Some(Pin::Virtual7),
        header_pin(29) == Some(Pin::Virtual5),
        header_pin(31) == Some(Pin::Virtual6),
        header_pin(32) == Some(Pin::Virtual12),
        header_pin(33) == Some(Pin::Virtual13),
        header_pin(35) == Some(Pin::Virtual19),
        header_pin(36) == Some(Pin::Virtual16),
        header_pin(37) == Some(Pin::Virtual26),
        header_pin(38) == Some(Pin::Virtual20),
        header_pin(40) == Some(Pin::Virtual21),
        !(physical == 3 || physical == 5 || physical == 7 || physical == 8 || physical == 10 || physical == 11 || physical == 12 || physical == 13 || physical == 15 || physical == 16 || physical == 18 || physical == 19 || physical == 21 || physical == 22 || physical == 23 || physical == 24 || physical == 26 || physical == 29 || physical == 31 || physical == 32 || physical == 33 || physical == 35 || physical == 36 || physical == 37 || physical == 38 || physical == 40) ==> header_pin(physical) is None,
{
}

} // verus!

//! The GPIO lines by BCM number, and the header pins that carry them.

use vstd::prelude::*;

pub use crate::peripherals::gpio::pin::{function_number, pull_number, Function, Pull};

verus! {

/// The 54 GPIO lines, by BCM number.
#[derive(Copy, Clone, PartialEq, Eq, Debug, Structural)]
pub enum Pin {
    V0,
    V1,
    V2,
    V3,
    V4,
    V5,
    V6,
    V7,
    V8,
    V9,
    V10,
    V11,
    V12,
    V13,
    V14,
    V15,
    V16,
    V17,
    V18,
    V19,
    V20,
    V21,
    V22,
    V23,
    V24,
    V25,
    V26,
    V27,
    V28,
    V29,
    V30,
    V31,
    V32,
    V33,
    V34,
    V35,
    V36,
    V37,
    V38,
    V39,
    V40,
    V41,
    V42,
    V43,
    V44,
    V45,
    V46,
    V47,
    V48,
    V49,
    V50,
    V51,
    V52,
    V53,
}

pub open spec fn pin_number(p: Pin) -> u32 {
    match p {
        Pin::V0 => 0,
        Pin::V1 => 1,
        Pin::V2 => 2,
        Pin::V3 => 3,
        Pin::V4 => 4,
        Pin::V5 => 5,
        Pin::V6 => 6,
        Pin::V7 => 7,
        Pin::V8 => 8,
        Pin::V9 => 9,
        Pin::V10 => 10,
        Pin::V11 => 11,
        Pin::V12 => 12,
        Pin::V13 => 13,
        Pin::V14 => 14,
        Pin::V15 => 15,
        Pin::V16 => 16,
        Pin::V17 => 17,
        Pin::V18 => 18,
        Pin::V19 => 19,
        Pin::V20 => 20,
        Pin::V21 => 21,
        Pin::V22 => 22,
        Pin::V23 => 23,
        Pin::V24 => 24,
        Pin::V25 => 25,
        Pin::V26 => 26,
        Pin::V27 => 27,
        Pin::V28 => 28,
        Pin::V29 => 29,
        Pin::V30 => 30,
        Pin::V31 => 31,
        Pin::V32 => 32,
        Pin::V33 => 33,
        Pin::V34 => 34,
        Pin::V35 => 35,
        Pin::V36 => 36,
        Pin::V37 => 37,
        Pin::V38 => 38,
        Pin::V39 => 39,
        Pin::V40 => 40,
        Pin::V41 => 41,
        Pin::V42 => 42,
        Pin::V43 => 43,
        Pin::V44 => 44,
        Pin::V45 => 45,
        Pin::V46 => 46,
        Pin::V47 => 47,
        Pin::V48 => 48,
        Pin::V49 => 49,
        Pin::V50 => 50,
        Pin::V51 => 51,
        Pin::V52 => 52,
        Pin::V53 => 53,
    }
}

impl Pin {
    pub const P3: Pin = Pin::V2;
    pub const P5: Pin = Pin::V3;
    pub const P7: Pin = Pin::V4;
    pub const P8: Pin = Pin::V14;
    pub const P10: Pin = Pin::V15;
    pub const P11: Pin = Pin::V17;
    pub const P12: Pin = Pin::V18;
    pub const P13: Pin = Pin::V27;
    pub const P15: Pin = Pin::V22;
    pub const P16: Pin = Pin::V23;
    pub const P18: Pin = Pin::V24;
    pub const P19: Pin = Pin::V10;
    pub const P21: Pin = Pin::V9;
    pub const P22: Pin = Pin::V25;
    pub const P23: Pin = Pin::V11;
    pub const P24: Pin = Pin::V8;
    pub const P26: Pin = Pin::V7;
    pub const P29: Pin = Pin::V5;
    pub const P31: Pin = Pin::V6;
    pub const P32: Pin = Pin::V12;
    pub const P33: Pin = Pin::V13;
    pub const P35: Pin = Pin::V19;
    pub const P36: Pin = Pin::V16;
    pub const P37: Pin = Pin::V26;
    pub const P38: Pin = Pin::V20;
    pub const P40: Pin = Pin::V21;

    pub fn number(&self) -> (r: u32)
        ensures
            r == pin_number(*self),
            r < 54,
    {
        match self {
            Pin::V0 => 0,
            Pin::V1 => 1,
            Pin::V2 => 2,
            Pin::V3 => 3,
            Pin::V4 => 4,
            Pin::V5 => 5,
            Pin::V6 => 6,
            Pin::V7 => 7,
            Pin::V8 => 8,
            Pin::V9 => 9,
            Pin::V10 => 10,
            Pin::V11 => 11,
            Pin::V12 => 12,
            Pin::V13 => 13,
            Pin::V14 => 14,
            Pin::V15 => 15,
            Pin::V16 => 16,
            Pin::V17 => 17,
            Pin::V18 => 18,
            Pin::V19 => 19,
            Pin::V20 => 20,
            Pin::V21 => 21,
            Pin::V22 => 22,
            Pin::V23 => 23,
            Pin::V24 => 24,
            Pin::V25 => 25,
            Pin::V26 => 26,
            Pin::V27 => 27,
            Pin::V28 => 28,
            Pin::V29 => 29,
            Pin::V30 => 30,
            Pin::V31 => 31,
            Pin::V32 => 32,
            Pin::V33 => 33,
            Pin::V34 => 34,
            Pin::V35 => 35,
            Pin::V36 => 36,
            Pin::V37 => 37,
            Pin::V38 => 38,
            Pin::V39 => 39,
            Pin::V40 => 40,
            Pin::V41 => 41,
            Pin::V42 => 42,
            Pin::V43 => 43,
            Pin::V44 => 44,
            Pin::V45 => 45,
            Pin::V46 => 46,
            Pin::V47 => 47,
            Pin::V48 => 48,
            Pin::V49 => 49,
            Pin::V50 => 50,
            Pin::V51 => 51,
            Pin::V52 => 52,
            Pin::V53 => 53,
        }
    }
}

/// Each line carries its BCM number.
pub proof fn lemma_pin_numbers()
    ensures
        pin_number(Pin::V0) == 0,
        pin_number(Pin::V1) == 1,
        pin_number(Pin::V2) == 2,
        pin_number(Pin::V3) == 3,
        pin_number(Pin::V4) == 4,
        pin_number(Pin::V5) == 5,
        pin_number(Pin::V6) == 6,
        pin_number(Pin::V7) == 7,
        pin_number(Pin::V8) == 8,
        pin_number(Pin::V9) == 9,
        pin_number(Pin::V10) == 10,
        pin_number(Pin::V11) == 11,
        pin_number(Pin::V12) == 12,
        pin_number(Pin::V13) == 13,
        pin_number(Pin::V14) == 14,
        pin_number(Pin::V15) == 15,
        pin_number(Pin::V16) == 16,
        pin_number(Pin::V17) == 17,
        pin_number(Pin::V18) == 18,
        pin_number(Pin::V19) == 19,
        pin_number(Pin::V20) == 20,
        pin_number(Pin::V21) == 21,
        pin_number(Pin::V22) == 22,
        pin_number(Pin::V23) == 23,
        pin_number(Pin::V24) == 24,
        pin_number(Pin::V25) == 25,
        pin_number(Pin::V26) == 26,
        pin_number(Pin::V27) == 27,
        pin_number(Pin::V28) == 28,
        pin_number(Pin::V29) == 29,
        pin_number(Pin::V30) == 30,
        pin_number(Pin::V31) == 31,
        pin_number(Pin::V32) == 32,
        pin_number(Pin::V33) == 33,
        pin_number(Pin::V34) == 34,
        pin_number(Pin::V35) == 35,
        pin_number(Pin::V36) == 36,
        pin_number(Pin::V37) == 37,
        pin_number(Pin::V38) == 38,
        pin_number(Pin::V39) == 39,
        pin_number(Pin::V40) == 40,
        pin_number(Pin::V41) == 41,
        pin_number(Pin::V42) == 42,
        pin_number(Pin::V43) == 43,
        pin_number(Pin::V44) == 44,
        pin_number(Pin::V45) == 45,
        pin_number(Pin::V46) == 46,
        pin_number(Pin::V47) == 47,
        pin_number(Pin::V48) == 48,
        pin_number(Pin::V49) == 49,
        pin_number(Pin::V50) == 50,
        pin_number(Pin::V51) == 51,
        pin_number(Pin::V52) == 52,
        pin_number(Pin::V53) == 53,
{
}

} // verus!

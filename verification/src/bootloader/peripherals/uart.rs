//! The mini UART: its setup sequence and the register words that send and
//! receive characters.

use vstd::prelude::*;
use crate::bootloader::peripherals::gpio::{
    fsel_value, set_function, set_pull, Function, GpioRegister, GpioStep, Pin, Pull,
    PULL_SETTLE_CYCLES,
};
use crate::peripherals::gpio::pin::pull_number;

verus! {

/// The clock of the mini UART, in Hz.
pub const UART_CLOCK: u32 = 500000000;

/// The line speed, in bits per second.
pub const BAUD_RATE: u32 = 115200;

/// The registers of the auxiliary peripheral that the mini UART uses.
#[derive(Copy, Clone, PartialEq, Eq, Debug, Structural)]
pub enum UartRegister {
    AuxEnables,
    AuxMuIo,
    AuxMuIer,
    AuxMuIir,
    AuxMuLcr,
    AuxMuMcr,
    AuxMuCntl,
    AuxMuBaud,
}

/// The setup of the mini UART: register writes, then the GPIO steps that
/// route lines 14 and 15 to it, then the write that enables its receiver
/// and transmitter.
pub struct UartSetup {
    pub registers: Vec<(UartRegister, u32)>,
    pub gpio: Vec<GpioStep>,
    pub enable: (UartRegister, u32),
}

/// The baud rate divisor register value: clock / (8 * baud) - 1.
pub open spec fn baud_divisor() -> u32 {
    (UART_CLOCK as int / (BAUD_RATE as int * 8) - 1) as u32
}

/// At the 500 MHz clock, 115200 baud takes the divisor 541.
pub proof fn lemma_baud_divisor()
    ensures
        baud_divisor() == 541,
{
    vstd::arithmetic::div_mod::lemma_fundamental_div_mod_converse(500000000, 921600, 542, 492800);
}

/// The register writes that prepare the mini UART: enable it, clear its
/// interrupts and control, 8-bit mode, clear the FIFOs, set the baud rate
/// divisor.
pub open spec fn setup_registers() -> Seq<(UartRegister, u32)> {
    seq![
        (UartRegister::AuxEnables, 1u32),
        (UartRegister::AuxMuIer, 0u32),
        (UartRegister::AuxMuCntl, 0u32),
        (UartRegister::AuxMuLcr, 3u32),
        (UartRegister::AuxMuMcr, 0u32),
        (UartRegister::AuxMuIer, 0u32),
        (UartRegister::AuxMuIir, 0xC6u32),
        (UartRegister::AuxMuBaud, baud_divisor()),
    ]
}

/// The GPIO steps that give `pin` (line 14 or 15) no pull resistor and
/// select its alternate function 5, given the current value of function
/// select register 1.
pub open spec fn route_pin(pin: Pin, fsel: u32) -> Seq<GpioStep> {
    seq![
        GpioStep::Write(GpioRegister::Pud, pull_number(Pull::Off)),
        GpioStep::Idle(PULL_SETTLE_CYCLES),
        GpioStep::Write(GpioRegister::PudClk(0), if pin == Pin::V14 { 1u32 << 14u32 } else { 1u32 << 15u32 }),
        GpioStep::Idle(PULL_SETTLE_CYCLES),
        GpioStep::Write(GpioRegister::Pud, 0),
        GpioStep::Write(GpioRegister::PudClk(0), 0),
        GpioStep::Write(GpioRegister::Fsel(1), fsel_value(fsel, pin, Function::Alternate5)),
    ]
}

/// The setup sequence of the mini UART: enable it, clear its interrupts and
/// control, 8-bit mode, clear the FIFOs, set the baud rate divisor; route
/// GPIO lines 14 and 15 to it (`fsel1` is the current value of function
/// select register 1, which holds both lines); then enable it.
pub fn initialize(fsel1: u32) -> (r: UartSetup)
    ensures
        r.registers@ == setup_registers(),
        r.gpio@ == route_pin(Pin::V14, fsel1) + route_pin(
            Pin::V15,
            fsel_value(fsel1, Pin::V14, Function::Alternate5),
        ),
        r.enable == (UartRegister::AuxMuCntl, 3u32),
{
    let mut registers: Vec<(UartRegister, u32)> = Vec::new();
    registers.push((UartRegister::AuxEnables, 0x1));
    registers.push((UartRegister::AuxMuIer, 0));
    registers.push((UartRegister::AuxMuCntl, 0));
    registers.push((UartRegister::AuxMuLcr, 0x3));
    registers.push((UartRegister::AuxMuMcr, 0));
    registers.push((UartRegister::AuxMuIer, 0));
    registers.push((UartRegister::AuxMuIir, 0xC6));
    registers.push((UartRegister::AuxMuBaud, (UART_CLOCK / (BAUD_RATE * 8)) - 1));
    let mut gpio = set_pull(Pin::V14, Pull::Off);
    let first = set_function(Pin::V14, Function::Alternate5, fsel1);
    gpio.push(first);
    let mut second_pull = set_pull(Pin::V15, Pull::Off);
    gpio.append(&mut second_pull);
    let fsel1_routed = match first {
        GpioStep::Write(_, value) => value,
        GpioStep::Idle(_) => fsel1,
    };
    gpio.push(set_function(Pin::V15, Function::Alternate5, fsel1_routed));
    assert(registers@ =~= setup_registers());
    assert(gpio@ =~= route_pin(Pin::V14, fsel1) + route_pin(
        Pin::V15,
        fsel_value(fsel1, Pin::V14, Function::Alternate5),
    ));
    UartSetup { registers, gpio, enable: (UartRegister::AuxMuCntl, 0x3) }
}

/// The words to write to the data register, one per wait for room in the
/// transmitter, that send `character`: a carriage return goes before each
/// line feed.
pub fn write_character_blocking(character: char) -> (r: Vec<u32>)
    ensures
        r@ == (if character == '\n' {
            seq!['\r' as u32, '\n' as u32]
        } else {
            seq![character as u32]
        }),
{
    let mut words: Vec<u32> = Vec::new();
    if character == '\n' {
        words.push('\r' as u32);
    }
    words.push(character as u32);
    assert(words@ =~= (if character == '\n' {
        seq!['\r' as u32, '\n' as u32]
    } else {
        seq![character as u32]
    }));
    words
}

/// The character in the word read from the data register once the receiver
/// holds one: its low byte.
pub fn read_character_blocking(io: u32) -> (r: char)
    ensures
        r as u32 == io % 256,
{
    ((io % 256) as u8) as char
}

} // verus!

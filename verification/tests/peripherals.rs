use alb1::bootloader::peripherals::uart::{
    initialize as uart_initialize, read_character_blocking, write_character_blocking,
    UartRegister,
};
use alb1::peripherals::gpio::{
    function_select_register, set_function, set_pull, set_state, Function, GpioRegister, GpioStep,
    Pin, Pull,
};
use alb1::peripherals::interrupts::{enable_interrupt_controller, handle_irq};
use alb1::peripherals::timer::{clear_timer_interrupt, set_timer, Timer};

#[test]
fn function_select_replaces_the_pin_field() {
    assert_eq!(function_select_register(Pin::Virtual14), 1);
    assert_eq!(
        set_function(Pin::Virtual14, Function::Alternate5, 0),
        GpioStep::Write(GpioRegister::Fsel(1), 0x2000)
    );
    assert_eq!(
        set_function(Pin::Virtual21, Function::Output, 0xffff_ffff),
        GpioStep::Write(GpioRegister::Fsel(2), 0xffff_ffcf)
    );
}

#[test]
fn set_state_banks() {
    assert_eq!(set_state(Pin::Virtual5, true), GpioStep::Write(GpioRegister::OutputSet(0), 32));
    assert_eq!(set_state(Pin::Virtual40, false), GpioStep::Write(GpioRegister::OutputClear(1), 256));
    assert_eq!(set_state(Pin::Virtual31, false), GpioStep::Write(GpioRegister::OutputClear(0), 1 << 31));
}

#[test]
fn set_pull_sequence() {
    assert_eq!(
        set_pull(Pin::Virtual15, Pull::Up),
        vec![
            GpioStep::Write(GpioRegister::Pud, 2),
            GpioStep::Idle(150),
            GpioStep::Write(GpioRegister::PudClk(0), 1 << 15),
            GpioStep::Idle(150),
            GpioStep::Write(GpioRegister::Pud, 0),
            GpioStep::Write(GpioRegister::PudClk(0), 0),
        ]
    );
}

#[test]
fn physical_header_pins() {
    assert_eq!(Pin::physical(40), Some(Pin::Virtual21));
    assert_eq!(Pin::physical(8), Some(Pin::Virtual14));
    assert_eq!(Pin::physical(1), None);
}

#[test]
fn timer_compare_and_acknowledge() {
    assert_eq!(set_timer(Timer::Timer3, 4, 0xFFFF_FFF0), (2, 3_999_984));
    assert_eq!(set_timer(Timer::Timer1, 2, 100), (0, 2_000_100));
    assert_eq!(clear_timer_interrupt(Timer::Timer3, 0b0001), 0b0101);
    assert_eq!(clear_timer_interrupt(Timer::Timer1, 0), 1);
}

#[test]
fn interrupt_controller() {
    assert_eq!(enable_interrupt_controller(), (0, 10));
    assert_eq!(handle_irq(0b1010), vec![(Timer::Timer1, 2), (Timer::Timer3, 4)]);
    assert_eq!(handle_irq(0b0010), vec![(Timer::Timer1, 2)]);
    assert_eq!(handle_irq(0b0101), vec![]);
}

#[test]
fn uart_setup_sequence() {
    let setup = uart_initialize(0);
    assert_eq!(setup.registers.len(), 8);
    assert_eq!(setup.registers[0], (UartRegister::AuxEnables, 1));
    assert_eq!(setup.registers[7], (UartRegister::AuxMuBaud, 541));
    assert_eq!(setup.gpio.len(), 14);
    assert_eq!(setup.gpio[6], GpioStep::Write(GpioRegister::Fsel(1), 0x2000));
    assert_eq!(setup.gpio[13], GpioStep::Write(GpioRegister::Fsel(1), 0x12000));
    assert_eq!(setup.enable, (UartRegister::AuxMuCntl, 3));
}

#[test]
fn uart_characters() {
    assert_eq!(write_character_blocking('\n'), vec![13, 10]);
    assert_eq!(write_character_blocking('a'), vec![97]);
    assert_eq!(read_character_blocking(0x141), 'A');
}

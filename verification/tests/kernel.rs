use alb1::bootloader::peripherals::gpio::Pin;
use alb1::kernel::peripherals::gpio::{idle, set_function, Function, GpioRegister, GpioStep};
use alb1::kernel::graphics::framebuffer::{initialize as initialize_graphics, pitch_letter, setup_letter, size_letter};
use alb1::kernel::peripherals::initialize;
use alb1::kernel::peripherals::input::event::{Event, Mode};
use alb1::kernel::peripherals::input::{action_for, InputAction, InputEvent, InputMode};
use alb1::kernel::peripherals::mailman::{pop, push, push_tag, Channel, Letter, MailboxTag};

#[test]
fn letter_tags_and_lookup() {
    let mut letter = Letter::new();
    letter.clear_tags();
    letter.push_tag(MailboxTag::SetPowerState, &[130, 0]);
    letter.push_end_tag();
    let words = letter.buffer().clone();
    assert_eq!(&words[0..8], &[32, 0, 0x38041, 8, 0, 130, 0, 0]);
    assert_eq!(letter.tag_index(MailboxTag::SetPowerState), Some(2));
    assert_eq!(letter.send(Channel::Tags, 0x1000), 0x1008);
    assert!(letter.receive(0x1008, 0x1000));
    assert!(!letter.receive(0x2008, 0x1000));
    letter.clear();
    assert_eq!(letter.buffer()[0], 0);
}

#[test]
fn letter_push_from_cleared_size_word() {
    let mut letter = Letter::new();
    letter.push(7);
    // slot 0 receives the word, which then grows by four
    assert_eq!(letter.buffer()[0], 11);
}

#[test]
fn kernel_setup() {
    let (letter, pins) = initialize();
    let mut letter = letter;
    assert_eq!(letter.buffer()[2], 0x38041);
    assert_eq!(pins.len(), 9);
    assert_eq!(pins[0], (Pin::P40, Function::Output));
    assert_eq!(pins[8], (Pin::P31, Function::Output));
    idle();
}

#[test]
fn kernel_function_select_writes_twice() {
    let (first, second) = set_function(Pin::V21, Function::Output, 0xffff_ffff);
    assert_eq!(first, GpioStep::Write(GpioRegister::Fsel(2), 0xffff_ffc7));
    assert_eq!(second, GpioStep::Write(GpioRegister::Fsel(2), 0xffff_ffcf));
}

#[test]
fn events_decode_and_bind() {
    let e = Event::from_u16(0x0870);
    assert_eq!(e.tupled(), (Mode::Window, b'p'));
    assert_eq!(e.ascii(), Some('p'));
    assert_eq!(action_for(e), Some(InputAction::SetState(Pin::P40, true)));
    assert_eq!(action_for(Event::from_u16(0x0640)), Some(InputAction::Reboot));
    assert_eq!(action_for(Event::from_u16(0x0869)), Some(InputAction::Pulse(Pin::P11)));
    assert_eq!(action_for(Event::from_u16(0x0070)), None);
    assert_eq!(Event::from_u16(0x0000).mode(), Mode::NoModifier);
    assert_eq!(Event::from_u16(0x0141).mode(), Mode::Action);
    assert_eq!(Event::from_u16(0x0a41).mode(), Mode::Undefined(10));
    assert_eq!(Event::from_u16(0x001f).ascii(), None);
}

#[test]
fn input_events_decode() {
    let e = InputEvent::from_raw(0x0341);
    assert_eq!(e.modifiers, 3);
    assert_eq!(e.code, 0x41);
    assert_eq!(e.mode(), InputMode::Undefined(3));
    assert_eq!(e.ascii(), Some('A'));
    assert_eq!(InputEvent::from_raw(0x0420).tupled(), (InputMode::Setting, 32));
    assert_eq!(InputEvent::from_raw(0x027f).ascii(), None);
    assert_eq!(InputEvent::from_raw(0x0200).mode(), InputMode::Capital);
}

#[test]
fn free_mailbox_words() {
    assert_eq!(push(Channel::Tags, 0x1000), 0x1008);
    assert_eq!(pop(Channel::Tags, 0x2008), Some(0x2000));
    assert_eq!(pop(Channel::Tags, 0x2001), None);
    let mut buffer = vec![7u32; 32];
    push_tag(&mut buffer, &[0x48003, 8, 0]);
    assert_eq!(&buffer[0..7], &[24, 0, 0x48003, 8, 0, 0, 7]);
    assert_eq!(buffer[31], 7);
}

#[test]
fn kernel_framebuffer_letters_and_answers() {
    let mut size = size_letter();
    assert_eq!(&size.buffer()[0..8], &[32, 0, 0x40003, 8, 0, 0, 0, 0]);
    size.buffer()[5] = 640;
    size.buffer()[6] = 480;
    let mut setup = setup_letter(&mut size);
    assert_eq!(setup.buffer()[0], 88);
    assert_eq!(&setup.buffer()[2..7], &[0x48003, 8, 8, 640, 480]);
    assert_eq!(&setup.buffer()[7..12], &[0x48004, 8, 8, 640, 480]);
    assert_eq!(&setup.buffer()[12..16], &[0x48005, 4, 4, 16]);
    assert_eq!(&setup.buffer()[16..22], &[0x40001, 8, 4, 16, 0, 0]);
    assert!(setup.holds_value(MailboxTag::AllocateFramebuffer, 1));
    setup.buffer()[19] = 0xC010_0000;
    let mut pitch = pitch_letter();
    assert_eq!(&pitch.buffer()[0..7], &[28, 0, 0x40008, 4, 0, 0, 0]);
    pitch.buffer()[5] = 1280;
    let frame = initialize_graphics(&mut size, &mut setup, &mut pitch);
    assert_eq!((frame.base, frame.pitch, frame.width, frame.height), (0x10_0000, 1280, 640, 480));
}

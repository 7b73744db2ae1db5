use alb1::peripherals::mailbox::{
    AlphaMode, Channel, FramebufferSize, MailboxTag, MemoryLayout, Message, OnBoardLed,
};

#[test]
fn new_message_holds_only_the_header() {
    let m = Message::<8>::new();
    assert_eq!(m.words().clone(), vec![8, 0, 0, 0, 0, 0, 0, 0]);
}

#[test]
fn requests_append_tag_words() {
    let mut m = Message::<16>::new();
    m.get_firmware_version_request();
    m.set_led_status_request(OnBoardLed::Power, false);
    m.finalize_send_receive();
    let w = m.words().clone();
    // size: header 2 + (3 + 1) + (3 + 2) + end tag 1 = 12 words
    assert_eq!(w[0], 48);
    assert_eq!(&w[2..6], &[0x00001, 4, 0, 0]);
    assert_eq!(&w[6..11], &[0x38041, 8, 8, 130, 1]);
    assert_eq!(w[11], 0);
}

#[test]
fn led_hardware_state_inverts_power_led() {
    assert_eq!(OnBoardLed::Status.status_to_hardware_state(true), 1);
    assert_eq!(OnBoardLed::Status.status_to_hardware_state(false), 0);
    assert_eq!(OnBoardLed::Power.status_to_hardware_state(true), 0);
    assert_eq!(OnBoardLed::Power.status_to_hardware_state(false), 1);
    assert_eq!(OnBoardLed::Status.number(), 42);
    assert_eq!(OnBoardLed::Power.number(), 130);
}

#[test]
fn layout_table() {
    assert_eq!(MailboxTag::GetBoardSerial.layout(), (0x10004, 0, 8));
    assert_eq!(MailboxTag::GetTemperature.layout(), (0x30006, 4, 8));
    assert_eq!(MailboxTag::SetVirtualOffset.layout(), (0x48009, 8, 8));
}

#[test]
fn responses_read_the_value_buffers() {
    let mut m = Message::<32>::new();
    m.get_board_serial_request();
    m.get_arm_memory_request();
    m.get_framebuffer_size_request();
    m.set_alpha_mode_request(AlphaMode::Ignored);
    m.get_temperature_request();
    m.finalize_send_receive();
    let mut response = m.words().clone();
    response[1] = 0x8000_0000;
    // serial at 2: value words 5, 6
    response[5] = 0xdead_beef;
    response[6] = 0x0000_0012;
    // arm memory at 7: value words 10, 11
    response[10] = 0x1000;
    response[11] = 0x3b00_0000;
    // framebuffer size at 12: value words 15, 16
    response[15] = 1920;
    response[16] = 1080;
    // alpha mode at 17: value word 20
    response[20] = 1;
    // temperature at 21: value words 24, 25
    response[25] = 47_000;
    m.store_response(&response);
    assert_eq!(m.get_board_serial_response(), 0x0000_0012_dead_beef);
    assert_eq!(m.get_arm_memory_response(), MemoryLayout { address: 0x1000, size: 0x3b00_0000 });
    assert_eq!(m.get_framebuffer_size_response(), FramebufferSize { width: 1920, height: 1080 });
    assert_eq!(m.set_alpha_mode_response(), AlphaMode::Transparent);
    assert_eq!(m.get_temperature_response(), 47_000);
}

#[test]
fn size_responses_on_mut_messages() {
    let mut m = Message::<16>::new();
    m.set_physical_size_request(FramebufferSize { width: 640, height: 480 });
    m.finalize_send_receive();
    assert_eq!(m.set_physical_size_response(), FramebufferSize { width: 640, height: 480 });
}

#[test]
fn mailbox_words_and_replies() {
    let m = Message::<8>::new();
    assert_eq!(m.send_word(Channel::Tags, 0x0008_0000), 0x0008_0008);
    assert!(Message::<8>::is_reply_for(Channel::Tags, 0x0008_0008));
    assert!(!Message::<8>::is_reply_for(Channel::Tags, 0x0008_0001));
    assert!(!m.reply_accepted(0x0008_0008, 0x0008_0000));
    let mut done = Message::<8>::new();
    let mut response = done.words().clone();
    response[1] = 0x8000_0000;
    done.store_response(&response);
    assert!(done.reply_accepted(0x0008_0008, 0x0008_0000));
    assert!(!done.reply_accepted(0x0009_0008, 0x0008_0000));
}

#[test]
fn holds_value_follows_the_tag_walk() {
    let mut m = Message::<16>::new();
    m.get_framebuffer_size_request();
    m.finalize_send_receive();
    assert!(m.holds_value(MailboxTag::GetFramebufferSize, 2));
    assert!(!m.holds_value(MailboxTag::GetBoardModel, 1));
    // the size tag's values start at word 5; the message ends at word 16
    assert!(m.holds_value(MailboxTag::GetFramebufferSize, 11));
    assert!(!m.holds_value(MailboxTag::GetFramebufferSize, 12));
    let empty = Message::<4>::new();
    assert!(!empty.holds_value(MailboxTag::GetFramebufferSize, 0));
}

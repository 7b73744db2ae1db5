use alb1::loader::common::{
    select_image, Channel, ConfigLine, Context, LoadMode, LoaderError, ParameterParser, Step,
};
use alb1::loader::input::{
    Action, InputEvent, InputHandler, KeyState, Modifier, Translation, TranslationError,
    TranslationLine,
};
use alb1::loader::serial::{transmission_header, transmit_size};
use alb1::loader::text::{parse_unsigned, split_whitespace};

fn strings(words: &[&str]) -> Vec<String> {
    words.iter().map(|w| w.to_string()).collect()
}

#[test]
fn channels() {
    assert_eq!(Channel::from_raw("beta"), Channel::Beta);
    assert_eq!(Channel::named("none"), Some(Channel::NoChannel));
    assert_eq!(Channel::named("alpha"), None);
    assert_eq!(Channel::Nightly.suffix(), ".nightly");
    assert_eq!(Channel::NoChannel.suffix(), "");
}

#[test]
fn text_helpers() {
    assert_eq!(split_whitespace("  :image  kernel.img\t:use 1 "), strings(&[":image", "kernel.img", ":use", "1"]));
    assert_eq!(split_whitespace(""), Vec::<String>::new());
    assert_eq!(parse_unsigned("+42", 255), Some(42));
    assert_eq!(parse_unsigned("256", 255), None);
    assert_eq!(parse_unsigned("4a", 255), None);
    assert_eq!(parse_unsigned("+", 255), None);
    assert_eq!(parse_unsigned("0007", 255), Some(7));
}

fn run_config(line: &str, context: &mut Context, prefix: &mut String) -> Result<Vec<String>, LoaderError> {
    let mut nested = Vec::new();
    if let Some(mut l) = ConfigLine::new(line) {
        loop {
            match l.step(context, prefix)? {
                Step::Continue => {},
                Step::ParseConfig(f) => nested.push(f),
                Step::Done => break,
            }
        }
    }
    Ok(nested)
}

#[test]
fn config_lines() {
    let mut context = Context::new();
    let mut prefix = String::new();
    assert_eq!(run_config("# comment :image x", &mut context, &mut prefix), Ok(vec![]));
    let nested = run_config(":prefix boot/ :image kernel :serial /dev/ttyUSB0 :channel beta :config more.cfg :instant enable",
        &mut context, &mut prefix).unwrap();
    assert_eq!(nested, strings(&["more.cfg"]));
    assert_eq!(context.images, strings(&["boot/kernel"]));
    assert_eq!(context.serial_device_path, "/dev/ttyUSB0");
    assert_eq!(context.channel, Channel::Beta);
    assert!(context.instant_load);
    run_config(":assign 3232235777 0", &mut context, &mut prefix).unwrap();
    run_config(":assign 3232235778 1 nightly", &mut context, &mut prefix).unwrap();
    match &context.load_mode {
        LoadMode::Listed(list) => assert_eq!(list, &vec![(3232235777, 0, Channel::Beta), (3232235778, 1, Channel::Nightly)]),
        LoadMode::Indexed(_) => panic!("expected a list"),
    }
    run_config(":use 2", &mut context, &mut prefix).unwrap();
    assert!(matches!(context.load_mode, LoadMode::Indexed(2)));
    assert_eq!(run_config(":image", &mut context, &mut prefix), Err(LoaderError::MissingImage));
    assert_eq!(run_config(":bogus x", &mut context, &mut prefix), Err(LoaderError::UnsupportedSetting(0)));
    assert_eq!(run_config(":channel alpha", &mut context, &mut prefix), Err(LoaderError::UnknownChannel(1)));
    assert_eq!(run_config(":instant maybe", &mut context, &mut prefix), Err(LoaderError::BadInstantValue(1)));
    assert_eq!(run_config(":use x", &mut context, &mut prefix), Err(LoaderError::BadIndex));
    assert_eq!(run_config(":assign 1", &mut context, &mut prefix), Err(LoaderError::MissingImageIndex));
    // the word after an index is always taken as the assignment's channel
    assert_eq!(run_config(":assign 1 0 :assign 2 1", &mut context, &mut prefix), Err(LoaderError::UnknownChannel(3)));
}

#[test]
fn command_line() {
    let mut context = Context::new();
    let mut prefix = String::new();
    let mut parser = ParameterParser::new(strings(&["loader", "-p", "img/", "a.bin", "-r", "stable", "-u", "0", "-c", "x.cfg", "-i", "-s", "/dev/tty"]));
    let mut configs = Vec::new();
    loop {
        match parser.step(&mut context, &mut prefix).unwrap() {
            Step::Continue => {},
            Step::ParseConfig(f) => configs.push(f),
            Step::Done => break,
        }
    }
    assert_eq!(configs, strings(&["x.cfg"]));
    assert_eq!(context.images, strings(&["img/a.bin"]));
    assert_eq!(context.channel, Channel::Stable);
    assert!(context.instant_load);
    assert_eq!(context.serial_device_path, "/dev/tty");
    assert_eq!(context.finish(), Ok(()));
    assert_eq!(select_image(&context).unwrap(), "img/a.bin.stable");

    let mut bad = ParameterParser::new(strings(&["loader", "-x"]));
    assert!(matches!(bad.step(&mut Context::new(), &mut String::new()), Err(LoaderError::InvalidFlag(1))));
    let empty = Context::new();
    assert_eq!(empty.finish(), Err(LoaderError::NoImages));
    assert_eq!(select_image(&empty).unwrap_err(), LoaderError::ImageIndexOutOfRange);
}

#[test]
fn transmission_framing() {
    assert_eq!(transmit_size(0x0102_0304), [1, 2, 3, 4]);
    assert_eq!(transmission_header(258), vec![b'!', 0, 0, 1, 2]);
}

#[test]
fn key_names() {
    assert_eq!(KeyState::from_u8(2), Some(KeyState::Repeat));
    assert_eq!(KeyState::from_u8(3), None);
    assert_eq!(Modifier::from_slice("control"), Modifier::Control);
    assert_eq!(Modifier::named("none"), None);
    assert_eq!(Modifier::Function.bits(), 32);
    assert_eq!(InputEvent::from_u8(1), Some(InputEvent::Keyboard));
    assert_eq!(InputEvent::from_u8(4), None);
}

fn translate(lines: &[&str]) -> Result<Translation, TranslationError> {
    let mut translation = Translation::new();
    for line in lines {
        if let Some(mut l) = TranslationLine::new(line) {
            while l.has_next() {
                l.step(&mut translation)?;
            }
        }
    }
    Ok(translation)
}

fn record(keycode: u8, state: u8) -> Vec<u8> {
    let mut r = vec![0u8; 24];
    r[16] = 1;
    r[18] = keycode;
    r[20] = state;
    r
}

#[test]
fn translation_file_and_events() {
    let t = translate(&[":device /dev/input/event0", "30 press ba bA b\u{1}", "* press 98", "42 set shift", "29 set control", "58 toggle capslock"]).unwrap();
    assert_eq!(t.device_path, Some("/dev/input/event0".to_string()));
    assert_eq!(t.translation_table[30], Action::Press(Some(b'a'), Some(b'A'), Some(1)));
    assert_eq!(t.translation_table[31], Action::Press(Some(98), None, None));
    assert_eq!(t.translation_table[42], Action::Hold(Modifier::Shift));
    assert_eq!(t.translation_table[58], Action::Toggle(Modifier::Capslock));

    let mut handler = InputHandler::new(t.translation_table);
    assert_eq!(handler.read_event(&record(30, 1)), Some((0, b'a')));
    assert_eq!(handler.read_event(&record(30, 0)), None);
    assert_eq!(handler.read_event(&record(42, 1)), None);
    assert_eq!(handler.modifiers, 2);
    assert_eq!(handler.read_event(&record(30, 2)), Some((2, b'A')));
    assert_eq!(handler.read_event(&record(29, 1)), None);
    assert_eq!(handler.read_event(&record(30, 1)), Some((6, 1)));
    assert_eq!(handler.read_event(&record(42, 0)), None);
    assert_eq!(handler.read_event(&record(29, 0)), None);
    assert_eq!(handler.modifiers, 0);
    assert_eq!(handler.read_event(&record(58, 1)), None);
    assert_eq!(handler.read_event(&record(58, 1)), None);
    assert_eq!(handler.modifiers, 0);
    let mut not_keyboard = record(30, 1);
    not_keyboard[16] = 2;
    assert_eq!(handler.read_event(&not_keyboard), None);

    assert_eq!(translate(&["30 jump"]).err(), Some(TranslationError::UndefinedAction(1)));
    assert_eq!(translate(&["300 press 1"]).err(), Some(TranslationError::BadKeycode(0)));
    assert_eq!(translate(&["200 press 1"]).err(), Some(TranslationError::KeycodeOutsideTable));
    assert_eq!(translate(&["30 set hyper"]).err(), Some(TranslationError::UnknownModifier(2)));
    assert_eq!(translate(&["30 press b"]).err(), Some(TranslationError::MissingCharacter(2)));
}

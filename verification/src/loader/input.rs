//! The loader's keyboard translation: Linux input event records in, key
//! presses with the held modifiers out, following a translation table read
//! from a file of lines such as `30 press ba bA` or `42 set shift`.
//!
//! Reading the device and the translation file is left to the caller, which
//! feeds each 24-byte record to `InputHandler::read_event` and each line of
//! the file to a `TranslationLine`.

use vstd::prelude::*;
use vstd::string::StrSliceExecFns;
use crate::loader::text::{lemma_parsed_in_range, parse_unsigned, parsed_unsigned, split_whitespace, str_equal, words_of};

verus! {

/// The state of a key in a Linux keyboard event.
#[derive(Copy, Clone, PartialEq, Eq, Debug, Structural)]
pub enum KeyState {
    Release,
    Press,
    Repeat,
}

pub open spec fn key_state_of(value: u8) -> Option<KeyState> {
    if value == 0 {
        Some(KeyState::Release)
    } else if value == 1 {
        Some(KeyState::Press)
    } else if value == 2 {
        Some(KeyState::Repeat)
    } else {
        None
    }
}

impl KeyState {
    pub fn from_u8(value: u8) -> (r: Option<KeyState>)
        ensures
            r == key_state_of(value),
    {
        match value {
            0 => Some(KeyState::Release),
            1 => Some(KeyState::Press),
            2 => Some(KeyState::Repeat),
            _ => None,
        }
    }
}

/// The modifier keys, each one bit of the modifier state.
#[derive(Copy, Clone, PartialEq, Eq, Debug, Structural)]
pub enum Modifier {
    NoModifier,
    Capslock,
    Shift,
    Control,
    Super,
    Alternative,
    Function,
}

pub open spec fn modifier_bits(m: Modifier) -> u8 {
    match m {
        Modifier::NoModifier => 0,
        Modifier::Capslock => 1,
        Modifier::Shift => 2,
        Modifier::Control => 4,
        Modifier::Super => 8,
        Modifier::Alternative => 16,
        Modifier::Function => 32,
    }
}

/// The modifier a word names.
pub open spec fn modifier_named(s: Seq<char>) -> Option<Modifier> {
    if s == "capslock"@ {
        Some(Modifier::Capslock)
    } else if s == "shift"@ {
        Some(Modifier::Shift)
    } else if s == "control"@ {
        Some(Modifier::Control)
    } else if s == "super"@ {
        Some(Modifier::Super)
    } else if s == "alternative"@ {
        Some(Modifier::Alternative)
    } else if s == "function"@ {
        Some(Modifier::Function)
    } else {
        None
    }
}

impl Modifier {
    pub fn bits(&self) -> (r: u8)
        ensures
            r == modifier_bits(*self),
    {
        match self {
            Modifier::NoModifier => 0,
            Modifier::Capslock => 1,
            Modifier::Shift => 2,
            Modifier::Control => 4,
            Modifier::Super => 8,
            Modifier::Alternative => 16,
            Modifier::Function => 32,
        }
    }

    /// The modifier `source` names, if any.
    pub fn named(source: &str) -> (r: Option<Modifier>)
        ensures
            r == modifier_named(source@),
    {
        if str_equal(source, "capslock") {
            Some(Modifier::Capslock)
        } else if str_equal(source, "shift") {
            Some(Modifier::Shift)
        } else if str_equal(source, "control") {
            Some(Modifier::Control)
        } else if str_equal(source, "super") {
            Some(Modifier::Super)
        } else if str_equal(source, "alternative") {
            Some(Modifier::Alternative)
        } else if str_equal(source, "function") {
            Some(Modifier::Function)
        } else {
            None
        }
    }

    /// The modifier `source` names; it must name one.
    pub fn from_slice(source: &str) -> (r: Modifier)
        requires
            modifier_named(source@) is Some,
        ensures
            modifier_named(source@) == Some(r),
    {
        Self::named(source).unwrap()
    }
}

/// The kind of a Linux input event record.
#[derive(Copy, Clone, PartialEq, Eq, Debug, Structural)]
pub enum InputEvent {
    Keyboard,
}

impl InputEvent {
    pub fn from_u8(value: u8) -> (r: Option<InputEvent>)
        ensures
            r == (if value == 1 {
                Some(InputEvent::Keyboard)
            } else {
                None
            }),
    {
        match value {
            1 => Some(InputEvent::Keyboard),
            _ => None,
        }
    }
}

/// What a key does: send a character (plain, with shift, with shift and
/// control), toggle a modifier on each press, hold a modifier while
/// pressed, or nothing.
#[derive(Copy, Clone, PartialEq, Eq, Debug, Structural)]
pub enum Action {
    Press(Option<u8>, Option<u8>, Option<u8>),
    Toggle(Modifier),
    Hold(Modifier),
    Drop,
}

/// The modifier state after a record, and the key press it yields: for a
/// keyboard record with a known key state, the key's action decides. A
/// press or repeat of a character key yields the character for the held
/// modifiers (the shift-and-control character, else the shift character,
/// else the plain one, as far as they are given); a toggle key flips its
/// modifier on press; a set key holds its modifier from press to release.
pub open spec fn record_outcome(table: Seq<Action>, modifiers: u8, record: Seq<u8>) -> (u8, Option<(u8, u8)>) {
    if record[16] != 1 {
        (modifiers, None)
    } else {
        match key_state_of(record[20]) {
            None => (modifiers, None),
            Some(state) => match table[record[18] as int] {
                Action::Press(character, capital, extra) => {
                    if state == KeyState::Release {
                        (modifiers, None)
                    } else if modifiers & 2 != 0 && modifiers & 4 != 0 && extra is Some {
                        (modifiers, Some((modifiers, extra->0)))
                    } else if modifiers & 2 != 0 && capital is Some {
                        (modifiers, Some((modifiers, capital->0)))
                    } else if character is Some {
                        (modifiers, Some((modifiers, character->0)))
                    } else {
                        (modifiers, None)
                    }
                },
                Action::Toggle(m) => if state == KeyState::Press {
                    (modifiers ^ modifier_bits(m), None)
                } else {
                    (modifiers, None)
                },
                Action::Hold(m) => if state == KeyState::Release {
                    (modifiers & !modifier_bits(m), None)
                } else if state == KeyState::Press {
                    (modifiers | modifier_bits(m), None)
                } else {
                    (modifiers, None)
                },
                Action::Drop => (modifiers, None),
            },
        }
    }
}

/// The record names a key inside the translation table, where it is read.
pub open spec fn record_in_table(record: Seq<u8>) -> bool {
    record[16] == 1 && key_state_of(record[20]) is Some ==> record[18] < 128
}

/// The keyboard translation: the action of each of the 128 key codes, and
/// the modifiers held.
pub struct InputHandler {
    pub translation_table: Vec<Action>,
    pub modifiers: u8,
}

impl InputHandler {
    /// A handler with the given table and no modifier held.
    pub fn new(translation_table: Vec<Action>) -> (r: InputHandler)
        ensures
            r.translation_table == translation_table,
            r.modifiers == 0,
    {
        InputHandler { translation_table, modifiers: 0 }
    }

    /// Handles one 24-byte event record: updates the held modifiers and
    /// returns the key press (modifiers, character) it yields, if any.
    pub fn read_event(&mut self, record: &[u8]) -> (r: Option<(u8, u8)>)
        requires
            record@.len() >= 24,
            old(self).translation_table@.len() == 128,
            record_in_table(record@),
        ensures
            final(self).translation_table == old(self).translation_table,
            (final(self).modifiers, r) == record_outcome(
                old(self).translation_table@,
                old(self).modifiers,
                record@,
            ),
    {
        match InputEvent::from_u8(record[16]) {
            None => None,
            Some(InputEvent::Keyboard) => {
                let keycode = record[18];
                let key_state = match KeyState::from_u8(record[20]) {
                    Some(state) => state,
                    None => return None,
                };
                match self.translation_table[keycode as usize] {
                    Action::Press(character, capital, extra) => {
                        match key_state {
                            KeyState::Press | KeyState::Repeat => {
                                if self.modifiers & 2 != 0 {
                                    if self.modifiers & 4 != 0 {
                                        if let Some(extra) = extra {
                                            return Some((self.modifiers, extra));
                                        }
                                    }
                                    if let Some(capital) = capital {
                                        return Some((self.modifiers, capital));
                                    }
                                }
                                if let Some(character) = character {
                                    return Some((self.modifiers, character));
                                }
                                None
                            },
                            _ => None,
                        }
                    },
                    Action::Toggle(modifier) => {
                        match key_state {
                            KeyState::Press => {
                                self.modifiers = self.modifiers ^ modifier.bits();
                            },
                            _ => {},
                        }
                        None
                    },
                    Action::Hold(modifier) => {
                        match key_state {
                            KeyState::Release => {
                                self.modifiers = self.modifiers & !modifier.bits();
                            },
                            KeyState::Press => {
                                self.modifiers = self.modifiers | modifier.bits();
                            },
                            _ => {},
                        }
                        None
                    },
                    Action::Drop => None,
                }
            },
        }
    }
}

/// Pressing a toggle key twice leaves the modifiers as they were; pressing
/// and releasing a set key leaves its modifier released and the other
/// modifiers as they were.
pub proof fn lemma_modifier_keys(modifiers: u8, m: Modifier)
    ensures
        (modifiers ^ modifier_bits(m)) ^ modifier_bits(m) == modifiers,
        (modifiers | modifier_bits(m)) & !modifier_bits(m) == modifiers & !modifier_bits(m),
{
    let b = modifier_bits(m);
    assert((modifiers ^ b) ^ b == modifiers) by (bit_vector);
    assert((modifiers | b) & !b == modifiers & !b) by (bit_vector);
}

/// The modifiers are the bits of the modifier byte sent with each key:
/// caps lock 1, shift 2, control 4, super 8, alternative 16, function 32.
pub proof fn lemma_modifier_bit_values()
    ensures
        modifier_bits(Modifier::NoModifier) == 0,
        modifier_bits(Modifier::Capslock) == 1,
        modifier_bits(Modifier::Shift) == 2,
        modifier_bits(Modifier::Control) == 4,
        modifier_bits(Modifier::Super) == 8,
        modifier_bits(Modifier::Alternative) == 16,
        modifier_bits(Modifier::Function) == 32,
{
}

/// What one keyboard record (type byte 16 is 1; value byte 20 is 0 for a
/// release, 1 for a press, 2 for a repeat; byte 18 is the key code) does
/// with the key's action, given the held modifiers `mods`:
/// - a toggle key flips its modifier's bit on a press only; a release or a
///   repeat leaves the modifiers as they were;
/// - a hold key sets its bit on a press and clears it on a release;
/// - a character key yields nothing on a release; on a press or repeat it
///   yields, with the held modifiers, its plain character when shift is not
///   held, its shifted character when shift but not control is held, and
///   its third character when shift and control are held (where the key has
///   those characters), and it never changes the modifiers;
/// - any other record, value or a key that does nothing changes nothing and
///   yields nothing.
pub proof fn lemma_key_record(table: Seq<Action>, mods: u8, record: Seq<u8>)
    requires
        record.len() >= 24,
        table.len() == 128,
        record[18] < 128,
    ensures
        ({
            let action = table[record[18] as int];
            let (after, out) = record_outcome(table, mods, record);
            let keyboard = record[16] == 1;
            let release = record[20] == 0;
            let press = record[20] == 1;
            let repeat = record[20] == 2;
            &&& (!keyboard || record[20] > 2) ==> after == mods && out is None
            &&& (keyboard && action is Drop) ==> after == mods && out is None
            &&& keyboard ==> (action matches Action::Toggle(m) ==> out is None && (press ==> after
                == mods ^ modifier_bits(m)) && ((release || repeat) ==> after == mods))
            &&& keyboard ==> (action matches Action::Hold(m) ==> out is None && (press ==> after
                == mods | modifier_bits(m)) && (release ==> after == mods & !modifier_bits(m)) && (
            repeat ==> after == mods))
            &&& keyboard ==> (action matches Action::Press(plain, shifted, extra) ==> {
                &&& after == mods
                &&& release ==> out is None
                &&& (press || repeat) && mods & 2 == 0 ==> out == (match plain {
                    Some(c) => Some((mods, c)),
                    None => None,
                })
                &&& (press || repeat) && mods & 2 != 0 && mods & 4 == 0 && shifted is Some ==> out
                    == Some((mods, shifted->0))
                &&& (press || repeat) && mods & 2 != 0 && mods & 4 != 0 && extra is Some ==> out
                    == Some((mods, extra->0))
            })
        }),
{
}

/// Pressing and releasing a toggle key flips its modifier exactly once;
/// pressing and releasing a hold key leaves its modifier released.
pub proof fn lemma_key_stroke(table: Seq<Action>, mods: u8, press: Seq<u8>, release: Seq<u8>)
    requires
        press.len() >= 24,
        release.len() >= 24,
        table.len() == 128,
        press[16] == 1,
        release[16] == 1,
        press[18] == release[18],
        press[18] < 128,
        press[20] == 1,
        release[20] == 0,
    ensures
        ({
            let after_press = record_outcome(table, mods, press).0;
            let after_release = record_outcome(table, after_press, release).0;
            &&& table[press[18] as int] matches Action::Toggle(m) ==> after_release == mods ^ modifier_bits(m)
            &&& table[press[18] as int] matches Action::Hold(m) ==> after_release == mods & !modifier_bits(m)
        }),
{
    if let Action::Hold(m) = table[press[18] as int] {
        let b = modifier_bits(m);
        assert((mods | b) & !b == mods & !b) by (bit_vector);
    }
}

/// Why a translation file was refused; a position names the offending word
/// of the line.
#[derive(Copy, Clone, PartialEq, Eq, Debug, Structural)]
pub enum TranslationError {
    MissingDevice,
    KeycodeOverflow,
    BadKeycode(usize),
    MissingAction,
    EmptyWord(usize),
    MissingCharacter(usize),
    BadCharacter(usize),
    MissingModifier,
    UnknownModifier(usize),
    UndefinedAction(usize),
    KeycodeOutsideTable,
}

/// The translation read so far: the table, the current key code, and the
/// input device named.
pub struct Translation {
    pub translation_table: Vec<Action>,
    pub keycode: u8,
    pub device_path: Option<String>,
}

/// The translation as values.
#[verifier::ext_equal]
pub struct TranslationView {
    pub table: Seq<Action>,
    pub keycode: u8,
    pub device_path: Option<Seq<char>>,
}

pub open spec fn translation_view(t: Translation) -> TranslationView {
    TranslationView {
        table: t.translation_table@,
        keycode: t.keycode,
        device_path: match t.device_path {
            Some(s) => Some(s@),
            None => None,
        },
    }
}

/// The character code of a `press` argument at position `p`: `b` and a
/// character give that character's low byte, `s` gives a space, `:` gives
/// none, and otherwise the word is a decimal byte.
pub open spec fn press_code(word: Seq<char>, p: int) -> Result<Option<u8>, TranslationError> {
    if word.len() == 0 {
        Err(TranslationError::EmptyWord(p as usize))
    } else if word[0] == 'b' {
        if word.len() < 2 {
            Err(TranslationError::MissingCharacter(p as usize))
        } else {
            Ok(Some((word[1] as u32 % 256) as u8))
        }
    } else if word[0] == 's' {
        Ok(Some(32))
    } else if word[0] == ':' {
        Ok(None)
    } else if parsed_unsigned(word, 255) is None {
        Err(TranslationError::BadCharacter(p as usize))
    } else {
        Ok(Some(parsed_unsigned(word, 255)->Some_0 as u8))
    }
}

/// The code of an optional `press` argument at position `p`.
pub open spec fn optional_press_code(w: Seq<Seq<char>>, p: int) -> Result<Option<u8>, TranslationError> {
    if p < w.len() {
        press_code(w[p], p)
    } else {
        Ok(None)
    }
}

/// A `press` argument names a character code: `b` followed by a character
/// gives that character's low byte, a word starting with `s` a space (32),
/// a word starting with `:` no character, and a decimal number up to 255
/// that number.
pub proof fn lemma_press_code_words(word: Seq<char>, p: int)
    ensures
        word.len() >= 2 && word[0] == 'b' ==> press_code(word, p) == Ok::<Option<u8>, TranslationError>(
            Some((word[1] as u32 % 256) as u8),
        ),
        word.len() >= 1 && word[0] == 's' ==> press_code(word, p) == Ok::<Option<u8>, TranslationError>(
            Some(32u8),
        ),
        word.len() >= 1 && word[0] == ':' ==> press_code(word, p) == Ok::<Option<u8>, TranslationError>(
            None,
        ),
        word.len() >= 1 && '0' <= word[0] <= '9' && parsed_unsigned(word, 255) is Some ==> press_code(
            word,
            p,
        ) == Ok::<Option<u8>, TranslationError>(Some(parsed_unsigned(word, 255)->Some_0 as u8)),
{
}

/// What the entries of a translation line do (see `translation_step`):
/// `:device d` names the input device; a key code `n` below 128 (or `*`,
/// the code after the current one) followed by `toggle m` or `set m` makes
/// key `n` toggle or hold modifier `m`, and followed by `press` and its
/// character arguments makes key `n` send those characters; each leaves
/// the other keys' actions as they were and makes `n` the current key
/// code.
pub proof fn lemma_translation_words(t: TranslationView, w: Seq<Seq<char>>, p: int)
    requires
        0 <= p < w.len(),
        t.table.len() == 128,
    ensures
        ({
            let word = w[p];
            let r = translation_step(t, w, p);
            let (u, q) = r->Ok_0;
            let code: int = if word == "*"@ {
                t.keycode + 1
            } else {
                parsed_unsigned(word, 255)->Some_0
            };
            let keyed = word != ":device"@ && (word == "*"@ || parsed_unsigned(word, 255) is Some)
                && code < 128 && p + 1 < w.len();
            let m = modifier_named(w[p + 2])->Some_0;
            &&& word == ":device"@ && p + 1 < w.len() ==> r is Ok && u.device_path == Some(w[p + 1])
                && u.table == t.table && u.keycode == t.keycode && q == p + 2
            &&& keyed && w[p + 1] == "toggle"@ && p + 2 < w.len() && modifier_named(w[p + 2]) is Some
                ==> r is Ok && u.table == t.table.update(code, Action::Toggle(m)) && u.keycode == code
                && u.device_path == t.device_path && q == p + 3
            &&& keyed && w[p + 1] == "set"@ && p + 2 < w.len() && modifier_named(w[p + 2]) is Some
                ==> r is Ok && u.table == t.table.update(code, Action::Hold(m)) && u.keycode == code
                && u.device_path == t.device_path && q == p + 3
            &&& keyed && w[p + 1] == "press"@ && p + 4 < w.len() && press_code(w[p + 2], p + 2) is Ok
                && press_code(w[p + 3], p + 3) is Ok && press_code(w[p + 4], p + 4) is Ok ==> r is Ok
                && u.table == t.table.update(
                code,
                Action::Press(
                    press_code(w[p + 2], p + 2)->Ok_0,
                    press_code(w[p + 3], p + 3)->Ok_0,
                    press_code(w[p + 4], p + 4)->Ok_0,
                ),
            ) && u.keycode == code && q == p + 5
        }),
{
    reveal_strlit(":device");
    reveal_strlit("*");
    reveal_strlit("press");
    reveal_strlit("set");
    reveal_strlit("toggle");
    assert("press"@.len() == 5 && "set"@.len() == 3 && "toggle"@.len() == 6);
    lemma_parsed_in_range(w[p], 255);
}

/// The next entry of a translation line, from the word at position `p` of
/// the line's words `w`: a `:device` entry, or a key code (`*` for the
/// code after the current one) and its action. Gives the new translation
/// and the position after the entry, or why the line is refused.
pub open spec fn translation_step(t: TranslationView, w: Seq<Seq<char>>, p: int) -> Result<
    (TranslationView, int),
    TranslationError,
> {
    let word = w[p];
    if word == ":device"@ {
        if p + 1 >= w.len() {
            Err(TranslationError::MissingDevice)
        } else {
            Ok((TranslationView { device_path: Some(w[p + 1]), ..t }, p + 2))
        }
    } else {
        let keycode: Result<u8, TranslationError> = if word == "*"@ {
            if t.keycode == 255 {
                Err(TranslationError::KeycodeOverflow)
            } else {
                Ok((t.keycode + 1) as u8)
            }
        } else if parsed_unsigned(word, 255) is None {
            Err(TranslationError::BadKeycode(p as usize))
        } else {
            Ok(parsed_unsigned(word, 255)->Some_0 as u8)
        };
        match keycode {
            Err(e) => Err(e),
            Ok(code) => {
                if p + 1 >= w.len() {
                    Err(TranslationError::MissingAction)
                } else if w[p + 1] == "press"@ {
                    match (
                        optional_press_code(w, p + 2),
                        optional_press_code(w, p + 3),
                        optional_press_code(w, p + 4),
                    ) {
                        (Err(e), _, _) => Err(e),
                        (Ok(_), Err(e), _) => Err(e),
                        (Ok(_), Ok(_), Err(e)) => Err(e),
                        (Ok(c1), Ok(c2), Ok(c3)) => if code >= 128 {
                            Err(TranslationError::KeycodeOutsideTable)
                        } else {
                            Ok((
                                TranslationView {
                                    table: t.table.update(code as int, Action::Press(c1, c2, c3)),
                                    keycode: code,
                                    ..t
                                },
                                if p + 5 <= w.len() {
                                    p + 5
                                } else {
                                    w.len() as int
                                },
                            ))
                        },
                    }
                } else if w[p + 1] == "set"@ || w[p + 1] == "toggle"@ {
                    if p + 2 >= w.len() {
                        Err(TranslationError::MissingModifier)
                    } else if modifier_named(w[p + 2]) is None {
                        Err(TranslationError::UnknownModifier((p + 2) as usize))
                    } else if code >= 128 {
                        Err(TranslationError::KeycodeOutsideTable)
                    } else {
                        let m = modifier_named(w[p + 2])->Some_0;
                        let action = if w[p + 1] == "set"@ {
                            Action::Hold(m)
                        } else {
                            Action::Toggle(m)
                        };
                        Ok((
                            TranslationView {
                                table: t.table.update(code as int, action),
                                keycode: code,
                                ..t
                            },
                            p + 3,
                        ))
                    }
                } else {
                    Err(TranslationError::UndefinedAction((p + 1) as usize))
                }
            },
        }
    }
}

/// The code of a `press` argument.
fn parse_press_code(word: &str, p: usize) -> (r: Result<Option<u8>, TranslationError>)
    ensures
        r == press_code(word@, p as int),
{
    proof {
        lemma_parsed_in_range(word@, 255);
    }
    if word.unicode_len() == 0 {
        return Err(TranslationError::EmptyWord(p));
    }
    let first = word.get_char(0);
    if first == 'b' {
        if word.unicode_len() < 2 {
            return Err(TranslationError::MissingCharacter(p));
        }
        let c = word.get_char(1);
        return Ok(Some((c as u32 % 256) as u8));
    }
    if first == 's' {
        return Ok(Some(32));
    }
    if first == ':' {
        return Ok(None);
    }
    match parse_unsigned(word, 255) {
        None => Err(TranslationError::BadCharacter(p)),
        Some(value) => Ok(Some(value as u8)),
    }
}

impl Translation {
    /// An empty translation: every key does nothing, key code 0, no device.
    pub fn new() -> (r: Translation)
        ensures
            translation_view(r) == (TranslationView {
                table: Seq::new(128, |i: int| Action::Drop),
                keycode: 0,
                device_path: None,
            }),
    {
        let mut table: Vec<Action> = Vec::new();
        while table.len() < 128
            invariant
                table.len() <= 128,
                forall|i: int| 0 <= i < table.len() ==> table@[i] == Action::Drop,
            decreases 128 - table.len(),
        {
            table.push(Action::Drop);
        }
        assert(table@ =~= Seq::new(128, |i: int| Action::Drop));
        Translation { translation_table: table, keycode: 0, device_path: None }
    }
}

/// The words of a translation file line, being worked through.
pub struct TranslationLine {
    pub words: Vec<String>,
    pub position: usize,
}

impl TranslationLine {
    /// The line's entries, unless the line is empty or a comment.
    pub fn new(line: &str) -> (r: Option<TranslationLine>)
        ensures
            (line@.len() == 0 || line@[0] == '#') ==> r is None,
            !(line@.len() == 0 || line@[0] == '#') ==> (r matches Some(l) && l.words.deep_view()
                == words_of(line@) && l.position == 0),
    {
        if line.unicode_len() == 0 || line.get_char(0) == '#' {
            None
        } else {
            Some(TranslationLine { words: split_whitespace(line), position: 0 })
        }
    }

    /// Whether the line has entries left.
    pub fn has_next(&self) -> (r: bool)
        ensures
            r == (self.position < self.words@.len()),
    {
        self.position < self.words.len()
    }

    /// Reads the next entry of the line (see `translation_step`). A refused
    /// entry leaves the translation unchanged.
    pub fn step(&mut self, translation: &mut Translation) -> (r: Result<(), TranslationError>)
        requires
            old(self).position < old(self).words@.len(),
            old(translation).translation_table@.len() == 128,
        ensures
            final(self).words == old(self).words,
            match translation_step(
                translation_view(*old(translation)),
                old(self).words.deep_view(),
                old(self).position as int,
            ) {
                Ok((t, next)) => r is Ok && translation_view(*final(translation)) == t
                    && final(self).position == next,
                Err(e) => r == Err::<(), TranslationError>(e) && translation_view(*final(translation))
                    == translation_view(*old(translation)),
            },
    {
        let p = self.position;
        let n = self.words.len();
        let ghost w = self.words.deep_view();
        proof {
            assert(w[p as int] == self.words[p as int]@);
            lemma_parsed_in_range(w[p as int], 255);
            if p + 1 < n {
                assert(w[p + 1] == self.words[p + 1]@);
            }
            if p + 2 < n {
                assert(w[p + 2] == self.words[p + 2]@);
            }
            if p + 3 < n {
                assert(w[p + 3] == self.words[p + 3]@);
            }
            if p + 4 < n {
                assert(w[p + 4] == self.words[p + 4]@);
            }
        }
        let word = self.words[p].as_str();
        if str_equal(word, ":device") {
            if p + 1 >= n {
                return Err(TranslationError::MissingDevice);
            }
            translation.device_path = Some(self.words[p + 1].clone());
            self.position = p + 2;
            return Ok(());
        }
        let keycode: u8 = if str_equal(word, "*") {
            if translation.keycode == 255 {
                return Err(TranslationError::KeycodeOverflow);
            }
            translation.keycode + 1
        } else {
            match parse_unsigned(word, 255) {
                None => return Err(TranslationError::BadKeycode(p)),
                Some(value) => value as u8,
            }
        };
        if p + 1 >= n {
            return Err(TranslationError::MissingAction);
        }
        let action = self.words[p + 1].as_str();
        if str_equal(action, "press") {
            let c1 = if p + 2 < n {
                parse_press_code(self.words[p + 2].as_str(), p + 2)
            } else {
                Ok(None)
            };
            let c1 = match c1 {
                Err(e) => return Err(e),
                Ok(c) => c,
            };
            let c2 = if 3 < n - p {
                parse_press_code(self.words[p + 3].as_str(), p + 3)
            } else {
                Ok(None)
            };
            let c2 = match c2 {
                Err(e) => return Err(e),
                Ok(c) => c,
            };
            let c3 = if 4 < n - p {
                parse_press_code(self.words[p + 4].as_str(), p + 4)
            } else {
                Ok(None)
            };
            let c3 = match c3 {
                Err(e) => return Err(e),
                Ok(c) => c,
            };
            if keycode >= 128 {
                return Err(TranslationError::KeycodeOutsideTable);
            }
            translation.translation_table.set(keycode as usize, Action::Press(c1, c2, c3));
            translation.keycode = keycode;
            self.position = if 5 <= n - p {
                p + 5
            } else {
                n
            };
            Ok(())
        } else if str_equal(action, "set") || str_equal(action, "toggle") {
            if p + 2 >= n {
                return Err(TranslationError::MissingModifier);
            }
            let modifier = match Modifier::named(self.words[p + 2].as_str()) {
                None => return Err(TranslationError::UnknownModifier(p + 2)),
                Some(m) => m,
            };
            if keycode >= 128 {
                return Err(TranslationError::KeycodeOutsideTable);
            }
            let entry = if str_equal(action, "set") {
                Action::Hold(modifier)
            } else {
                Action::Toggle(modifier)
            };
            translation.translation_table.set(keycode as usize, entry);
            translation.keycode = keycode;
            self.position = p + 3;
            Ok(())
        } else {
            Err(TranslationError::UndefinedAction(p + 1))
        }
    }
}

} // verus!

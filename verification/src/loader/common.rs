//! The loader's settings: the release channels, the load modes, and the
//! command line and configuration language that fill the settings.
//!
//! Reading the command line and the configuration files is left to the
//! caller, which feeds the words to a `ParameterParser` or, line by line,
//! to a `ConfigLine`, and reads a nested configuration file whenever a step
//! asks for one.

use vstd::prelude::*;
use vstd::string::{StringExecFns, StrSliceExecFns};
use crate::loader::text::{lemma_parsed_in_range, parse_unsigned, parsed_unsigned, split_whitespace, str_equal, words_of};

verus! {

/// The release channel of the kernel images.
#[derive(Copy, Clone, PartialEq, Eq, Debug, Structural)]
pub enum Channel {
    Stable,
    Beta,
    Nightly,
    NoChannel,
}

/// The channel a word names: `stable`, `beta`, `nightly`, or `none`.
pub open spec fn channel_named(s: Seq<char>) -> Option<Channel> {
    if s == "stable"@ {
        Some(Channel::Stable)
    } else if s == "beta"@ {
        Some(Channel::Beta)
    } else if s == "nightly"@ {
        Some(Channel::Nightly)
    } else if s == "none"@ {
        Some(Channel::NoChannel)
    } else {
        None
    }
}

/// The file name suffix of a channel's images.
pub open spec fn channel_suffix(c: Channel) -> Seq<char> {
    match c {
        Channel::Stable => ".stable"@,
        Channel::Beta => ".beta"@,
        Channel::Nightly => ".nightly"@,
        Channel::NoChannel => ""@,
    }
}

impl Channel {
    /// The channel `source` names, if any.
    pub fn named(source: &str) -> (r: Option<Channel>)
        ensures
            r == channel_named(source@),
    {
        if str_equal(source, "stable") {
            Some(Channel::Stable)
        } else if str_equal(source, "beta") {
            Some(Channel::Beta)
        } else if str_equal(source, "nightly") {
            Some(Channel::Nightly)
        } else if str_equal(source, "none") {
            Some(Channel::NoChannel)
        } else {
            None
        }
    }

    /// The channel `source` names; it must name one.
    pub fn from_raw(source: &str) -> (r: Channel)
        requires
            channel_named(source@) is Some,
        ensures
            channel_named(source@) == Some(r),
    {
        Self::named(source).unwrap()
    }

    /// The file name suffix of the channel's images.
    pub fn suffix(&self) -> (r: &'static str)
        ensures
            r@ == channel_suffix(*self),
    {
        match *self {
            Channel::Stable => ".stable",
            Channel::Beta => ".beta",
            Channel::Nightly => ".nightly",
            Channel::NoChannel => "",
        }
    }
}

/// Which images are loaded: one by index, or a list of (ethernet address,
/// image index, channel) assignments.
pub enum LoadMode {
    Listed(Vec<(u32, usize, Channel)>),
    Indexed(usize),
}

/// The load mode as values.
#[verifier::ext_equal]
pub enum LoadModeView {
    Listed(Seq<(u32, usize, Channel)>),
    Indexed(usize),
}

impl LoadMode {
    pub open spec fn view(&self) -> LoadModeView {
        match self {
            LoadMode::Listed(list) => LoadModeView::Listed(list@),
            LoadMode::Indexed(i) => LoadModeView::Indexed(*i),
        }
    }
}

/// The loader's settings.
pub struct Context {
    pub translation_path: String,
    pub serial_device_path: String,
    pub images: Vec<String>,
    pub channel: Channel,
    pub load_mode: LoadMode,
    pub instant_load: bool,
}

/// The settings as values, with the prefix that image names get.
#[verifier::ext_equal]
pub struct Settings {
    pub translation_path: Seq<char>,
    pub serial_device_path: Seq<char>,
    pub images: Seq<Seq<char>>,
    pub channel: Channel,
    pub load_mode: LoadModeView,
    pub instant_load: bool,
    pub prefix: Seq<char>,
}

/// The settings of `context` and `prefix` as values.
pub open spec fn settings(context: Context, prefix: Seq<char>) -> Settings {
    Settings {
        translation_path: context.translation_path@,
        serial_device_path: context.serial_device_path@,
        images: context.images.deep_view(),
        channel: context.channel,
        load_mode: context.load_mode.view(),
        instant_load: context.instant_load,
        prefix: prefix,
    }
}

/// Why the command line or a configuration file was refused; a position
/// names the offending word.
#[derive(Copy, Clone, PartialEq, Eq, Debug, Structural)]
pub enum LoaderError {
    MissingTranslationFile,
    MissingImage,
    MissingConfig,
    MissingSerialDevice,
    MissingPrefix,
    MissingIndex,
    BadIndex,
    MissingChannel,
    UnknownChannel(usize),
    MissingInstantValue,
    BadInstantValue(usize),
    MissingAddress,
    BadAddress,
    MissingImageIndex,
    BadImageIndex,
    UnsupportedSetting(usize),
    InvalidFlag(usize),
    EmptyArgument(usize),
    NoImages,
    ListedModeUnsupported,
    ImageIndexOutOfRange,
}

/// What the caller does after a step: go on, read the named configuration
/// file first and then go on, or stop.
pub enum Step {
    Continue,
    ParseConfig(String),
    Done,
}

/// The settings after an `:assign` of an image index and channel to an
/// ethernet address: added to the list, or starting one.
pub open spec fn assigned(st: Settings, entry: (u32, usize, Channel)) -> Settings {
    Settings {
        load_mode: match st.load_mode {
            LoadModeView::Listed(list) => LoadModeView::Listed(list.push(entry)),
            LoadModeView::Indexed(_) => LoadModeView::Listed(seq![entry]),
        },
        ..st
    }
}

/// One setting of a configuration line, the word at position `p` of the
/// line's words `w` with the words after it that it takes: the new settings,
/// the position after them, and the configuration file to read first, if
/// any; or why the line is refused.
pub open spec fn config_step(st: Settings, w: Seq<Seq<char>>, p: int) -> Result<
    (Settings, int, Option<Seq<char>>),
    LoaderError,
> {
    let word = w[p];
    let has_next = p + 1 < w.len();
    let next = w[p + 1];
    if word == ":translate"@ {
        if !has_next {
            Err(LoaderError::MissingTranslationFile)
        } else {
            Ok((Settings { translation_path: next, ..st }, p + 2, None))
        }
    } else if word == ":image"@ {
        if !has_next {
            Err(LoaderError::MissingImage)
        } else {
            Ok((Settings { images: st.images.push(st.prefix + next), ..st }, p + 2, None))
        }
    } else if word == ":config"@ {
        if !has_next {
            Err(LoaderError::MissingConfig)
        } else {
            Ok((st, p + 2, Some(next)))
        }
    } else if word == ":serial"@ {
        if !has_next {
            Err(LoaderError::MissingSerialDevice)
        } else {
            Ok((Settings { serial_device_path: next, ..st }, p + 2, None))
        }
    } else if word == ":prefix"@ {
        if !has_next {
            Err(LoaderError::MissingPrefix)
        } else {
            Ok((Settings { prefix: next, ..st }, p + 2, None))
        }
    } else if word == ":use"@ {
        if !has_next {
            Err(LoaderError::MissingIndex)
        } else if parsed_unsigned(next, usize::MAX as int) is None {
            Err(LoaderError::BadIndex)
        } else {
            Ok((
                Settings {
                    load_mode: LoadModeView::Indexed(
                        parsed_unsigned(next, usize::MAX as int)->Some_0 as usize,
                    ),
                    ..st
                },
                p + 2,
                None,
            ))
        }
    } else if word == ":channel"@ {
        if !has_next {
            Err(LoaderError::MissingChannel)
        } else if channel_named(next) is None {
            Err(LoaderError::UnknownChannel((p + 1) as usize))
        } else {
            Ok((Settings { channel: channel_named(next)->Some_0, ..st }, p + 2, None))
        }
    } else if word == ":instant"@ {
        if !has_next {
            Err(LoaderError::MissingInstantValue)
        } else if next == "enable"@ {
            Ok((Settings { instant_load: true, ..st }, p + 2, None))
        } else if next == "disable"@ {
            Ok((Settings { instant_load: false, ..st }, p + 2, None))
        } else {
            Err(LoaderError::BadInstantValue((p + 1) as usize))
        }
    } else if word == ":assign"@ {
        if !has_next {
            Err(LoaderError::MissingAddress)
        } else if parsed_unsigned(next, u32::MAX as int) is None {
            Err(LoaderError::BadAddress)
        } else if p + 2 >= w.len() {
            Err(LoaderError::MissingImageIndex)
        } else if parsed_unsigned(w[p + 2], usize::MAX as int) is None {
            Err(LoaderError::BadImageIndex)
        } else if p + 3 < w.len() && channel_named(w[p + 3]) is None {
            Err(LoaderError::UnknownChannel((p + 3) as usize))
        } else {
            let channel = if p + 3 < w.len() {
                channel_named(w[p + 3])->Some_0
            } else {
                st.channel
            };
            let entry = (
                parsed_unsigned(next, u32::MAX as int)->Some_0 as u32,
                parsed_unsigned(w[p + 2], usize::MAX as int)->Some_0 as usize,
                channel,
            );
            Ok((assigned(st, entry), if p + 3 < w.len() { p + 4 } else { p + 3 }, None))
        }
    } else {
        Err(LoaderError::UnsupportedSetting(p as usize))
    }
}

/// The words of a configuration file line, unless the line is empty or a
/// comment (starting with `#`).
pub open spec fn config_line_words(line: Seq<char>) -> Option<Seq<Seq<char>>> {
    if line.len() == 0 || line[0] == '#' {
        None
    } else {
        Some(words_of(line))
    }
}

/// The words of a configuration line, being worked through.
pub struct ConfigLine {
    pub words: Vec<String>,
    pub position: usize,
}

impl ConfigLine {
    /// The line's settings, unless the line is empty or a comment.
    pub fn new(line: &str) -> (r: Option<ConfigLine>)
        ensures
            match config_line_words(line@) {
                Some(w) => (r matches Some(l) && l.words.deep_view() == w && l.position == 0),
                None => r is None,
            },
    {
        if line.unicode_len() == 0 || line.get_char(0) == '#' {
            None
        } else {
            Some(ConfigLine { words: split_whitespace(line), position: 0 })
        }
    }

    /// Applies the next setting of the line (see `config_step`); `Done` at
    /// the end of the line. A refused setting leaves everything unchanged.
    pub fn step(&mut self, context: &mut Context, prefix: &mut String) -> (r: Result<Step, LoaderError>)
        ensures
            old(self).position >= old(self).words.len() ==> ((r matches Ok(Step::Done))
                && final(self).position == old(self).position && settings(*final(context), final(prefix)@)
                == settings(*old(context), old(prefix)@)),
            old(self).position < old(self).words.len() ==> match config_step(
                settings(*old(context), old(prefix)@),
                old(self).words.deep_view(),
                old(self).position as int,
            ) {
                Ok((st, next, file)) => {
                    &&& settings(*final(context), final(prefix)@) == st
                    &&& final(self).position == next
                    &&& match file {
                        Some(f) => (r matches Ok(Step::ParseConfig(name)) && name@ == f),
                        None => r matches Ok(Step::Continue),
                    }
                },
                Err(e) => r == Err::<Step, LoaderError>(e) && settings(*final(context), final(prefix)@)
                    == settings(*old(context), old(prefix)@),
            },
            final(self).words == old(self).words,
    {
        let p = self.position;
        let n = self.words.len();
        if p >= n {
            return Ok(Step::Done);
        }
        let ghost w = self.words.deep_view();
        assert(w[p as int] == self.words[p as int]@);
        proof {
            if p + 1 < n {
                assert(w[p + 1] == self.words[p + 1]@);
                lemma_parsed_in_range(w[p + 1], usize::MAX as int);
                lemma_parsed_in_range(w[p + 1], u32::MAX as int);
            }
            if p + 2 < n {
                assert(w[p + 2] == self.words[p + 2]@);
                lemma_parsed_in_range(w[p + 2], usize::MAX as int);
            }
            if p + 3 < n {
                assert(w[p + 3] == self.words[p + 3]@);
            }
        }
        let word = self.words[p].as_str();
        let has_next = p + 1 < n;
        if str_equal(word, ":translate") {
            if !has_next {
                return Err(LoaderError::MissingTranslationFile);
            }
            context.translation_path = self.words[p + 1].clone();
            self.position = p + 2;
            Ok(Step::Continue)
        } else if str_equal(word, ":image") {
            if !has_next {
                return Err(LoaderError::MissingImage);
            }
            let image = prefix.clone().concat(self.words[p + 1].as_str());
            context.images.push(image);
            proof {
                assert(context.images.deep_view() =~= settings(*old(context), old(prefix)@).images.push(
                    prefix@ + w[p + 1],
                ));
            }
            self.position = p + 2;
            Ok(Step::Continue)
        } else if str_equal(word, ":config") {
            if !has_next {
                return Err(LoaderError::MissingConfig);
            }
            let file = self.words[p + 1].clone();
            self.position = p + 2;
            Ok(Step::ParseConfig(file))
        } else if str_equal(word, ":serial") {
            if !has_next {
                return Err(LoaderError::MissingSerialDevice);
            }
            context.serial_device_path = self.words[p + 1].clone();
            self.position = p + 2;
            Ok(Step::Continue)
        } else if str_equal(word, ":prefix") {
            if !has_next {
                return Err(LoaderError::MissingPrefix);
            }
            *prefix = self.words[p + 1].clone();
            self.position = p + 2;
            Ok(Step::Continue)
        } else if str_equal(word, ":use") {
            if !has_next {
                return Err(LoaderError::MissingIndex);
            }
            match parse_unsigned(self.words[p + 1].as_str(), usize::MAX as u64) {
                None => Err(LoaderError::BadIndex),
                Some(index) => {
                    context.load_mode = LoadMode::Indexed(index as usize);
                    self.position = p + 2;
                    Ok(Step::Continue)
                },
            }
        } else if str_equal(word, ":channel") {
            if !has_next {
                return Err(LoaderError::MissingChannel);
            }
            match Channel::named(self.words[p + 1].as_str()) {
                None => Err(LoaderError::UnknownChannel(p + 1)),
                Some(channel) => {
                    context.channel = channel;
                    self.position = p + 2;
                    Ok(Step::Continue)
                },
            }
        } else if str_equal(word, ":instant") {
            if !has_next {
                return Err(LoaderError::MissingInstantValue);
            }
            let value = self.words[p + 1].as_str();
            if str_equal(value, "enable") {
                context.instant_load = true;
            } else if str_equal(value, "disable") {
                context.instant_load = false;
            } else {
                return Err(LoaderError::BadInstantValue(p + 1));
            }
            self.position = p + 2;
            Ok(Step::Continue)
        } else if str_equal(word, ":assign") {
            if !has_next {
                return Err(LoaderError::MissingAddress);
            }
            let address = match parse_unsigned(self.words[p + 1].as_str(), u32::MAX as u64) {
                None => return Err(LoaderError::BadAddress),
                Some(address) => address as u32,
            };
            if p + 2 >= n {
                return Err(LoaderError::MissingImageIndex);
            }
            let index = match parse_unsigned(self.words[p + 2].as_str(), usize::MAX as u64) {
                None => return Err(LoaderError::BadImageIndex),
                Some(index) => index as usize,
            };
            let channel = if p + 3 < n {
                match Channel::named(self.words[p + 3].as_str()) {
                    None => return Err(LoaderError::UnknownChannel(p + 3)),
                    Some(channel) => channel,
                }
            } else {
                context.channel
            };
            let entry = (address, index, channel);
            match &mut context.load_mode {
                LoadMode::Listed(list) => {
                    list.push(entry);
                },
                LoadMode::Indexed(_) => {
                    let mut list: Vec<(u32, usize, Channel)> = Vec::new();
                    list.push(entry);
                    context.load_mode = LoadMode::Listed(list);
                },
            }
            self.position = if p + 3 < n {
                p + 4
            } else {
                p + 3
            };
            Ok(Step::Continue)
        } else {
            Err(LoaderError::UnsupportedSetting(p))
        }
    }
}

/// One word of the command line at position `p` of the arguments `w`, with
/// the arguments it takes: a flag, or an image name (which gets the prefix).
pub open spec fn parameter_step(st: Settings, w: Seq<Seq<char>>, p: int) -> Result<
    (Settings, int, Option<Seq<char>>),
    LoaderError,
> {
    let word = w[p];
    let has_next = p + 1 < w.len();
    let next = w[p + 1];
    if word.len() == 0 {
        Err(LoaderError::EmptyArgument(p as usize))
    } else if word[0] != '-' {
        Ok((Settings { images: st.images.push(st.prefix + word), ..st }, p + 1, None))
    } else if word == "-t"@ {
        if !has_next {
            Err(LoaderError::MissingTranslationFile)
        } else {
            Ok((Settings { translation_path: next, ..st }, p + 2, None))
        }
    } else if word == "-c"@ {
        if !has_next {
            Err(LoaderError::MissingConfig)
        } else {
            Ok((st, p + 2, Some(next)))
        }
    } else if word == "-s"@ {
        if !has_next {
            Err(LoaderError::MissingSerialDevice)
        } else {
            Ok((Settings { serial_device_path: next, ..st }, p + 2, None))
        }
    } else if word == "-p"@ {
        if !has_next {
            Err(LoaderError::MissingPrefix)
        } else {
            Ok((Settings { prefix: next, ..st }, p + 2, None))
        }
    } else if word == "-u"@ {
        if !has_next {
            Err(LoaderError::MissingIndex)
        } else if parsed_unsigned(next, usize::MAX as int) is None {
            Err(LoaderError::BadIndex)
        } else {
            Ok((
                Settings {
                    load_mode: LoadModeView::Indexed(
                        parsed_unsigned(next, usize::MAX as int)->Some_0 as usize,
                    ),
                    ..st
                },
                p + 2,
                None,
            ))
        }
    } else if word == "-r"@ {
        if !has_next {
            Err(LoaderError::MissingChannel)
        } else if channel_named(next) is None {
            Err(LoaderError::UnknownChannel((p + 1) as usize))
        } else {
            Ok((Settings { channel: channel_named(next)->Some_0, ..st }, p + 2, None))
        }
    } else if word == "-i"@ {
        Ok((Settings { instant_load: true, ..st }, p + 1, None))
    } else {
        Err(LoaderError::InvalidFlag(p as usize))
    }
}

/// The channels are named `stable`, `beta`, `nightly` and `none`, no other
/// word names one, and a channel's images end in `.stable`, `.beta`,
/// `.nightly` or nothing.
pub proof fn lemma_channel_words(word: Seq<char>)
    ensures
        channel_named("stable"@) == Some(Channel::Stable),
        channel_named("beta"@) == Some(Channel::Beta),
        channel_named("nightly"@) == Some(Channel::Nightly),
        channel_named("none"@) == Some(Channel::NoChannel),
        word != "stable"@ && word != "beta"@ && word != "nightly"@ && word != "none"@ ==> channel_named(word) is None,
        channel_suffix(Channel::Stable) == ".stable"@,
        channel_suffix(Channel::Beta) == ".beta"@,
        channel_suffix(Channel::Nightly) == ".nightly"@,
        channel_suffix(Channel::NoChannel) == Seq::<char>::empty(),
{
    reveal_strlit("stable");
    reveal_strlit("beta");
    reveal_strlit("nightly");
    reveal_strlit("none");
    reveal_strlit("");
    assert(""@ =~= Seq::<char>::empty());
    assert("stable"@.len() == 6 && "beta"@.len() == 4 && "nightly"@.len() == 7 && "none"@.len() == 4);
    assert("beta"@[0] == 'b' && "none"@[0] == 'n');
}

/// What each command line argument does (see `parameter_step`): a word
/// that is not a flag adds the prefix and the word to the images; `-u n`
/// selects image `n` to load; `-s`, `-p` and `-t` take the next word as the
/// serial device, the image prefix and the translation file; `-c` asks for
/// the next word's configuration file to be read and changes nothing
/// itself; `-r` takes the channel the next word names; `-i` turns instant
/// loading on. A flag whose word is missing is refused.
pub proof fn lemma_parameter_words(st: Settings, w: Seq<Seq<char>>, p: int)
    requires
        0 <= p < w.len(),
    ensures
        ({
            let word = w[p];
            let has_next = p + 1 < w.len();
            let next = w[p + 1];
            let r = parameter_step(st, w, p);
            let (t, q, f) = r->Ok_0;
            let n = parsed_unsigned(next, usize::MAX as int)->Some_0;
            let c = channel_named(next)->Some_0;
            &&& word.len() > 0 && word[0] != '-' ==> r is Ok && t.images == st.images.push(
                st.prefix + word,
            ) && t.load_mode == st.load_mode && t.prefix == st.prefix && q == p + 1 && f is None
            &&& word == "-u"@ && has_next && parsed_unsigned(next, usize::MAX as int) is Some ==> r is Ok && t.load_mode == LoadModeView::Indexed(n as usize) && t.images == st.images && q == p + 2
                && f is None
            &&& word == "-s"@ && has_next ==> r is Ok && t.serial_device_path == next
                && t.images == st.images && q == p + 2 && f is None
            &&& word == "-p"@ && has_next ==> r is Ok && t.prefix == next && t.images
                == st.images && q == p + 2 && f is None
            &&& word == "-t"@ && has_next ==> r is Ok && t.translation_path == next
                && q == p + 2 && f is None
            &&& word == "-c"@ && has_next ==> r == Ok::<(Settings, int, Option<Seq<char>>), LoaderError>(
                (st, p + 2, Some(next)),
            )
            &&& word == "-r"@ && has_next && channel_named(next) is Some ==> r is Ok && t.channel == c && q == p + 2 && f is None
            &&& word == "-i"@ ==> r is Ok && t.instant_load && t.images == st.images
                && q == p + 1 && f is None
            &&& (word == "-u"@ || word == "-s"@ || word == "-p"@ || word == "-t"@ || word == "-c"@
                || word == "-r"@) && !has_next ==> r is Err
        }),
{
    reveal_strlit("-t");
    reveal_strlit("-c");
    reveal_strlit("-s");
    reveal_strlit("-p");
    reveal_strlit("-u");
    reveal_strlit("-r");
    reveal_strlit("-i");
    assert("-t"@[1] == 't');
    assert("-c"@[1] == 'c');
    assert("-s"@[1] == 's');
    assert("-p"@[1] == 'p');
    assert("-u"@[1] == 'u');
    assert("-r"@[1] == 'r');
    assert("-i"@[1] == 'i');
    if w[p].len() == 2 {
        assert(w[p][0] == w[p][0] && w[p][1] == w[p][1]);
    }
}

/// What each setting of a configuration line does (see `config_step`):
/// `:image f` adds the prefix and `f` to the images; `:use n` selects image
/// `n` to load; `:serial`, `:prefix` and `:translate` take the next word;
/// `:config f` asks for `f` to be read and changes nothing itself;
/// `:channel c` takes the channel `c` names; `:instant enable` and
/// `:instant disable` turn instant loading on and off. A setting whose word
/// is missing is refused.
pub proof fn lemma_config_words(st: Settings, w: Seq<Seq<char>>, p: int)
    requires
        0 <= p < w.len(),
    ensures
        ({
            let word = w[p];
            let has_next = p + 1 < w.len();
            let next = w[p + 1];
            let r = config_step(st, w, p);
            let (t, q, f) = r->Ok_0;
            let n = parsed_unsigned(next, usize::MAX as int)->Some_0;
            let c = channel_named(next)->Some_0;
            &&& word == ":image"@ && has_next ==> r is Ok && t.images == st.images.push(
                st.prefix + next,
            ) && t.load_mode == st.load_mode && q == p + 2 && f is None
            &&& word == ":use"@ && has_next && parsed_unsigned(next, usize::MAX as int) is Some ==> r is Ok && t.load_mode == LoadModeView::Indexed(n as usize) && t.images == st.images && q == p + 2
                && f is None
            &&& word == ":serial"@ && has_next ==> r is Ok && t.serial_device_path
                == next && t.images == st.images && q == p + 2 && f is None
            &&& word == ":prefix"@ && has_next ==> r is Ok && t.prefix == next
                && t.images == st.images && q == p + 2 && f is None
            &&& word == ":translate"@ && has_next ==> r is Ok && t.translation_path
                == next && q == p + 2 && f is None
            &&& word == ":config"@ && has_next ==> r == Ok::<(Settings, int, Option<Seq<char>>), LoaderError>(
                (st, p + 2, Some(next)),
            )
            &&& word == ":channel"@ && has_next && channel_named(next) is Some ==> r is Ok && t.channel == c && q == p + 2 && f is None
            &&& word == ":instant"@ && has_next && next == "enable"@ ==> r is Ok
                && t.instant_load && q == p + 2
            &&& word == ":instant"@ && has_next && next == "disable"@ ==> r is Ok
                && !t.instant_load && q == p + 2
            &&& (word == ":image"@ || word == ":use"@ || word == ":serial"@ || word == ":prefix"@
                || word == ":translate"@ || word == ":config"@ || word == ":channel"@ || word
                == ":instant"@) && !has_next ==> r is Err
        }),
{
    reveal_strlit(":translate");
    reveal_strlit(":image");
    reveal_strlit(":config");
    reveal_strlit(":serial");
    reveal_strlit(":prefix");
    reveal_strlit(":use");
    reveal_strlit(":channel");
    reveal_strlit(":instant");
    reveal_strlit(":assign");
    reveal_strlit("enable");
    reveal_strlit("disable");
    assert(":translate"@.len() == 10 && ":translate"@[1] == 't');
    assert(":image"@.len() == 6 && ":image"@[1] == 'i');
    assert(":config"@.len() == 7 && ":config"@[1] == 'c');
    assert(":serial"@.len() == 7 && ":serial"@[1] == 's');
    assert(":prefix"@.len() == 7 && ":prefix"@[1] == 'p');
    assert(":use"@.len() == 4 && ":use"@[1] == 'u');
    assert(":channel"@.len() == 8 && ":channel"@[1] == 'c');
    assert(":instant"@.len() == 8 && ":instant"@[1] == 'i');
    assert(":assign"@.len() == 7 && ":assign"@[1] == 'a');
    if w[p].len() >= 2 {
        assert(w[p][1] == w[p][1]);
    }
}

/// The settings before any argument: no translation file, serial device or
/// images, no channel, the first image, no instant loading.
pub open spec fn initial_settings() -> Settings {
    Settings {
        translation_path: Seq::empty(),
        serial_device_path: Seq::empty(),
        images: Seq::empty(),
        channel: Channel::NoChannel,
        load_mode: LoadModeView::Indexed(0),
        instant_load: false,
        prefix: Seq::empty(),
    }
}

impl Context {
    /// The settings before any argument.
    pub fn new() -> (r: Context)
        ensures
            settings(r, Seq::empty()) == initial_settings(),
    {
        Context {
            translation_path: String::new(),
            serial_device_path: String::new(),
            images: Vec::new(),
            channel: Channel::NoChannel,
            load_mode: LoadMode::Indexed(0),
            instant_load: false,
        }
    }

    /// At least one image is named.
    pub fn finish(&self) -> (r: Result<(), LoaderError>)
        ensures
            r == (if self.images@.len() == 0 {
                Err(LoaderError::NoImages)
            } else {
                Ok::<(), LoaderError>(())
            }),
    {
        if self.images.len() == 0 {
            Err(LoaderError::NoImages)
        } else {
            Ok(())
        }
    }
}

/// The file name of the image to send in serial mode: the indexed image
/// with the channel's suffix.
pub open spec fn selected_image(st: Settings) -> Result<Seq<char>, LoaderError> {
    match st.load_mode {
        LoadModeView::Indexed(index) => if index < st.images.len() {
            Ok(st.images[index as int] + channel_suffix(st.channel))
        } else {
            Err(LoaderError::ImageIndexOutOfRange)
        },
        LoadModeView::Listed(_) => Err(LoaderError::ListedModeUnsupported),
    }
}

/// The file name of the image to send in serial mode.
pub fn select_image(context: &Context) -> (r: Result<String, LoaderError>)
    ensures
        match selected_image(settings(*context, Seq::empty())) {
            Ok(name) => (r matches Ok(s) && s@ == name),
            Err(e) => r == Err::<String, LoaderError>(e),
        },
{
    match &context.load_mode {
        LoadMode::Indexed(index) => {
            let index = *index;
            if index < context.images.len() {
                proof {
                    assert(context.images.deep_view()[index as int] == context.images@[index as int]@);
                }
                let image = context.images[index].clone().concat(context.channel.suffix());
                Ok(image)
            } else {
                Err(LoaderError::ImageIndexOutOfRange)
            }
        },
        LoadMode::Listed(_) => Err(LoaderError::ListedModeUnsupported),
    }
}

/// The command line, being worked through.
pub struct ParameterParser {
    pub words: Vec<String>,
    pub position: usize,
}

impl ParameterParser {
    /// The arguments of the command line after the program's own name.
    pub fn new(arguments: Vec<String>) -> (r: ParameterParser)
        ensures
            r.words == arguments,
            r.position == 1,
    {
        ParameterParser { words: arguments, position: 1 }
    }

    /// Applies the next argument (see `parameter_step`); `Done` after the
    /// last. A refused argument leaves everything unchanged.
    pub fn step(&mut self, context: &mut Context, prefix: &mut String) -> (r: Result<Step, LoaderError>)
        ensures
            old(self).position >= old(self).words.len() ==> ((r matches Ok(Step::Done))
                && final(self).position == old(self).position && settings(*final(context), final(prefix)@)
                == settings(*old(context), old(prefix)@)),
            old(self).position < old(self).words.len() ==> match parameter_step(
                settings(*old(context), old(prefix)@),
                old(self).words.deep_view(),
                old(self).position as int,
            ) {
                Ok((st, next, file)) => {
                    &&& settings(*final(context), final(prefix)@) == st
                    &&& final(self).position == next
                    &&& match file {
                        Some(f) => (r matches Ok(Step::ParseConfig(name)) && name@ == f),
                        None => (r matches Ok(Step::Continue)),
                    }
                },
                Err(e) => r == Err::<Step, LoaderError>(e) && settings(*final(context), final(prefix)@)
                    == settings(*old(context), old(prefix)@),
            },
            final(self).words == old(self).words,
    {
        let p = self.position;
        let n = self.words.len();
        if p >= n {
            return Ok(Step::Done);
        }
        let ghost w = self.words.deep_view();
        proof {
            assert(w[p as int] == self.words[p as int]@);
            if p + 1 < n {
                assert(w[p + 1] == self.words[p + 1]@);
                lemma_parsed_in_range(w[p + 1], usize::MAX as int);
            }
        }
        let word = self.words[p].as_str();
        let has_next = p + 1 < n;
        if word.unicode_len() == 0 {
            return Err(LoaderError::EmptyArgument(p));
        }
        if word.get_char(0) != '-' {
            let image = prefix.clone().concat(word);
            context.images.push(image);
            proof {
                assert(context.images.deep_view() =~= settings(*old(context), old(prefix)@).images.push(
                    prefix@ + w[p as int],
                ));
            }
            self.position = p + 1;
            return Ok(Step::Continue);
        }
        if str_equal(word, "-t") {
            if !has_next {
                return Err(LoaderError::MissingTranslationFile);
            }
            context.translation_path = self.words[p + 1].clone();
            self.position = p + 2;
            Ok(Step::Continue)
        } else if str_equal(word, "-c") {
            if !has_next {
                return Err(LoaderError::MissingConfig);
            }
            let file = self.words[p + 1].clone();
            self.position = p + 2;
            Ok(Step::ParseConfig(file))
        } else if str_equal(word, "-s") {
            if !has_next {
                return Err(LoaderError::MissingSerialDevice);
            }
            context.serial_device_path = self.words[p + 1].clone();
            self.position = p + 2;
            Ok(Step::Continue)
        } else if str_equal(word, "-p") {
            if !has_next {
                return Err(LoaderError::MissingPrefix);
            }
            *prefix = self.words[p + 1].clone();
            self.position = p + 2;
            Ok(Step::Continue)
        } else if str_equal(word, "-u") {
            if !has_next {
                return Err(LoaderError::MissingIndex);
            }
            match parse_unsigned(self.words[p + 1].as_str(), usize::MAX as u64) {
                None => Err(LoaderError::BadIndex),
                Some(index) => {
                    context.load_mode = LoadMode::Indexed(index as usize);
                    self.position = p + 2;
                    Ok(Step::Continue)
                },
            }
        } else if str_equal(word, "-r") {
            if !has_next {
                return Err(LoaderError::MissingChannel);
            }
            match Channel::named(self.words[p + 1].as_str()) {
                None => Err(LoaderError::UnknownChannel(p + 1)),
                Some(channel) => {
                    context.channel = channel;
                    self.position = p + 2;
                    Ok(Step::Continue)
                },
            }
        } else if str_equal(word, "-i") {
            context.instant_load = true;
            self.position = p + 1;
            Ok(Step::Continue)
        } else {
            Err(LoaderError::InvalidFlag(p))
        }
    }
}

} // verus!

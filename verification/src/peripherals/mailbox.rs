//! Messages to the VideoCore firmware through the property-tag mailbox.
//!
//! The library builds the request words and reads the response words; the
//! exchange with the mailbox registers (waiting on the status register,
//! writing the buffer's bus address and reading the reply) is done by the
//! caller with `send`, `is_reply_for` and `receive` deciding what is written
//! and whether a reply is accepted.

use vstd::prelude::*;
use crate::property_tags::{push_word, push_tag_words, lemma_tag_search_in_range, lemma_appended_tag_found, lemma_appended_tag_extends_chain, chain_to, zeros, appended, fill_index, header_sane, max_u32, tag_search, tag_search_safe, tag_words};

verus! {

/// Status bit: nothing to read.
pub const MAILBOX_EMPTY: u32 = 0x4000_0000;

/// Status bit: no room to write.
pub const MAILBOX_FULL: u32 = 0x8000_0000;

/// The response code of a message the firmware processed successfully.
pub const RESPONSE_SUCCESS: u32 = 0x8000_0000;

#[derive(Copy, Clone, PartialEq, Eq, Debug, Structural)]
pub enum Channel {
    PowerManagment,
    Framebuffer,
    VirtualUART,
    VCHIQ,
    LEDs,
    Buttons,
    TouchScreen,
    Count,
    Tags,
    GPU,
}

/// The channel number carried in the low four bits of a mailbox word.
pub open spec fn channel_number(c: Channel) -> u32 {
    match c {
        Channel::PowerManagment => 0,
        Channel::Framebuffer => 1,
        Channel::VirtualUART => 2,
        Channel::VCHIQ => 3,
        Channel::LEDs => 4,
        Channel::Buttons => 5,
        Channel::TouchScreen => 6,
        Channel::Count => 7,
        Channel::Tags => 8,
        Channel::GPU => 9,
    }
}

impl Channel {
    pub fn number(&self) -> (r: u32)
        ensures
            r == channel_number(*self),
    {
        match self {
            Channel::PowerManagment => 0,
            Channel::Framebuffer => 1,
            Channel::VirtualUART => 2,
            Channel::VCHIQ => 3,
            Channel::LEDs => 4,
            Channel::Buttons => 5,
            Channel::TouchScreen => 6,
            Channel::Count => 7,
            Channel::Tags => 8,
            Channel::GPU => 9,
        }
    }
}

#[derive(Copy, Clone, PartialEq, Eq, Debug, Structural)]
pub enum MailboxTag {
    GetFirmwareVersion,
    GetBoardModel,
    GetBoardRevision,
    GetBoardSerial,
    GetARMMemory,
    GetVideoCoreMemory,
    GetTemperature,
    SetLEDStatus,
    GetFramebufferSize,
    SetPhysicalSize,
    SetVirtualSize,
    SetFramebufferDepth,
    SetPixelOrder,
    SetAlphaMode,
    AllocateFramebuffer,
    GetFramebufferPitch,
    SetVirtualOffset,
}

/// Tag code, request size and response size in bytes.
pub open spec fn tag_layout(t: MailboxTag) -> (u32, u32, u32) {
    match t {
        MailboxTag::GetFirmwareVersion => (0x00001, 0, 4),
        MailboxTag::GetBoardModel => (0x10001, 0, 4),
        MailboxTag::GetBoardRevision => (0x10002, 0, 4),
        MailboxTag::GetBoardSerial => (0x10004, 0, 8),
        MailboxTag::GetARMMemory => (0x10005, 0, 8),
        MailboxTag::GetVideoCoreMemory => (0x10006, 0, 8),
        MailboxTag::GetTemperature => (0x30006, 4, 8),
        MailboxTag::SetLEDStatus => (0x38041, 8, 8),
        MailboxTag::GetFramebufferSize => (0x40003, 0, 8),
        MailboxTag::SetPhysicalSize => (0x48003, 8, 8),
        MailboxTag::SetVirtualSize => (0x48004, 8, 8),
        MailboxTag::SetFramebufferDepth => (0x48005, 4, 4),
        MailboxTag::SetPixelOrder => (0x48006, 4, 4),
        MailboxTag::SetAlphaMode => (0x48007, 4, 4),
        MailboxTag::AllocateFramebuffer => (0x40001, 4, 8),
        MailboxTag::GetFramebufferPitch => (0x40008, 0, 4),
        MailboxTag::SetVirtualOffset => (0x48009, 8, 8),
    }
}

pub open spec fn tag_code(t: MailboxTag) -> u32 {
    tag_layout(t).0
}

impl MailboxTag {
    /// Tag code, request size and response size in bytes.
    pub fn layout(&self) -> (r: (u32, u32, u32))
        ensures
            r == tag_layout(*self),
    {
        match *self {
            MailboxTag::GetFirmwareVersion => (0x00001, 0, 4),
            MailboxTag::GetBoardModel => (0x10001, 0, 4),
            MailboxTag::GetBoardRevision => (0x10002, 0, 4),
            MailboxTag::GetBoardSerial => (0x10004, 0, 8),
            MailboxTag::GetARMMemory => (0x10005, 0, 8),
            MailboxTag::GetVideoCoreMemory => (0x10006, 0, 8),
            MailboxTag::GetTemperature => (0x30006, 4, 8),
            MailboxTag::SetLEDStatus => (0x38041, 8, 8),
            MailboxTag::GetFramebufferSize => (0x40003, 0, 8),
            MailboxTag::SetPhysicalSize => (0x48003, 8, 8),
            MailboxTag::SetVirtualSize => (0x48004, 8, 8),
            MailboxTag::SetFramebufferDepth => (0x48005, 4, 4),
            MailboxTag::SetPixelOrder => (0x48006, 4, 4),
            MailboxTag::SetAlphaMode => (0x48007, 4, 4),
            MailboxTag::AllocateFramebuffer => (0x40001, 4, 8),
            MailboxTag::GetFramebufferPitch => (0x40008, 0, 4),
            MailboxTag::SetVirtualOffset => (0x48009, 8, 8),
        }
    }
}

#[derive(Copy, Clone, PartialEq, Eq, Debug, Structural)]
pub enum OnBoardLed {
    Status,
    Power,
}

/// The firmware's number for an on-board LED.
pub open spec fn led_number(led: OnBoardLed) -> u32 {
    match led {
        OnBoardLed::Status => 42,
        OnBoardLed::Power => 130,
    }
}

/// The hardware state that shows `status`; the power LED is wired inverted.
pub open spec fn led_hardware_state(led: OnBoardLed, status: bool) -> u32 {
    match led {
        OnBoardLed::Status => if status {
            1
        } else {
            0
        },
        OnBoardLed::Power => if status {
            0
        } else {
            1
        },
    }
}

impl OnBoardLed {
    pub fn number(&self) -> (r: u32)
        ensures
            r == led_number(*self),
    {
        match self {
            OnBoardLed::Status => 42,
            OnBoardLed::Power => 130,
        }
    }

    pub fn status_to_hardware_state(&self, status: bool) -> (r: u32)
        ensures
            r == led_hardware_state(*self, status),
    {
        match self {
            OnBoardLed::Status => {
                if status {
                    1
                } else {
                    0
                }
            },
            OnBoardLed::Power => {
                if !status {
                    1
                } else {
                    0
                }
            },
        }
    }
}

#[derive(Copy, Clone, PartialEq, Eq, Debug, Structural)]
pub enum AlphaMode {
    Opaque,
    Transparent,
    Ignored,
}

pub open spec fn alpha_mode_number(m: AlphaMode) -> u32 {
    match m {
        AlphaMode::Opaque => 0,
        AlphaMode::Transparent => 1,
        AlphaMode::Ignored => 2,
    }
}

impl AlphaMode {
    pub fn number(&self) -> (r: u32)
        ensures
            r == alpha_mode_number(*self),
    {
        match self {
            AlphaMode::Opaque => 0,
            AlphaMode::Transparent => 1,
            AlphaMode::Ignored => 2,
        }
    }
}

#[derive(Copy, Clone, PartialEq, Eq, Debug, Structural)]
pub struct FramebufferSize {
    pub width: u32,
    pub height: u32,
}

#[derive(Copy, Clone, PartialEq, Eq, Debug, Structural)]
pub struct MemoryLayout {
    pub address: u32,
    pub size: u32,
}

/// The words a request for `tag` appends: code, value buffer size, request
/// size, the request data, and zeros up to the value buffer size.
pub open spec fn request_words(tag: MailboxTag, data: Seq<u32>) -> Seq<u32> {
    let (code, request, response) = tag_layout(tag);
    let size = max_u32(request, response);
    tag_words(seq![code, size, request], data, (size / 4) as int)
}

/// The message has a sane header and room for the request for `tag`.
pub open spec fn room_for(b: Seq<u32>, n: int, tag: MailboxTag) -> bool {
    let (code, request, response) = tag_layout(tag);
    &&& b.len() == n
    &&& n < 0x4000_0000
    &&& header_sane(b)
    &&& fill_index(b) + 3 + (max_u32(request, response) / 4) as int <= n
}

/// The tag walk of the message finds `tag`, and its value buffer holds at
/// least `words` words inside the message.
pub open spec fn has_value(b: Seq<u32>, n: int, tag: MailboxTag, words: int) -> bool {
    &&& b.len() == n
    &&& n < 0x4000_0000
    &&& tag_search_safe(b, n, tag_code(tag), 2)
    &&& tag_search(b, n, tag_code(tag), 2) is Some
    &&& tag_search(b, n, tag_code(tag), 2)->Some_0 + 3 + words <= n
}

/// Word `k` of the value buffer of the first `tag` in the message.
pub open spec fn value_word(b: Seq<u32>, n: int, tag: MailboxTag, k: int) -> u32 {
    b[tag_search(b, n, tag_code(tag), 2)->Some_0 + 3 + k]
}

/// The mailbox channels, on-board LEDs and alpha modes carry the
/// firmware's numbers: property tags go on channel 8; the status LED is 42
/// and lights at state 1; the power LED is 130 and, wired inverted, lights
/// at state 0; alpha modes are 0 (opaque), 1 (transparent) and 2 (ignored).
pub proof fn lemma_firmware_numbers()
    ensures
        channel_number(Channel::PowerManagment) == 0,
        channel_number(Channel::Framebuffer) == 1,
        channel_number(Channel::VirtualUART) == 2,
        channel_number(Channel::VCHIQ) == 3,
        channel_number(Channel::LEDs) == 4,
        channel_number(Channel::Buttons) == 5,
        channel_number(Channel::TouchScreen) == 6,
        channel_number(Channel::Count) == 7,
        channel_number(Channel::Tags) == 8,
        channel_number(Channel::GPU) == 9,
        led_number(OnBoardLed::Status) == 42,
        led_number(OnBoardLed::Power) == 130,
        led_hardware_state(OnBoardLed::Status, true) == 1,
        led_hardware_state(OnBoardLed::Status, false) == 0,
        led_hardware_state(OnBoardLed::Power, true) == 0,
        led_hardware_state(OnBoardLed::Power, false) == 1,
        alpha_mode_number(AlphaMode::Opaque) == 0,
        alpha_mode_number(AlphaMode::Transparent) == 1,
        alpha_mode_number(AlphaMode::Ignored) == 2,
{
}

/// The tags carry the numbers of the firmware's property-tag interface,
/// with its request and response sizes in bytes.
pub proof fn lemma_firmware_tag_table()
    ensures
        tag_layout(MailboxTag::GetFirmwareVersion) == (0x00001u32, 0u32, 4u32),
        tag_layout(MailboxTag::GetBoardModel) == (0x10001u32, 0u32, 4u32),
        tag_layout(MailboxTag::GetBoardRevision) == (0x10002u32, 0u32, 4u32),
        tag_layout(MailboxTag::GetBoardSerial) == (0x10004u32, 0u32, 8u32),
        tag_layout(MailboxTag::GetARMMemory) == (0x10005u32, 0u32, 8u32),
        tag_layout(MailboxTag::GetVideoCoreMemory) == (0x10006u32, 0u32, 8u32),
        tag_layout(MailboxTag::GetTemperature) == (0x30006u32, 4u32, 8u32),
        tag_layout(MailboxTag::SetLEDStatus) == (0x38041u32, 8u32, 8u32),
        tag_layout(MailboxTag::GetFramebufferSize) == (0x40003u32, 0u32, 8u32),
        tag_layout(MailboxTag::SetPhysicalSize) == (0x48003u32, 8u32, 8u32),
        tag_layout(MailboxTag::SetVirtualSize) == (0x48004u32, 8u32, 8u32),
        tag_layout(MailboxTag::SetFramebufferDepth) == (0x48005u32, 4u32, 4u32),
        tag_layout(MailboxTag::SetPixelOrder) == (0x48006u32, 4u32, 4u32),
        tag_layout(MailboxTag::SetAlphaMode) == (0x48007u32, 4u32, 4u32),
        tag_layout(MailboxTag::AllocateFramebuffer) == (0x40001u32, 4u32, 8u32),
        tag_layout(MailboxTag::GetFramebufferPitch) == (0x40008u32, 0u32, 4u32),
        tag_layout(MailboxTag::SetVirtualOffset) == (0x48009u32, 8u32, 8u32),
{
}

/// The requests that size the frame carry the firmware's tag for the
/// physical display (0x48003) and for the virtual buffer (0x48004), an
/// 8-byte value buffer, the 8-byte request, then width and height.
pub proof fn lemma_size_requests(width: u32, height: u32)
    ensures
        request_words(MailboxTag::SetPhysicalSize, seq![width, height]) == seq![0x48003u32, 8u32, 8u32, width, height],
        request_words(MailboxTag::SetVirtualSize, seq![width, height]) == seq![0x48004u32, 8u32, 8u32, width, height],
{
    let d = seq![width, height];
    lemma_request_words_shape(MailboxTag::SetPhysicalSize, d);
    lemma_request_words_shape(MailboxTag::SetVirtualSize, d);
    assert(request_words(MailboxTag::SetPhysicalSize, d) =~= seq![0x48003u32, 8u32, 8u32, width, height]);
    assert(request_words(MailboxTag::SetVirtualSize, d) =~= seq![0x48004u32, 8u32, 8u32, width, height]);
}

/// Facts on the shape of a request: its length, its code word and its size
/// word.
pub proof fn lemma_request_words_shape(tag: MailboxTag, data: Seq<u32>)
    requires
        data.len() == tag_layout(tag).1 / 4,
    ensures
        request_words(tag, data).len() == 3 + (max_u32(tag_layout(tag).1, tag_layout(tag).2) / 4) as int,
        request_words(tag, data)[0] == tag_code(tag),
        request_words(tag, data)[1] == max_u32(tag_layout(tag).1, tag_layout(tag).2),
        tag_code(tag) != 0,
        forall|k: int| 0 <= k < data.len() ==> #[trigger] request_words(tag, data)[3 + k] == data[k],
{
    let (code, request, response) = tag_layout(tag);
    let size = max_u32(request, response);
    let w = request_words(tag, data);
    assert(zeros((size / 4) as int - data.len()).len() == (size / 4) as int - data.len());
    assert forall|k: int| 0 <= k < data.len() implies #[trigger] w[3 + k] == data[k] by {
        assert(w[3 + k] == (seq![code, size, request] + data)[3 + k]);
    }
}

/// The words of a message with no tags: a size of 8 bytes (the header),
/// everything else zero.
pub open spec fn empty_message(n: int) -> Seq<u32> {
    Seq::new(n as nat, |i: int| if i == 0 { 8u32 } else { 0u32 })
}

/// A fresh message holds no tags: its (empty) tag chain ends where the next
/// request is written.
pub proof fn lemma_new_message_has_empty_chain(b: Seq<u32>, n: int, code: u32)
    requires
        b == empty_message(n),
        n >= 1,
    ensures
        fill_index(b) == 2,
        chain_to(b, n, 2, fill_index(b), code),
{
}

/// A request written after earlier requests with other codes is found again
/// by the tag walk at the place where it was written, and each word of the
/// value buffer that the request filled reads back its request data.
pub proof fn lemma_request_found(b: Seq<u32>, n: int, tag: MailboxTag, data: Seq<u32>)
    requires
        room_for(b, n, tag),
        data.len() == tag_layout(tag).1 / 4,
        chain_to(b, n, 2, fill_index(b), tag_code(tag)),
    ensures
        tag_search(appended(b, request_words(tag, data)), n, tag_code(tag), 2) == Some(
            fill_index(b),
        ),
        has_value(appended(b, request_words(tag, data)), n, tag, (max_u32(tag_layout(tag).1, tag_layout(tag).2) / 4) as int),
        forall|k: int|
            0 <= k < data.len() ==> #[trigger] value_word(
                appended(b, request_words(tag, data)),
                n,
                tag,
                k,
            ) == data[k],
{
    lemma_request_words_shape(tag, data);
    let w = request_words(tag, data);
    lemma_appended_tag_found(b, n, w);
    let c = appended(b, w);
    assert forall|k: int| 0 <= k < data.len() implies #[trigger] value_word(c, n, tag, k) == data[k] by {
        assert(c[fill_index(b) + 3 + k] == w[3 + k]);
    }
}

/// Writing a request keeps the earlier tags a chain, now ending after the
/// new request, for every code other than the request's: so requests for
/// different tags written one after another are each found again.
pub proof fn lemma_request_keeps_chain(
    b: Seq<u32>,
    n: int,
    tag: MailboxTag,
    data: Seq<u32>,
    code: u32,
)
    requires
        room_for(b, n, tag),
        data.len() == tag_layout(tag).1 / 4,
        code != tag_code(tag),
        chain_to(b, n, 2, fill_index(b), code),
    ensures
        chain_to(
            appended(b, request_words(tag, data)),
            n,
            2,
            fill_index(appended(b, request_words(tag, data))),
            code,
        ),
{
    lemma_request_words_shape(tag, data);
    lemma_appended_tag_extends_chain(b, n, request_words(tag, data), code);
}

/// A property-tag message of `N` words, aligned for the mailbox.
pub struct Message<const N: usize> {
    buffer: Vec<u32>,
}

impl<const N: usize> View for Message<N> {
    type V = Seq<u32>;

    closed spec fn view(&self) -> Seq<u32> {
        self.buffer@
    }
}

impl<const N: usize> Message<N> {
    /// An empty request: size 8 bytes (the header), everything else zero.
    pub fn new() -> (r: Self)
        requires
            1 <= N < 0x4000_0000,
        ensures
            r@ == empty_message(N as int),
    {
        let mut buffer: Vec<u32> = Vec::new();
        while buffer.len() < N
            invariant
                buffer.len() <= N,
                forall|i: int| 0 <= i < buffer.len() ==> buffer@[i] == 0,
            decreases N - buffer.len(),
        {
            buffer.push(0);
        }
        buffer.set(0, 8);
        let r = Self { buffer };
        assert(r@ =~= Seq::new(N as nat, |i: int| if i == 0 { 8u32 } else { 0u32 }));
        r
    }

    fn push(&mut self, data: u32)
        requires
            old(self)@.len() == N,
            N < 0x4000_0000,
            header_sane(old(self)@),
            fill_index(old(self)@) < N,
        ensures
            final(self)@ == appended(old(self)@, seq![data]),
    {
        push_word(&mut self.buffer, data);
    }

    fn push_tag(&mut self, tag: MailboxTag, data: &[u32])
        requires
            room_for(old(self)@, N as int, tag),
            data@.len() == tag_layout(tag).1 / 4,
        ensures
            final(self)@ == appended(old(self)@, request_words(tag, data@)),
    {
        let (code, request, response) = tag.layout();
        let size = if request < response {
            response
        } else {
            request
        };
        push_tag_words(&mut self.buffer, (code, size, request), data, response);
    }

    /// The word to write to the mailbox's data register: the bus address of
    /// the message buffer (16-byte aligned) with the channel in its low four
    /// bits.
    fn send(&self, channel: Channel, buffer_address: u32) -> (r: u32)
        requires
            buffer_address % 16 == 0,
        ensures
            r == buffer_address + channel_number(channel),
    {
        let c = channel.number();
        let r = buffer_address | c;
        assert(buffer_address % 16 == 0 && c < 16 ==> buffer_address | c == buffer_address + c)
            by (bit_vector);
        r
    }

    /// Whether the reply word `address` read from the mailbox answers this
    /// message: it carries the buffer's bus address, and the firmware marked
    /// the message as processed successfully.
    fn receive(&self, address: u32, buffer_address: u32) -> (r: bool)
        requires
            self@.len() == N,
            N >= 2,
        ensures
            r == (address - address % 16 == buffer_address && self@[1] == RESPONSE_SUCCESS),
    {
        let masked = address & !0b1111u32;
        assert(address & !0b1111u32 == address - address % 16) by (bit_vector);
        masked == buffer_address && self.buffer[1] == RESPONSE_SUCCESS
    }

    /// Appends the end tag. The message is then ready to be sent on a
    /// channel: see `send_word`.
    pub fn finalize_send_receive(&mut self)
        requires
            old(self)@.len() == N,
            N < 0x4000_0000,
            header_sane(old(self)@),
            fill_index(old(self)@) < N,
        ensures
            final(self)@ == appended(old(self)@, seq![0u32]),
    {
        self.push(0);
    }

    /// The word that sends this message on `channel` when the buffer lies at
    /// the 16-byte aligned bus address `buffer_address`.
    pub fn send_word(&self, channel: Channel, buffer_address: u32) -> (r: u32)
        requires
            buffer_address % 16 == 0,
        ensures
            r == buffer_address + channel_number(channel),
    {
        self.send(channel, buffer_address)
    }

    /// Whether `word`, read from the mailbox, is a reply on `channel`.
    pub fn is_reply_for(channel: Channel, word: u32) -> (r: bool)
        ensures
            r == (word % 16 == channel_number(channel)),
    {
        let c = channel.number();
        assert(word & 0b1111u32 == word % 16) by (bit_vector);
        word & 0b1111 == c
    }

    /// Whether the reply `address` accepts this message (see `receive`).
    pub fn reply_accepted(&self, address: u32, buffer_address: u32) -> (r: bool)
        requires
            self@.len() == N,
            N >= 2,
        ensures
            r == (address - address % 16 == buffer_address && self@[1] == RESPONSE_SUCCESS),
    {
        self.receive(address, buffer_address)
    }

    /// The message words, to hand to the firmware.
    pub fn words(&self) -> (r: &Vec<u32>)
        ensures
            r@ == self@,
    {
        &self.buffer
    }

    /// Takes the words the firmware wrote back into the message buffer.
    pub fn store_response(&mut self, response: &Vec<u32>)
        requires
            old(self)@.len() == N,
            response.len() == N,
        ensures
            final(self)@ == response@,
    {
        let mut i: usize = 0;
        while i < N
            invariant
                self.buffer.len() == N,
                response.len() == N,
                i <= N,
                forall|j: int| 0 <= j < i ==> self.buffer@[j] == response@[j],
            decreases N - i,
        {
            self.buffer.set(i, response[i]);
            i += 1;
        }
        assert(self@ =~= response@);
    }

    fn tag_index(&self, tag: MailboxTag) -> (r: Option<usize>)
        requires
            self@.len() == N,
            N < 0x4000_0000,
            tag_search_safe(self@, N as int, tag_code(tag), 2),
        ensures
            r == (match tag_search(self@, N as int, tag_code(tag), 2) {
                Some(i) => Some(i as usize),
                None => None::<usize>,
            }),
    {
        proof {
            lemma_tag_search_in_range(self@, N as int, tag_code(tag), 2);
        }
        let (code, _, _) = tag.layout();
        let mut index: usize = 2;
        while index < N
            invariant
                self.buffer.len() == N,
                N < 0x4000_0000,
                code == tag_code(tag),
                index >= 2,
                tag_search(self@, N as int, code, index as int) == tag_search(
                    self@,
                    N as int,
                    code,
                    2,
                ),
                tag_search_safe(self@, N as int, code, index as int),
            decreases N - index,
        {
            if self.buffer[index] == 0 {
                return None;
            }
            if self.buffer[index] == code {
                return Some(index);
            }
            let buffer_size = self.buffer[index + 1] / 4;
            let next = index + 3 + buffer_size as usize;
            if next >= N {
                return None;
            }
            index = next;
        }
        None
    }

    /// Whether the response holds `tag` with a value buffer of at least
    /// `words` words inside the message, so that its response function can
    /// read it.
    pub fn holds_value(&self, tag: MailboxTag, words: usize) -> (r: bool)
        ensures
            r == has_value(self@, N as int, tag, words as int),
    {
        if self.buffer.len() != N || N >= 0x4000_0000 {
            return false;
        }
        let (code, _, _) = tag.layout();
        let mut index: usize = 2;
        loop
            invariant
                self.buffer.len() == N,
                N < 0x4000_0000,
                code == tag_code(tag),
                index >= 2,
                tag_search(self@, N as int, code, index as int) == tag_search(self@, N as int, code, 2),
                tag_search_safe(self@, N as int, code, index as int) == tag_search_safe(
                    self@,
                    N as int,
                    code,
                    2,
                ),
            decreases N - index,
        {
            if index >= N {
                return false;
            }
            if self.buffer[index] == 0 {
                return false;
            }
            if self.buffer[index] == code {
                return index + 3 <= N && words <= N - index - 3;
            }
            if index + 1 >= N {
                return false;
            }
            let buffer_size = self.buffer[index + 1] / 4;
            let next = index + 3 + buffer_size as usize;
            if next >= N {
                return false;
            }
            index = next;
        }
    }

    /// Word `k` of the value buffer of the first `tag` in the message.
    pub fn value_word(&self, tag: MailboxTag, k: usize) -> (r: u32)
        requires
            has_value(self@, N as int, tag, k + 1),
        ensures
            r == value_word(self@, N as int, tag, k as int),
    {
        proof {
            lemma_tag_search_in_range(self@, N as int, tag_code(tag), 2);
        }
        let found = self.tag_index(tag);
        let index = found.unwrap();
        assert(index == tag_search(self@, N as int, tag_code(tag), 2)->Some_0);
        self.buffer[index + 3 + k]
    }

    pub fn get_firmware_version_request(&mut self)
        requires
            room_for(old(self)@, N as int, MailboxTag::GetFirmwareVersion),
        ensures
            final(self)@ == appended(old(self)@, request_words(MailboxTag::GetFirmwareVersion, seq![])),
    {
        self.push_tag(MailboxTag::GetFirmwareVersion, &[]);
    }

    pub fn get_board_model_request(&mut self)
        requires
            room_for(old(self)@, N as int, MailboxTag::GetBoardModel),
        ensures
            final(self)@ == appended(old(self)@, request_words(MailboxTag::GetBoardModel, seq![])),
    {
        self.push_tag(MailboxTag::GetBoardModel, &[]);
    }

    pub fn get_board_revision_request(&mut self)
        requires
            room_for(old(self)@, N as int, MailboxTag::GetBoardRevision),
        ensures
            final(self)@ == appended(old(self)@, request_words(MailboxTag::GetBoardRevision, seq![])),
    {
        self.push_tag(MailboxTag::GetBoardRevision, &[]);
    }

    pub fn get_board_serial_request(&mut self)
        requires
            room_for(old(self)@, N as int, MailboxTag::GetBoardSerial),
        ensures
            final(self)@ == appended(old(self)@, request_words(MailboxTag::GetBoardSerial, seq![])),
    {
        self.push_tag(MailboxTag::GetBoardSerial, &[]);
    }

    pub fn get_arm_memory_request(&mut self)
        requires
            room_for(old(self)@, N as int, MailboxTag::GetARMMemory),
        ensures
            final(self)@ == appended(old(self)@, request_words(MailboxTag::GetARMMemory, seq![])),
    {
        self.push_tag(MailboxTag::GetARMMemory, &[]);
    }

    pub fn get_video_core_memory_request(&mut self)
        requires
            room_for(old(self)@, N as int, MailboxTag::GetVideoCoreMemory),
        ensures
            final(self)@ == appended(old(self)@, request_words(MailboxTag::GetVideoCoreMemory, seq![])),
    {
        self.push_tag(MailboxTag::GetVideoCoreMemory, &[]);
    }

    pub fn set_led_status_request(&mut self, led: OnBoardLed, status: bool)
        requires
            room_for(old(self)@, N as int, MailboxTag::SetLEDStatus),
        ensures
            final(self)@ == appended(old(self)@, request_words(MailboxTag::SetLEDStatus, seq![led_number(led), led_hardware_state(led, status)])),
    {
        let hardware_state = led.status_to_hardware_state(status);
        self.push_tag(MailboxTag::SetLEDStatus, &[led.number(), hardware_state]);
    }

    pub fn get_framebuffer_size_request(&mut self)
        requires
            room_for(old(self)@, N as int, MailboxTag::GetFramebufferSize),
        ensures
            final(self)@ == appended(old(self)@, request_words(MailboxTag::GetFramebufferSize, seq![])),
    {
        self.push_tag(MailboxTag::GetFramebufferSize, &[]);
    }

    pub fn set_physical_size_request(&mut self, framebuffer_size: FramebufferSize)
        requires
            room_for(old(self)@, N as int, MailboxTag::SetPhysicalSize),
        ensures
            final(self)@ == appended(old(self)@, request_words(MailboxTag::SetPhysicalSize, seq![framebuffer_size.width, framebuffer_size.height])),
    {
        self.push_tag(MailboxTag::SetPhysicalSize, &[framebuffer_size.width, framebuffer_size.height]);
    }

    pub fn set_virtual_size_request(&mut self, framebuffer_size: FramebufferSize)
        requires
            room_for(old(self)@, N as int, MailboxTag::SetVirtualSize),
        ensures
            final(self)@ == appended(old(self)@, request_words(MailboxTag::SetVirtualSize, seq![framebuffer_size.width, framebuffer_size.height])),
    {
        self.push_tag(MailboxTag::SetVirtualSize, &[framebuffer_size.width, framebuffer_size.height]);
    }

    pub fn set_virtual_offset_request(&mut self, offset_x: u32, offset_y: u32)
        requires
            room_for(old(self)@, N as int, MailboxTag::SetVirtualOffset),
        ensures
            final(self)@ == appended(old(self)@, request_words(MailboxTag::SetVirtualOffset, seq![offset_x, offset_y])),
    {
        self.push_tag(MailboxTag::SetVirtualOffset, &[offset_x, offset_y]);
    }

    pub fn set_framebuffer_depth_request(&mut self, depth: u32)
        requires
            room_for(old(self)@, N as int, MailboxTag::SetFramebufferDepth),
        ensures
            final(self)@ == appended(old(self)@, request_words(MailboxTag::SetFramebufferDepth, seq![depth])),
    {
        self.push_tag(MailboxTag::SetFramebufferDepth, &[depth]);
    }

    pub fn set_alpha_mode_request(&mut self, alpha_mode: AlphaMode)
        requires
            room_for(old(self)@, N as int, MailboxTag::SetAlphaMode),
        ensures
            final(self)@ == appended(old(self)@, request_words(MailboxTag::SetAlphaMode, seq![alpha_mode_number(alpha_mode)])),
    {
        self.push_tag(MailboxTag::SetAlphaMode, &[alpha_mode.number()]);
    }

    pub fn set_pixel_order_request(&mut self, pixel_order: u32)
        requires
            room_for(old(self)@, N as int, MailboxTag::SetPixelOrder),
        ensures
            final(self)@ == appended(old(self)@, request_words(MailboxTag::SetPixelOrder, seq![pixel_order])),
    {
        self.push_tag(MailboxTag::SetPixelOrder, &[pixel_order]);
    }

    pub fn allocate_framebuffer_request(&mut self, alignment: u32)
        requires
            room_for(old(self)@, N as int, MailboxTag::AllocateFramebuffer),
        ensures
            final(self)@ == appended(old(self)@, request_words(MailboxTag::AllocateFramebuffer, seq![alignment])),
    {
        self.push_tag(MailboxTag::AllocateFramebuffer, &[alignment]);
    }

    pub fn get_framebuffer_pitch_request(&mut self)
        requires
            room_for(old(self)@, N as int, MailboxTag::GetFramebufferPitch),
        ensures
            final(self)@ == appended(old(self)@, request_words(MailboxTag::GetFramebufferPitch, seq![])),
    {
        self.push_tag(MailboxTag::GetFramebufferPitch, &[]);
    }

    pub fn get_temperature_request(&mut self)
        requires
            room_for(old(self)@, N as int, MailboxTag::GetTemperature),
        ensures
            final(self)@ == appended(old(self)@, request_words(MailboxTag::GetTemperature, seq![1u32])),
    {
        self.push_tag(MailboxTag::GetTemperature, &[1]);
    }

    pub fn get_firmware_version_response(&self) -> (r: u32)
        requires
            has_value(self@, N as int, MailboxTag::GetFirmwareVersion, 1),
        ensures
            r == value_word(self@, N as int, MailboxTag::GetFirmwareVersion, 0),
    {
        self.value_word(MailboxTag::GetFirmwareVersion, 0)
    }

    pub fn get_board_model_response(&self) -> (r: u32)
        requires
            has_value(self@, N as int, MailboxTag::GetBoardModel, 1),
        ensures
            r == value_word(self@, N as int, MailboxTag::GetBoardModel, 0),
    {
        self.value_word(MailboxTag::GetBoardModel, 0)
    }

    pub fn get_board_revision_response(&self) -> (r: u32)
        requires
            has_value(self@, N as int, MailboxTag::GetBoardRevision, 1),
        ensures
            r == value_word(self@, N as int, MailboxTag::GetBoardRevision, 0),
    {
        self.value_word(MailboxTag::GetBoardRevision, 0)
    }

    pub fn get_arm_memory_response(&self) -> (r: MemoryLayout)
        requires
            has_value(self@, N as int, MailboxTag::GetARMMemory, 2),
        ensures
            r == (MemoryLayout { address: value_word(self@, N as int, MailboxTag::GetARMMemory, 0), size: value_word(self@, N as int, MailboxTag::GetARMMemory, 1) }),
    {
        MemoryLayout { address: self.value_word(MailboxTag::GetARMMemory, 0), size: self.value_word(MailboxTag::GetARMMemory, 1) }
    }

    pub fn get_video_core_memory_response(&self) -> (r: MemoryLayout)
        requires
            has_value(self@, N as int, MailboxTag::GetVideoCoreMemory, 2),
        ensures
            r == (MemoryLayout { address: value_word(self@, N as int, MailboxTag::GetVideoCoreMemory, 0), size: value_word(self@, N as int, MailboxTag::GetVideoCoreMemory, 1) }),
    {
        MemoryLayout { address: self.value_word(MailboxTag::GetVideoCoreMemory, 0), size: self.value_word(MailboxTag::GetVideoCoreMemory, 1) }
    }

    pub fn get_framebuffer_size_response(&self) -> (r: FramebufferSize)
        requires
            has_value(self@, N as int, MailboxTag::GetFramebufferSize, 2),
        ensures
            r == (FramebufferSize { width: value_word(self@, N as int, MailboxTag::GetFramebufferSize, 0), height: value_word(self@, N as int, MailboxTag::GetFramebufferSize, 1) }),
    {
        FramebufferSize { width: self.value_word(MailboxTag::GetFramebufferSize, 0), height: self.value_word(MailboxTag::GetFramebufferSize, 1) }
    }

    pub fn set_physical_size_response(&mut self) -> (r: FramebufferSize)
        requires
            has_value(old(self)@, N as int, MailboxTag::SetPhysicalSize, 2),
        ensures
            r == (FramebufferSize { width: value_word(old(self)@, N as int, MailboxTag::SetPhysicalSize, 0), height: value_word(old(self)@, N as int, MailboxTag::SetPhysicalSize, 1) }),
            final(self)@ == old(self)@,
    {
        FramebufferSize { width: self.value_word(MailboxTag::SetPhysicalSize, 0), height: self.value_word(MailboxTag::SetPhysicalSize, 1) }
    }

    pub fn set_virtual_size_response(&mut self) -> (r: FramebufferSize)
        requires
            has_value(old(self)@, N as int, MailboxTag::SetVirtualSize, 2),
        ensures
            r == (FramebufferSize { width: value_word(old(self)@, N as int, MailboxTag::SetVirtualSize, 0), height: value_word(old(self)@, N as int, MailboxTag::SetVirtualSize, 1) }),
            final(self)@ == old(self)@,
    {
        FramebufferSize { width: self.value_word(MailboxTag::SetVirtualSize, 0), height: self.value_word(MailboxTag::SetVirtualSize, 1) }
    }

    pub fn set_framebuffer_depth_response(&self) -> (r: u32)
        requires
            has_value(self@, N as int, MailboxTag::SetFramebufferDepth, 1),
        ensures
            r == value_word(self@, N as int, MailboxTag::SetFramebufferDepth, 0),
    {
        self.value_word(MailboxTag::SetFramebufferDepth, 0)
    }

    pub fn set_pixel_order_response(&self) -> (r: u32)
        requires
            has_value(self@, N as int, MailboxTag::SetPixelOrder, 1),
        ensures
            r == value_word(self@, N as int, MailboxTag::SetPixelOrder, 0),
    {
        self.value_word(MailboxTag::SetPixelOrder, 0)
    }

    pub fn allocate_framebuffer_response(&self) -> (r: MemoryLayout)
        requires
            has_value(self@, N as int, MailboxTag::AllocateFramebuffer, 2),
        ensures
            r == (MemoryLayout { address: value_word(self@, N as int, MailboxTag::AllocateFramebuffer, 0), size: value_word(self@, N as int, MailboxTag::AllocateFramebuffer, 1) }),
    {
        MemoryLayout { address: self.value_word(MailboxTag::AllocateFramebuffer, 0), size: self.value_word(MailboxTag::AllocateFramebuffer, 1) }
    }

    pub fn get_framebuffer_pitch_response(&self) -> (r: u32)
        requires
            has_value(self@, N as int, MailboxTag::GetFramebufferPitch, 1),
        ensures
            r == value_word(self@, N as int, MailboxTag::GetFramebufferPitch, 0),
    {
        self.value_word(MailboxTag::GetFramebufferPitch, 0)
    }

    pub fn get_temperature_response(&self) -> (r: u32)
        requires
            has_value(self@, N as int, MailboxTag::GetTemperature, 2),
        ensures
            r == value_word(self@, N as int, MailboxTag::GetTemperature, 1),
    {
        self.value_word(MailboxTag::GetTemperature, 1)
    }

    pub fn get_board_serial_response(&self) -> (r: u64)
        requires
            has_value(self@, N as int, MailboxTag::GetBoardSerial, 2),
        ensures
            r == value_word(self@, N as int, MailboxTag::GetBoardSerial, 1) as int * 0x1_0000_0000
                + value_word(self@, N as int, MailboxTag::GetBoardSerial, 0) as int,
    {
        let lower_word = self.value_word(MailboxTag::GetBoardSerial, 0);
        let upper_word = self.value_word(MailboxTag::GetBoardSerial, 1);
        let upper = (upper_word as u64) << 32;
        let lower = lower_word as u64;
        assert(((upper_word as u64) << 32) | (lower_word as u64) == (upper_word as u64) * 0x1_0000_0000u64 + (lower_word as u64)) by (bit_vector);
        upper | lower
    }

    pub fn set_alpha_mode_response(&self) -> (r: AlphaMode)
        requires
            has_value(self@, N as int, MailboxTag::SetAlphaMode, 1),
            value_word(self@, N as int, MailboxTag::SetAlphaMode, 0) <= 2,
        ensures
            alpha_mode_number(r) == value_word(self@, N as int, MailboxTag::SetAlphaMode, 0),
    {
        let mode = self.value_word(MailboxTag::SetAlphaMode, 0);
        if mode == 0 {
            AlphaMode::Opaque
        } else if mode == 1 {
            AlphaMode::Transparent
        } else {
            AlphaMode::Ignored
        }
    }
}

} // verus!

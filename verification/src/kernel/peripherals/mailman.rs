//! The kernel's property-tag letters. Unlike the other message types, a
//! letter's tag header is code, request size, response size, and the tag
//! walk does not stop at an end tag.

use vstd::prelude::*;
use crate::property_tags::{
    appended, can_push, fill_index, header_sane, push_tag_words, push_word_anywhere, pushed,
    tag_words, value_words,
};

pub use crate::peripherals::mailbox::{channel_number, Channel};

verus! {

/// The number of words in a letter.
pub const BUFFER_LENGTH: usize = 32;

#[derive(Copy, Clone, PartialEq, Eq, Debug, Structural)]
pub enum MailboxTag {
    SetPowerState,
    GetFramebufferSize,
    SetPhysicalSize,
    SetVirtualSize,
    SetFramebufferDepth,
    AllocateFramebuffer,
    GetFramebufferPitch,
}

/// Tag code, request size and response size in bytes.
pub open spec fn tag_layout(t: MailboxTag) -> (u32, u32, u32) {
    match t {
        MailboxTag::SetPowerState => (0x38041, 8, 0),
        MailboxTag::GetFramebufferSize => (0x40003, 8, 0),
        MailboxTag::SetPhysicalSize => (0x48003, 8, 8),
        MailboxTag::SetVirtualSize => (0x48004, 8, 8),
        MailboxTag::SetFramebufferDepth => (0x48005, 4, 4),
        MailboxTag::AllocateFramebuffer => (0x40001, 8, 4),
        MailboxTag::GetFramebufferPitch => (0x40008, 4, 0),
    }
}

/// The kernel's tags carry the numbers of the firmware's property-tag
/// interface, with the request and response sizes its letters use.
pub proof fn lemma_firmware_tag_table()
    ensures
        tag_layout(MailboxTag::SetPowerState) == (0x38041u32, 8u32, 0u32),
        tag_layout(MailboxTag::GetFramebufferSize) == (0x40003u32, 8u32, 0u32),
        tag_layout(MailboxTag::SetPhysicalSize) == (0x48003u32, 8u32, 8u32),
        tag_layout(MailboxTag::SetVirtualSize) == (0x48004u32, 8u32, 8u32),
        tag_layout(MailboxTag::SetFramebufferDepth) == (0x48005u32, 4u32, 4u32),
        tag_layout(MailboxTag::AllocateFramebuffer) == (0x40001u32, 8u32, 4u32),
        tag_layout(MailboxTag::GetFramebufferPitch) == (0x40008u32, 4u32, 0u32),
{
}

impl MailboxTag {
    /// Tag code, request size and response size in bytes.
    pub fn layout(&self) -> (r: (u32, u32, u32))
        ensures
            r == tag_layout(*self),
    {
        match *self {
            MailboxTag::SetPowerState => (0x38041, 8, 0),
            MailboxTag::GetFramebufferSize => (0x40003, 8, 0),
            MailboxTag::SetPhysicalSize => (0x48003, 8, 8),
            MailboxTag::SetVirtualSize => (0x48004, 8, 8),
            MailboxTag::SetFramebufferDepth => (0x48005, 4, 4),
            MailboxTag::AllocateFramebuffer => (0x40001, 8, 4),
            MailboxTag::GetFramebufferPitch => (0x40008, 4, 0),
        }
    }
}

/// The words a tag appends to a letter: code, request size, response size,
/// the request data, then zeros until the response fits.
pub open spec fn letter_tag_words(tag: MailboxTag, data: Seq<u32>) -> Seq<u32> {
    let (code, request, response) = tag_layout(tag);
    tag_words(seq![code, request, response], data, value_words(data.len() as int, response))
}

/// The first tag with `code` on the walk from word `index`, which steps
/// over each tag by its request size word and ends only at the end of the
/// letter.
pub open spec fn letter_tag_search(b: Seq<u32>, code: u32, index: int) -> Option<int>
    decreases 32 - index,
{
    if index < 0 || index >= 32 {
        None
    } else if b[index] == code {
        Some(index)
    } else if index + 1 >= 32 {
        None
    } else {
        let next = index + 3 + (b[index + 1] / 4) as int;
        if next >= 32 {
            None
        } else {
            letter_tag_search(b, code, next)
        }
    }
}

/// The walk of `letter_tag_search` never reads a size word past the end.
pub open spec fn letter_tag_search_safe(b: Seq<u32>, code: u32, index: int) -> bool
    decreases 32 - index,
{
    if index < 0 || index >= 32 {
        true
    } else if b[index] == code {
        true
    } else if index + 1 >= 32 {
        false
    } else {
        let next = index + 3 + (b[index + 1] / 4) as int;
        next >= 32 || letter_tag_search_safe(b, code, next)
    }
}

/// A tag the letter walk finds lies inside the letter.
pub proof fn lemma_letter_search_in_range(b: Seq<u32>, code: u32, index: int)
    ensures
        letter_tag_search(b, code, index) matches Some(i) ==> 0 <= i < 32,
    decreases 32 - index,
{
    if 0 <= index < 32 && b[index] != code && index + 1 < 32 {
        let next = index + 3 + (b[index + 1] / 4) as int;
        if next < 32 {
            lemma_letter_search_in_range(b, code, next);
        }
    }
}

/// A letter of 32 words, aligned for the mailbox.
pub struct Letter {
    buffer: Vec<u32>,
}

impl View for Letter {
    type V = Seq<u32>;

    closed spec fn view(&self) -> Seq<u32> {
        self.buffer@
    }
}

impl Letter {
    /// A letter of zero words.
    pub fn new() -> (r: Letter)
        ensures
            r@ == Seq::new(32, |i: int| 0u32),
    {
        let mut buffer: Vec<u32> = Vec::new();
        while buffer.len() < BUFFER_LENGTH
            invariant
                buffer.len() <= BUFFER_LENGTH,
                forall|i: int| 0 <= i < buffer.len() ==> buffer@[i] == 0,
            decreases BUFFER_LENGTH - buffer.len(),
        {
            buffer.push(0);
        }
        assert(buffer@ =~= Seq::new(32, |i: int| 0u32));
        Letter { buffer }
    }

    /// Sets the size word to zero.
    pub fn clear(&mut self)
        requires
            old(self)@.len() == 32,
        ensures
            final(self)@ == old(self)@.update(0, 0),
    {
        self.buffer.set(0, 0);
    }

    /// Starts an empty request: size 8 bytes (the header), code 0.
    pub fn clear_tags(&mut self)
        requires
            old(self)@.len() == 32,
        ensures
            final(self)@ == old(self)@.update(0, 8).update(1, 0),
    {
        self.buffer.set(0, 8);
        self.buffer.set(1, 0);
    }

    /// Writes `data` to the slot that word 0 names and grows word 0 by four
    /// bytes.
    pub fn push(&mut self, data: u32)
        requires
            old(self)@.len() == 32,
            can_push(old(self)@, 32, data),
        ensures
            final(self)@ == pushed(old(self)@, data),
    {
        push_word_anywhere(&mut self.buffer, data);
    }

    /// Appends a tag with its request data and room for its response. The
    /// request must start after a cleared header.
    pub fn push_tag(&mut self, tag: MailboxTag, data: &[u32])
        requires
            old(self)@.len() == 32,
            header_sane(old(self)@),
            data@.len() == tag_layout(tag).1 / 4,
            fill_index(old(self)@) + 3 + value_words(data@.len() as int, tag_layout(tag).2) <= 32,
        ensures
            final(self)@ == appended(old(self)@, letter_tag_words(tag, data@)),
    {
        let (code, request, response) = tag.layout();
        push_tag_words(&mut self.buffer, (code, request, response), data, response);
    }

    /// Appends the end tag.
    pub fn push_end_tag(&mut self)
        requires
            old(self)@.len() == 32,
            can_push(old(self)@, 32, 0),
        ensures
            final(self)@ == pushed(old(self)@, 0),
    {
        self.push(0);
    }

    /// The word to write to the mailbox's data register: the 16-byte aligned
    /// bus address of the letter with the channel in its low four bits.
    pub fn send(&self, channel: Channel, buffer_address: u32) -> (r: u32)
        requires
            buffer_address % 16 == 0,
        ensures
            r == buffer_address + channel_number(channel),
    {
        let c = channel.number();
        assert(buffer_address % 16 == 0 && c < 16 ==> buffer_address | c == buffer_address + c)
            by (bit_vector);
        buffer_address | c
    }

    /// Whether the reply word `address` carries this letter's bus address.
    pub fn receive(&self, address: u32, buffer_address: u32) -> (r: bool)
        ensures
            r == (address - address % 16 == buffer_address),
    {
        assert(address & !0b1111u32 == address - address % 16) by (bit_vector);
        (address & !0b1111u32) == buffer_address
    }

    /// The index of the first tag with `tag`'s code on the tag walk from
    /// word 2.
    pub fn tag_index(&self, tag: MailboxTag) -> (r: Option<usize>)
        requires
            self@.len() == 32,
            letter_tag_search_safe(self@, tag_layout(tag).0, 2),
        ensures
            r == (match letter_tag_search(self@, tag_layout(tag).0, 2) {
                Some(i) => Some(i as usize),
                None => None::<usize>,
            }),
    {
        proof {
            lemma_letter_search_in_range(self@, tag_layout(tag).0, 2);
        }
        let (code, _, _) = tag.layout();
        let length = self.buffer.len();
        let mut index: usize = 2;
        while index < length
            invariant
                self.buffer.len() == 32,
                length == 32,
                code == tag_layout(tag).0,
                index >= 2,
                letter_tag_search(self@, code, index as int) == letter_tag_search(self@, code, 2),
                letter_tag_search_safe(self@, code, index as int),
            decreases length - index,
        {
            if self.buffer[index] == code {
                return Some(index);
            }
            let size = self.buffer[index + 1];
            assert(size >> 2 == size / 4) by (bit_vector);
            let next = index + 3 + (size >> 2) as usize;
            if next >= length {
                return None;
            }
            index = next;
        }
        None
    }

    /// Whether the tag walk from word 2 finds `tag` without reading a size
    /// word past the letter, and its value buffer holds at least `words`
    /// words inside it.
    pub fn holds_value(&self, tag: MailboxTag, words: usize) -> (r: bool)
        ensures
            r == ({
                let code = tag_layout(tag).0;
                &&& self@.len() == 32
                &&& letter_tag_search_safe(self@, code, 2)
                &&& letter_tag_search(self@, code, 2) is Some
                &&& letter_tag_search(self@, code, 2)->Some_0 + 3 + words <= 32
            }),
    {
        if self.buffer.len() != BUFFER_LENGTH {
            return false;
        }
        let (code, _, _) = tag.layout();
        let mut index: usize = 2;
        loop
            invariant
                self.buffer.len() == 32,
                code == tag_layout(tag).0,
                index >= 2,
                letter_tag_search(self@, code, index as int) == letter_tag_search(self@, code, 2),
                letter_tag_search_safe(self@, code, index as int) == letter_tag_search_safe(
                    self@,
                    code,
                    2,
                ),
            decreases 32 - index,
        {
            if index >= BUFFER_LENGTH {
                return false;
            }
            if self.buffer[index] == code {
                return index + 3 <= BUFFER_LENGTH && words <= BUFFER_LENGTH - index - 3;
            }
            if index + 1 >= BUFFER_LENGTH {
                return false;
            }
            let next = index + 3 + (self.buffer[index + 1] / 4) as usize;
            if next >= BUFFER_LENGTH {
                return false;
            }
            index = next;
        }
    }

    /// The letter's words, for reading the response and for the firmware to
    /// write it.
    pub fn buffer(&mut self) -> (r: &mut Vec<u32>)
        ensures
            r@ == old(self)@,
            final(self)@ == final(r)@,
    {
        &mut self.buffer
    }
}

/// The word that posts the 16-byte aligned bus address `data` on
/// `channel`: the address with the channel in its low four bits.
pub fn push(channel: Channel, data: u32) -> (r: u32)
    requires
        data % 16 == 0,
    ensures
        r == data + channel_number(channel),
{
    let c = channel.number();
    assert(data % 16 == 0 && c < 16 ==> data | c == data + c) by (bit_vector);
    data | c
}

/// The answer in `word`, read from the mailbox, when it is a reply on
/// `channel`: the word without its channel bits; `None` for a reply on
/// another channel, which is passed over.
pub fn pop(channel: Channel, word: u32) -> (r: Option<u32>)
    ensures
        r == (if word % 16 == channel_number(channel) {
            Some((word - word % 16) as u32)
        } else {
            None::<u32>
        }),
{
    let c = channel.number();
    assert(word & 0b1111u32 == word % 16) by (bit_vector);
    assert(word & !0b1111u32 == word - word % 16) by (bit_vector);
    if word & 0b1111 == c {
        Some(word & !0b1111u32)
    } else {
        None
    }
}

/// The shared letter after a tag of the words `data` is written into it:
/// word 0 holds the letter's size in bytes (the words with three header
/// words), word 1 is cleared, the data follows from word 2, and the word
/// after it is cleared; the other words keep their values.
pub fn push_tag(buffer: &mut Vec<u32>, data: &[u32])
    requires
        old(buffer)@.len() == BUFFER_LENGTH,
        data@.len() + 3 <= BUFFER_LENGTH,
    ensures
        final(buffer)@.len() == BUFFER_LENGTH,
        final(buffer)@[0] == (data@.len() + 3) * 4,
        final(buffer)@[1] == 0,
        forall|i: int| 0 <= i < data@.len() ==> final(buffer)@[i + 2] == data@[i],
        final(buffer)@[data@.len() + 2int] == 0,
        forall|i: int| data@.len() + 3 <= i < BUFFER_LENGTH ==> final(buffer)@[i] == old(buffer)@[i],
{
    let n = data.len();
    buffer.set(0, ((n + 3) * 4) as u32);
    buffer.set(1, 0);
    let mut index: usize = 0;
    while index < n
        invariant
            n == data@.len(),
            n + 3 <= BUFFER_LENGTH,
            index <= n,
            buffer@.len() == BUFFER_LENGTH,
            buffer@[0] == (n + 3) * 4,
            buffer@[1] == 0,
            forall|i: int| 0 <= i < index ==> buffer@[i + 2] == data@[i],
            forall|i: int| n + 2 <= i < BUFFER_LENGTH ==> buffer@[i] == old(buffer)@[i],
        decreases n - index,
    {
        buffer.set(index + 2, data[index]);
        index += 1;
    }
    buffer.set(n + 2, 0);
}

} // verus!

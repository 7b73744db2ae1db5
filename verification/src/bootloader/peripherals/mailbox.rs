//! The bootloader's property-tag messages: the caller clears the tag list,
//! pushes tags and reads the response words directly.

use vstd::prelude::*;
use crate::property_tags::{
    appended, can_push, fill_index, header_sane, lemma_tag_search_in_range, max_u32, push_tag_words,
    push_word_anywhere, pushed, tag_search, tag_search_safe, tag_words,
};

pub use crate::peripherals::mailbox::{channel_number, Channel};

verus! {

#[derive(Copy, Clone, PartialEq, Eq, Debug, Structural)]
pub enum MailboxTag {
    SetLEDStatus,
    GetFramebufferSize,
    SetPhysicalSize,
    SetVirtualSize,
    SetFramebufferDepth,
    SetPixelOrder,
    SetAlphaMode,
    AllocateFramebuffer,
    GetFramebufferPitch,
    SetVirtualOffset,
}

/// Tag code, request size and response size in bytes.
pub open spec fn tag_layout(t: MailboxTag) -> (u32, u32, u32) {
    match t {
        MailboxTag::SetLEDStatus => (0x38041, 8, 8),
        MailboxTag::GetFramebufferSize => (0x40003, 0, 8),
        MailboxTag::SetPhysicalSize => (0x48003, 8, 8),
        MailboxTag::SetVirtualSize => (0x48004, 8, 8),
        MailboxTag::SetFramebufferDepth => (0x48005, 4, 4),
        MailboxTag::SetPixelOrder => (0x48006, 4, 4),
        MailboxTag::SetAlphaMode => (0x48007, 4, 4),
        MailboxTag::AllocateFramebuffer => (0x40001, 4, 8),
        MailboxTag::GetFramebufferPitch => (0x40008, 0, 4),
        MailboxTag::SetVirtualOffset => (0x48009, 8, 8),
    }
}

/// The bootloader's tags carry the numbers of the firmware's property-tag
/// interface, with its request and response sizes in bytes.
pub proof fn lemma_firmware_tag_table()
    ensures
        tag_layout(MailboxTag::SetLEDStatus) == (0x38041u32, 8u32, 8u32),
        tag_layout(MailboxTag::GetFramebufferSize) == (0x40003u32, 0u32, 8u32),
        tag_layout(MailboxTag::SetPhysicalSize) == (0x48003u32, 8u32, 8u32),
        tag_layout(MailboxTag::SetVirtualSize) == (0x48004u32, 8u32, 8u32),
        tag_layout(MailboxTag::SetFramebufferDepth) == (0x48005u32, 4u32, 4u32),
        tag_layout(MailboxTag::SetPixelOrder) == (0x48006u32, 4u32, 4u32),
        tag_layout(MailboxTag::SetAlphaMode) == (0x48007u32, 4u32, 4u32),
        tag_layout(MailboxTag::AllocateFramebuffer) == (0x40001u32, 4u32, 8u32),
        tag_layout(MailboxTag::GetFramebufferPitch) == (0x40008u32, 0u32, 4u32),
        tag_layout(MailboxTag::SetVirtualOffset) == (0x48009u32, 8u32, 8u32),
{
}

pub open spec fn tag_code(t: MailboxTag) -> u32 {
    tag_layout(t).0
}

impl MailboxTag {
    /// Tag code, request size and response size in bytes.
    pub fn layout(&self) -> (r: (u32, u32, u32))
        ensures
            r == tag_layout(*self),
    {
        match *self {
            MailboxTag::SetLEDStatus => (0x38041, 8, 8),
            MailboxTag::GetFramebufferSize => (0x40003, 0, 8),
            MailboxTag::SetPhysicalSize => (0x48003, 8, 8),
            MailboxTag::SetVirtualSize => (0x48004, 8, 8),
            MailboxTag::SetFramebufferDepth => (0x48005, 4, 4),
            MailboxTag::SetPixelOrder => (0x48006, 4, 4),
            MailboxTag::SetAlphaMode => (0x48007, 4, 4),
            MailboxTag::AllocateFramebuffer => (0x40001, 4, 8),
            MailboxTag::GetFramebufferPitch => (0x40008, 0, 4),
            MailboxTag::SetVirtualOffset => (0x48009, 8, 8),
        }
    }
}

/// The words a tag appends: code, value buffer size, request size, the
/// request data, and zeros up to the value buffer size.
pub open spec fn request_words(tag: MailboxTag, data: Seq<u32>) -> Seq<u32> {
    let (code, request, response) = tag_layout(tag);
    let size = max_u32(request, response);
    tag_words(seq![code, size, request], data, (size / 4) as int)
}

/// The response code of a message the firmware processed successfully.
pub const RESPONSE_SUCCESS: u32 = 0x8000_0000;

/// The response code of a message the firmware could not parse.
pub const RESPONSE_PARSE_ERROR: u32 = 0x8000_0001;

/// A property-tag message of `N` words, aligned for the mailbox.
pub struct Message<const N: usize> {
    buffer: Vec<u32>,
}

impl<const N: usize> View for Message<N> {
    type V = Seq<u32>;

    closed spec fn view(&self) -> Seq<u32> {
        self.buffer@
    }
}

impl<const N: usize> Message<N> {
    /// A message of `N` zero words.
    pub fn new() -> (r: Self)
        ensures
            r@ == Seq::new(N as nat, |i: int| 0u32),
    {
        let mut buffer: Vec<u32> = Vec::new();
        while buffer.len() < N
            invariant
                buffer.len() <= N,
                forall|i: int| 0 <= i < buffer.len() ==> buffer@[i] == 0,
            decreases N - buffer.len(),
        {
            buffer.push(0);
        }
        assert(buffer@ =~= Seq::new(N as nat, |i: int| 0u32));
        Self { buffer }
    }

    /// Starts an empty request: size 8 bytes (the header), code 0.
    pub fn clear_tags(&mut self)
        requires
            old(self)@.len() == N,
            N >= 2,
        ensures
            final(self)@ == old(self)@.update(0, 8).update(1, 0),
    {
        self.buffer.set(0, 8);
        self.buffer.set(1, 0);
    }

    /// Writes `data` to the slot that word 0 names and grows word 0 by four
    /// bytes.
    pub fn push(&mut self, data: u32)
        requires
            old(self)@.len() == N,
            N < 0x4000_0000,
            can_push(old(self)@, N as int, data),
        ensures
            final(self)@ == pushed(old(self)@, data),
    {
        push_word_anywhere(&mut self.buffer, data);
    }

    /// Appends a tag with its request data and room for its response. The
    /// request must start after a cleared header.
    pub fn push_tag(&mut self, tag: MailboxTag, data: &[u32])
        requires
            old(self)@.len() == N,
            N < 0x4000_0000,
            header_sane(old(self)@),
            data@.len() == tag_layout(tag).1 / 4,
            fill_index(old(self)@) + 3 + (max_u32(tag_layout(tag).1, tag_layout(tag).2) / 4) as int
                <= N,
        ensures
            final(self)@ == appended(old(self)@, request_words(tag, data@)),
    {
        let (code, request, response) = tag.layout();
        let size = if request < response {
            response
        } else {
            request
        };
        push_tag_words(&mut self.buffer, (code, size, request), data, response);
    }

    /// Appends the end tag.
    pub fn push_end_tag(&mut self)
        requires
            old(self)@.len() == N,
            N < 0x4000_0000,
            can_push(old(self)@, N as int, 0),
        ensures
            final(self)@ == pushed(old(self)@, 0),
    {
        self.push(0);
    }

    /// The word to write to the mailbox's data register: the 16-byte aligned
    /// bus address of the buffer with the channel in its low four bits.
    pub fn send(&self, channel: Channel, buffer_address: u32) -> (r: u32)
        requires
            buffer_address % 16 == 0,
        ensures
            r == buffer_address + channel_number(channel),
    {
        let c = channel.number();
        assert(buffer_address % 16 == 0 && c < 16 ==> buffer_address | c == buffer_address + c)
            by (bit_vector);
        buffer_address | c
    }

    /// Whether the reply word `address` accepts this message: it carries the
    /// buffer's bus address and the firmware reported success.
    pub fn receive(&self, address: u32, buffer_address: u32) -> (r: bool)
        requires
            self@.len() == N,
            N >= 2,
        ensures
            r == (address - address % 16 == buffer_address && self@[1] == RESPONSE_SUCCESS),
    {
        assert(address & !0b1111u32 == address - address % 16) by (bit_vector);
        (address & !0b1111u32) == buffer_address && self.buffer[1] == RESPONSE_SUCCESS
    }

    /// The index of the first tag with `tag`'s code, walking the tag list
    /// from word 2 up to the end tag.
    pub fn tag_index(&self, tag: MailboxTag) -> (r: Option<usize>)
        requires
            self@.len() == N,
            N < 0x4000_0000,
            tag_search_safe(self@, N as int, tag_code(tag), 2),
        ensures
            r == (match tag_search(self@, N as int, tag_code(tag), 2) {
                Some(i) => Some(i as usize),
                None => None::<usize>,
            }),
    {
        proof {
            lemma_tag_search_in_range(self@, N as int, tag_code(tag), 2);
        }
        let (code, _, _) = tag.layout();
        let mut index: usize = 2;
        while index < N
            invariant
                self.buffer.len() == N,
                N < 0x4000_0000,
                code == tag_code(tag),
                index >= 2,
                tag_search(self@, N as int, code, index as int) == tag_search(
                    self@,
                    N as int,
                    code,
                    2,
                ),
                tag_search_safe(self@, N as int, code, index as int),
            decreases N - index,
        {
            if self.buffer[index] == 0 {
                return None;
            }
            if self.buffer[index] == code {
                return Some(index);
            }
            let buffer_size = self.buffer[index + 1] / 4;
            let next = index + 3 + buffer_size as usize;
            if next >= N {
                return None;
            }
            index = next;
        }
        None
    }

    /// Whether the tag walk from word 2 finds `tag` without reading past the
    /// message, and its value buffer holds at least `words` words inside it.
    pub fn holds_value(&self, tag: MailboxTag, words: usize) -> (r: bool)
        ensures
            r == ({
                let code = tag_code(tag);
                &&& self@.len() == N
                &&& N < 0x4000_0000
                &&& tag_search_safe(self@, N as int, code, 2)
                &&& tag_search(self@, N as int, code, 2) is Some
                &&& tag_search(self@, N as int, code, 2)->Some_0 + 3 + words <= N
            }),
    {
        if self.buffer.len() != N || N >= 0x4000_0000 {
            return false;
        }
        let (code, _, _) = tag.layout();
        let mut index: usize = 2;
        loop
            invariant
                self.buffer.len() == N,
                N < 0x4000_0000,
                code == tag_code(tag),
                index >= 2,
                tag_search(self@, N as int, code, index as int) == tag_search(self@, N as int, code, 2),
                tag_search_safe(self@, N as int, code, index as int) == tag_search_safe(
                    self@,
                    N as int,
                    code,
                    2,
                ),
            decreases N - index,
        {
            if index >= N {
                return false;
            }
            if self.buffer[index] == 0 {
                return false;
            }
            if self.buffer[index] == code {
                return index + 3 <= N && words <= N - index - 3;
            }
            if index + 1 >= N {
                return false;
            }
            let buffer_size = self.buffer[index + 1] / 4;
            let next = index + 3 + buffer_size as usize;
            if next >= N {
                return false;
            }
            index = next;
        }
    }

    /// The message words, for reading the response and for the firmware to
    /// write it.
    pub fn buffer(&mut self) -> (r: &mut Vec<u32>)
        ensures
            r@ == old(self)@,
            final(self)@ == final(r)@,
    {
        &mut self.buffer
    }
}

} // verus!

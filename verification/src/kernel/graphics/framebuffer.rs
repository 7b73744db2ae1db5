//! The kernel's framebuffer setup: a letter that asks for the display size,
//! a letter that sets the physical and virtual size to it with 16 bits per
//! pixel and allocates the frame, and a letter that asks for the pitch; then
//! the frame that their answers describe.

use vstd::prelude::*;
use crate::kernel::peripherals::mailman::{
    lemma_letter_search_in_range, letter_tag_search, letter_tag_search_safe, letter_tag_words, tag_layout, Letter, MailboxTag,
};
use crate::property_tags::{appended, pushed};

verus! {

/// What the kernel needs to render into the frame.
pub struct FrameBuffer {
    pub base: usize,
    pub pitch: usize,
    pub width: u32,
    pub height: u32,
}

/// A letter with a cleared header: size 8 bytes, code 0, the rest zero.
pub open spec fn cleared_letter() -> Seq<u32> {
    Seq::new(32, |i: int| 0u32).update(0, 8).update(1, 0)
}

/// The letter that asks for the display size.
pub open spec fn size_letter_words() -> Seq<u32> {
    pushed(appended(cleared_letter(), letter_tag_words(MailboxTag::GetFramebufferSize, seq![0u32, 0u32])), 0)
}

/// The letter that asks for the display size.
pub fn size_letter() -> (r: Letter)
    ensures
        r@ == size_letter_words(),
{
    let mut letter = Letter::new();
    letter.clear_tags();
    letter.push_tag(MailboxTag::GetFramebufferSize, &[0, 0]);
    letter.push_end_tag();
    letter
}

/// The letter that sets a frame of `width` x `height` pixels, physical and
/// virtual, with 16 bits per pixel, and allocates it (16-byte aligned).
pub open spec fn setup_letter_words(width: u32, height: u32) -> Seq<u32> {
    let m1 = appended(cleared_letter(), letter_tag_words(MailboxTag::SetPhysicalSize, seq![width, height]));
    let m2 = appended(m1, letter_tag_words(MailboxTag::SetVirtualSize, seq![width, height]));
    let m3 = appended(m2, letter_tag_words(MailboxTag::SetFramebufferDepth, seq![16u32]));
    let m4 = appended(m3, letter_tag_words(MailboxTag::AllocateFramebuffer, seq![16u32, 0u32]));
    pushed(m4, 0)
}

/// The setup letter for the size in words 5 and 6 of the answered size
/// letter.
pub fn setup_letter(size_answer: &mut Letter) -> (r: Letter)
    requires
        old(size_answer)@.len() == 32,
    ensures
        final(size_answer)@ == old(size_answer)@,
        r@ == setup_letter_words(old(size_answer)@[5], old(size_answer)@[6]),
{
    let width = size_answer.buffer()[5];
    let height = size_answer.buffer()[6];
    let mut letter = Letter::new();
    letter.clear_tags();
    letter.push_tag(MailboxTag::SetPhysicalSize, &[width, height]);
    letter.push_tag(MailboxTag::SetVirtualSize, &[width, height]);
    letter.push_tag(MailboxTag::SetFramebufferDepth, &[16]);
    letter.push_tag(MailboxTag::AllocateFramebuffer, &[16, 0]);
    letter.push_end_tag();
    letter
}

/// The letter that asks for the pitch.
pub open spec fn pitch_letter_words() -> Seq<u32> {
    pushed(appended(cleared_letter(), letter_tag_words(MailboxTag::GetFramebufferPitch, seq![0u32])), 0)
}

/// The letter that asks for the pitch.
pub fn pitch_letter() -> (r: Letter)
    ensures
        r@ == pitch_letter_words(),
{
    let mut letter = Letter::new();
    letter.clear_tags();
    letter.push_tag(MailboxTag::GetFramebufferPitch, &[0]);
    letter.push_end_tag();
    letter
}

/// Where the allocation answer's base address lies in the setup answer `b`:
/// the first value word of its allocate tag.
pub open spec fn base_index(b: Seq<u32>) -> int {
    letter_tag_search(b, tag_layout(MailboxTag::AllocateFramebuffer).0, 2)->Some_0 + 3
}

/// The setup answer `b` holds the allocate tag, found by the tag walk
/// without reading past the letter, with its base address inside it.
pub open spec fn allocation_answered(b: Seq<u32>) -> bool {
    &&& b.len() == 32
    &&& letter_tag_search_safe(b, tag_layout(MailboxTag::AllocateFramebuffer).0, 2)
    &&& letter_tag_search(b, tag_layout(MailboxTag::AllocateFramebuffer).0, 2) is Some
    &&& base_index(b) < 32
}

/// The frame the answered letters describe: the width and height in words 5
/// and 6 of the size answer, the allocated base turned from a bus address
/// into an ARM physical address (its low 30 bits), and the pitch in word 5
/// of the pitch answer.
pub fn initialize(size_answer: &mut Letter, setup_answer: &mut Letter, pitch_answer: &mut Letter) -> (r: FrameBuffer)
    requires
        old(size_answer)@.len() == 32,
        old(pitch_answer)@.len() == 32,
        allocation_answered(old(setup_answer)@),
    ensures
        final(size_answer)@ == old(size_answer)@,
        final(setup_answer)@ == old(setup_answer)@,
        final(pitch_answer)@ == old(pitch_answer)@,
        r.width == old(size_answer)@[5],
        r.height == old(size_answer)@[6],
        r.base == old(setup_answer)@[base_index(old(setup_answer)@)] % 0x4000_0000,
        r.pitch == old(pitch_answer)@[5],
{
    let width = size_answer.buffer()[5];
    let height = size_answer.buffer()[6];
    proof {
        lemma_letter_search_in_range(setup_answer@, tag_layout(MailboxTag::AllocateFramebuffer).0, 2);
    }
    let index = setup_answer.tag_index(MailboxTag::AllocateFramebuffer).unwrap() + 3;
    let bus_address = setup_answer.buffer()[index];
    assert(bus_address & 0x3FFFFFFF == bus_address % 0x4000_0000) by (bit_vector);
    let base = (bus_address & 0x3FFFFFFF) as usize;
    let pitch = pitch_answer.buffer()[5] as usize;
    FrameBuffer { base, pitch, width, height }
}

} // verus!

//! The bootloader's framebuffer: 32-bit pixels, and rectangles drawn into
//! its memory.

use vstd::prelude::*;
use crate::bootloader::peripherals::mailbox::{
    request_words, tag_code, tag_layout, MailboxTag, Message,
};
use crate::graphics::pixels::{
    block_fits, fits, lemma_offset_monotone, lemma_offset_step, lemma_span_step, pixel_offset,
    rect_colour, rect_rows, rect_written, span_written, write_pixel,
};
use crate::property_tags::{appended, pushed, tag_search, tag_search_safe};

verus! {

/// The frame: geometry reported by the firmware, and the bytes of the frame
/// memory, which start at the bus address `address`. Pixels are 4 bytes.
pub struct Framebuffer {
    pub address: usize,
    pub pitch: usize,
    pub width: usize,
    pub height: usize,
    pub memory: Vec<u8>,
}

/// `a` and `b` describe the same frame; only the memory may differ.
pub open spec fn same_geometry(a: Framebuffer, b: Framebuffer) -> bool {
    &&& a.address == b.address
    &&& a.pitch == b.pitch
    &&& a.width == b.width
    &&& a.height == b.height
    &&& a.memory@.len() == b.memory@.len()
}

impl Framebuffer {
    /// The byte offset of pixel (`x`, `y`).
    pub open spec fn offset_of(&self, x: int, y: int) -> int {
        pixel_offset(self.width as int, 4, x, y)
    }

    /// A block of `w` x `h` pixels at (`x`, `y`) lies in the frame memory.
    pub open spec fn can_draw_block(&self, x: int, y: int, w: int, h: int) -> bool {
        block_fits(self.memory.len() as int, self.width as int, 4, x, y, w, h)
    }

    /// Whether a block of `w` x `h` pixels at (`x`, `y`) lies in the frame
    /// memory (see `can_draw_block`).
    pub fn fits_block(&self, x: usize, y: usize, w: usize, h: usize) -> (r: bool)
        ensures
            r == self.can_draw_block(x as int, y as int, w as int, h as int),
    {
        fits(self.memory.len(), self.width, 4, x, y, w, h)
    }

    pub fn draw_pixel(&mut self, x: usize, y: usize, color: u32)
        requires
            old(self).width * 4 <= usize::MAX,
            old(self).offset_of(x as int, y as int) + 4 <= old(self).memory.len(),
        ensures
            same_geometry(*final(self), *old(self)),
            final(self).memory@ == span_written(
                old(self).memory@,
                old(self).offset_of(x as int, y as int),
                4,
                1,
                |j: int| color,
            ),
    {
        proof {
            lemma_offset_monotone(self.width as int, 4, 0, 0, x as int, y as int);
        }
        let offset = (y * (self.width * 4)) + (x * 4);
        write_pixel(&mut self.memory, offset, 4, color);
    }

    /// Draws a rectangle covering columns `x_position ..= x_position + width`
    /// and rows `y_position ..= y_position + height`, row after row; its first
    /// row and first column take the border colour, the rest the fill colour.
    pub fn draw_rectangle(
        &mut self,
        x_position: usize,
        y_position: usize,
        width: usize,
        height: usize,
        border_color: u32,
        fill_color: u32,
    )
        requires
            old(self).can_draw_block(
                x_position as int,
                y_position as int,
                width + 1,
                height + 1,
            ),
        ensures
            same_geometry(*final(self), *old(self)),
            final(self).memory@ == rect_written(
                old(self).memory@,
                old(self).width as int,
                4,
                x_position as int,
                y_position as int,
                width as int,
                height as int,
                fill_color,
                border_color,
            ),
    {
        let ghost start = *self;
        let ghost wd = self.width as int;
        let ghost bpp = 4int;
        let mut y = y_position;
        while y < y_position + height + 1
            invariant
                same_geometry(*self, start),
                start.can_draw_block(x_position as int, y_position as int, width + 1, height + 1),
                wd == start.width,
                bpp == 4,
                y_position <= y <= y_position + height + 1,
                self.memory@ == rect_rows(
                    start.memory@,
                    wd,
                    bpp,
                    x_position as int,
                    y_position as int,
                    width as int,
                    height as int,
                    fill_color,
                    border_color,
                    y - y_position,
                ),
            decreases y_position + height + 1 - y,
        {
            let ghost row_start = self.memory@;
            let mut x = x_position;
            while x < x_position + width + 1
                invariant
                    same_geometry(*self, start),
                    start.can_draw_block(
                        x_position as int,
                        y_position as int,
                        width + 1,
                        height + 1,
                    ),
                    wd == start.width,
                    bpp == 4,
                    y_position <= y < y_position + height + 1,
                    x_position <= x <= x_position + width + 1,
                    row_start == rect_rows(
                        start.memory@,
                        wd,
                        bpp,
                        x_position as int,
                        y_position as int,
                        width as int,
                        height as int,
                        fill_color,
                        border_color,
                        y - y_position,
                    ),
                    self.memory@ == span_written(
                        row_start,
                        pixel_offset(wd, bpp, x_position as int, y as int),
                        bpp,
                        x - x_position,
                        |j: int|
                            rect_colour(
                                x_position as int,
                                y_position as int,
                                width as int,
                                height as int,
                                fill_color,
                                border_color,
                                x_position + j,
                                y as int,
                            ),
                    ),
                decreases x_position + width + 1 - x,
            {
                proof {
                    lemma_offset_monotone(
                        wd,
                        bpp,
                        x as int,
                        y as int,
                        x_position + width as int,
                        y_position + height as int,
                    );
                    lemma_offset_step(wd, bpp, x_position as int, x - x_position, y as int);
                    lemma_span_step(
                        row_start,
                        pixel_offset(wd, bpp, x_position as int, y as int),
                        bpp,
                        x - x_position,
                        |j: int|
                            rect_colour(
                                x_position as int,
                                y_position as int,
                                width as int,
                                height as int,
                                fill_color,
                                border_color,
                                x_position + j,
                                y as int,
                            ),
                    );
                }
                if (x == x_position || x == x_position + width + 1) || (y == y_position || y
                    == y_position + height + 1) {
                    self.draw_pixel(x, y, border_color);
                } else {
                    self.draw_pixel(x, y, fill_color);
                }
                x += 1;
            }
            y += 1;
        }
    }

}

/// The words of the request for the display size.
pub open spec fn size_request_words() -> Seq<u32> {
    let cleared = Seq::new(32, |i: int| 0u32).update(0, 8).update(1, 0);
    pushed(appended(cleared, request_words(MailboxTag::GetFramebufferSize, seq![])), 0)
}

/// The message that asks the firmware for the display size.
pub fn size_request() -> (r: Message<32>)
    ensures
        r@ == size_request_words(),
{
    let mut message = Message::<32>::new();
    message.clear_tags();
    message.push_tag(MailboxTag::GetFramebufferSize, &[]);
    message.push_end_tag();
    message
}

/// The words of the request that configures and allocates a frame of
/// `width` x `height`: physical and virtual size, offset 0, 16 bits per
/// pixel, alpha ignored, RGB pixel order, a 4096-aligned allocation, and the
/// pitch; then the end tag.
pub open spec fn setup_request_words(width: u32, height: u32) -> Seq<u32> {
    let m0 = Seq::new(64, |i: int| 0u32).update(0, 8).update(1, 0);
    let m1 = appended(m0, request_words(MailboxTag::SetPhysicalSize, seq![width, height]));
    let m2 = appended(m1, request_words(MailboxTag::SetVirtualSize, seq![width, height]));
    let m3 = appended(m2, request_words(MailboxTag::SetVirtualOffset, seq![0u32, 0u32]));
    let m4 = appended(m3, request_words(MailboxTag::SetFramebufferDepth, seq![16u32]));
    let m5 = appended(m4, request_words(MailboxTag::SetAlphaMode, seq![2u32]));
    let m6 = appended(m5, request_words(MailboxTag::SetPixelOrder, seq![1u32]));
    let m7 = appended(m6, request_words(MailboxTag::AllocateFramebuffer, seq![4096u32]));
    let m8 = appended(m7, request_words(MailboxTag::GetFramebufferPitch, seq![]));
    pushed(m8, 0)
}

/// The message that sets up a frame of the size in words 5 and 6 of the
/// answered size request.
pub fn setup_request(size_response: &mut Message<32>) -> (r: Message<64>)
    requires
        old(size_response)@.len() == 32,
    ensures
        final(size_response)@ == old(size_response)@,
        r@ == setup_request_words(old(size_response)@[5], old(size_response)@[6]),
{
    let width = size_response.buffer()[5];
    let height = size_response.buffer()[6];
    let mut message = Message::<64>::new();
    message.clear_tags();
    message.push_tag(MailboxTag::SetPhysicalSize, &[width, height]);
    message.push_tag(MailboxTag::SetVirtualSize, &[width, height]);
    message.push_tag(MailboxTag::SetVirtualOffset, &[0, 0]);
    message.push_tag(MailboxTag::SetFramebufferDepth, &[16]);
    message.push_tag(MailboxTag::SetAlphaMode, &[2]);
    message.push_tag(MailboxTag::SetPixelOrder, &[1]);
    message.push_tag(MailboxTag::AllocateFramebuffer, &[4096]);
    message.push_tag(MailboxTag::GetFramebufferPitch, &[]);
    message.push_end_tag();
    message
}

/// The first value word of `tag` in the words `b` of an answered message.
pub open spec fn tag_value(b: Seq<u32>, tag: MailboxTag, k: int) -> u32 {
    b[tag_search(b, 64, tag_code(tag), 2)->Some_0 + 3 + k]
}

/// The tag walk of the answered setup message finds `tag` without reading
/// past the message, with `words` value words inside it.
pub open spec fn answer_holds(b: Seq<u32>, tag: MailboxTag, words: int) -> bool {
    &&& tag_search_safe(b, 64, tag_code(tag), 2)
    &&& tag_search(b, 64, tag_code(tag), 2) is Some
    &&& tag_search(b, 64, tag_code(tag), 2)->Some_0 + 3 + words <= 64
}

/// The answered setup message holds the depth, the alpha mode and the pixel
/// order the firmware settled on, the allocation (address and size) and the
/// pitch.
pub open spec fn setup_answered(b: Seq<u32>) -> bool {
    &&& b.len() == 64
    &&& answer_holds(b, MailboxTag::SetFramebufferDepth, 1)
    &&& answer_holds(b, MailboxTag::SetAlphaMode, 1)
    &&& answer_holds(b, MailboxTag::SetPixelOrder, 1)
    &&& answer_holds(b, MailboxTag::AllocateFramebuffer, 2)
    &&& answer_holds(b, MailboxTag::GetFramebufferPitch, 1)
}

/// The frame described by the answered size and setup messages: the
/// allocated address turned into an ARM physical address (its low 30 bits),
/// the pitch, the size from the size answer, and zeroed memory of the
/// allocated size.
pub fn initialize(size_response: &mut Message<32>, setup_response: &mut Message<64>) -> (r: Framebuffer)
    requires
        old(size_response)@.len() == 32,
        setup_answered(old(setup_response)@),
    ensures
        final(size_response)@ == old(size_response)@,
        final(setup_response)@ == old(setup_response)@,
        r.address == tag_value(old(setup_response)@, MailboxTag::AllocateFramebuffer, 0) % 0x4000_0000,
        r.pitch == tag_value(old(setup_response)@, MailboxTag::GetFramebufferPitch, 0),
        r.width == old(size_response)@[5],
        r.height == old(size_response)@[6],
        r.memory@ == Seq::new(
            tag_value(old(setup_response)@, MailboxTag::AllocateFramebuffer, 1) as nat,
            |i: int| 0u8,
        ),
{
    let width = size_response.buffer()[5];
    let height = size_response.buffer()[6];
    proof {
        crate::property_tags::lemma_tag_search_in_range(
            setup_response@,
            64,
            tag_code(MailboxTag::AllocateFramebuffer),
            2,
        );
        crate::property_tags::lemma_tag_search_in_range(
            setup_response@,
            64,
            tag_code(MailboxTag::GetFramebufferPitch),
            2,
        );
    }
    let index = setup_response.tag_index(MailboxTag::AllocateFramebuffer).unwrap();
    let bus_address = setup_response.buffer()[index + 3];
    let address = (bus_address & 0x3FFFFFFF) as usize;
    assert(bus_address & 0x3FFFFFFF == bus_address % 0x4000_0000) by (bit_vector);
    let size = setup_response.buffer()[index + 4] as usize;
    let index = setup_response.tag_index(MailboxTag::GetFramebufferPitch).unwrap();
    let pitch = setup_response.buffer()[index + 3] as usize;
    let mut memory: Vec<u8> = Vec::new();
    while memory.len() < size
        invariant
            memory.len() <= size,
            forall|i: int| 0 <= i < memory.len() ==> memory@[i] == 0,
        decreases size - memory.len(),
    {
        memory.push(0);
    }
    assert(memory@ =~= Seq::new(size as nat, |i: int| 0u8));
    Framebuffer { address, pitch, width: width as usize, height: height as usize, memory }
}

} // verus!

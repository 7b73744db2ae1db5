//! The kernel's framebuffer: its geometry, and drawing pixels, rectangles,
//! glyphs and text into its memory.

use vstd::prelude::*;
use vstd::string::StringSliceAdditionalSpecFns;
use crate::peripherals::mailbox::{
    empty_message, has_value, request_words, value_word, AlphaMode, FramebufferSize,
    MailboxTag, Message,
};
use crate::property_tags::appended;
use crate::graphics::pixels::{
    block_fits, fits, glyph_colour, glyph_rows, lemma_offset_monotone, lemma_offset_step,
    lemma_span_step, pixel_offset, rect_colour, rect_rows, rect_written, span_written,
    supported_bpp, write_pixel, FONT_WIDTH,
};

verus! {

/// A bitmap font: 256 glyphs of `height` rows, one byte per row.
pub struct Font {
    pub height: usize,
    pub glyphs: Vec<Vec<u8>>,
}

impl Font {
    /// Every one of the 256 glyphs has `height` rows.
    pub open spec fn well_formed(&self) -> bool {
        &&& self.glyphs.len() == 256
        &&& forall|g: int| 0 <= g < 256 ==> (#[trigger] self.glyphs@[g]).len() == self.height
    }

    /// The rows of the glyph for byte `code`.
    pub open spec fn glyph(&self, code: int) -> Seq<u8> {
        self.glyphs@[code]@
    }
}

/// The frame: geometry reported by the firmware, and the bytes of the frame
/// memory, which start at the bus address `address`.
#[derive(Clone)]
pub struct Framebuffer {
    pub address: usize,
    pub pitch: usize,
    pub size: usize,
    pub width: usize,
    pub height: usize,
    pub bytes_per_pixel: usize,
    pub memory: Vec<u8>,
}

/// `a` and `b` describe the same frame; only the memory may differ.
pub open spec fn same_geometry(a: Framebuffer, b: Framebuffer) -> bool {
    &&& a.address == b.address
    &&& a.pitch == b.pitch
    &&& a.size == b.size
    &&& a.width == b.width
    &&& a.height == b.height
    &&& a.bytes_per_pixel == b.bytes_per_pixel
    &&& a.memory@.len() == b.memory@.len()
}

/// `mem` after the glyph for each of `bytes[0..count]` is drawn, one glyph
/// width apart, starting at (`x0`, `y0`).
pub open spec fn text_written(
    mem: Seq<u8>,
    width: int,
    bpp: int,
    font: Font,
    x0: int,
    y0: int,
    bytes: Seq<u8>,
    foreground: u32,
    background: u32,
    count: int,
) -> Seq<u8>
    decreases count,
{
    if count <= 0 {
        mem
    } else {
        glyph_rows(
            text_written(mem, width, bpp, font, x0, y0, bytes, foreground, background, count - 1),
            width,
            bpp,
            x0 + (count - 1) * (FONT_WIDTH as int),
            y0,
            font.glyph(bytes[count - 1] as int),
            foreground,
            background,
            font.height as int,
        )
    }
}

impl Framebuffer {
    /// The byte offset of pixel (`x`, `y`).
    pub open spec fn offset_of(&self, x: int, y: int) -> int {
        pixel_offset(self.width as int, self.bytes_per_pixel as int, x, y)
    }

    /// Pixel (`x`, `y`) lies in the frame memory, with a supported pixel size.
    pub open spec fn can_draw_pixel(&self, x: int, y: int) -> bool {
        &&& supported_bpp(self.bytes_per_pixel as int)
        &&& self.width * self.bytes_per_pixel <= usize::MAX
        &&& 0 <= x
        &&& 0 <= y
        &&& self.offset_of(x, y) + self.bytes_per_pixel <= self.memory.len()
    }

    /// A block of `w` x `h` pixels at (`x`, `y`) lies in the frame memory.
    pub open spec fn can_draw_block(&self, x: int, y: int, w: int, h: int) -> bool {
        block_fits(
            self.memory.len() as int,
            self.width as int,
            self.bytes_per_pixel as int,
            x,
            y,
            w,
            h,
        )
    }

    /// A glyph of `font_height` rows fits at (`x`, `y`).
    pub open spec fn can_draw_glyph(&self, font_height: int, x: int, y: int) -> bool {
        self.can_draw_block(x, y, FONT_WIDTH as int, font_height)
    }

    /// Whether a block of `w` x `h` pixels at (`x`, `y`) lies in the frame
    /// memory (see `can_draw_block`).
    pub fn fits_block(&self, x: usize, y: usize, w: usize, h: usize) -> (r: bool)
        ensures
            r == self.can_draw_block(x as int, y as int, w as int, h as int),
    {
        fits(self.memory.len(), self.width, self.bytes_per_pixel, x, y, w, h)
    }

    /// A frame with the given geometry, whose `size` bytes of memory are
    /// zero; the pixel size is the memory size over the pixel count.
    pub fn new(address: usize, pitch: usize, width: usize, height: usize, size: usize) -> (r: Self)
        requires
            width > 0,
            height > 0,
        ensures
            r.address == address,
            r.pitch == pitch,
            r.size == size,
            r.width == width,
            r.height == height,
            r.bytes_per_pixel == size / height / width,
            r.memory@ == Seq::new(size as nat, |i: int| 0u8),
    {
        let bytes_per_pixel = size / height / width;
        let mut memory: Vec<u8> = Vec::new();
        while memory.len() < size
            invariant
                memory.len() <= size,
                forall|i: int| 0 <= i < memory.len() ==> memory@[i] == 0,
            decreases size - memory.len(),
        {
            memory.push(0);
        }
        assert(memory@ =~= Seq::new(size as nat, |i: int| 0u8));
        Self { address, pitch, size, width, height, bytes_per_pixel, memory }
    }

    pub fn draw_pixel(&mut self, x_position: usize, y_position: usize, color: u32)
        requires
            old(self).can_draw_pixel(x_position as int, y_position as int),
        ensures
            same_geometry(*final(self), *old(self)),
            final(self).memory@ == span_written(
                old(self).memory@,
                old(self).offset_of(x_position as int, y_position as int),
                old(self).bytes_per_pixel as int,
                1,
                |j: int| color,
            ),
    {
        proof {
            lemma_offset_monotone(
                self.width as int,
                self.bytes_per_pixel as int,
                0,
                0,
                x_position as int,
                y_position as int,
            );
        }
        if self.bytes_per_pixel == 2 {
            assert(self.width * 2 == self.width * self.bytes_per_pixel);
            assert(y_position * (self.width * 2) == y_position * (self.width * self.bytes_per_pixel));
            assert(x_position * 2 == x_position * self.bytes_per_pixel);
            let offset = (y_position * (self.width * 2)) + (x_position * 2);
            write_pixel(&mut self.memory, offset, 2, color);
        } else {
            assert(self.width * 4 == self.width * self.bytes_per_pixel);
            assert(y_position * (self.width * 4) == y_position * (self.width * self.bytes_per_pixel));
            assert(x_position * 4 == x_position * self.bytes_per_pixel);
            let offset = (y_position * (self.width * 4)) + (x_position * 4);
            write_pixel(&mut self.memory, offset, 4, color);
        }
    }

    /// Draws a rectangle covering columns `x_position ..= x_position + width`
    /// and rows `y_position ..= y_position + height`, row after row; its first
    /// row and first column take the border colour, the rest the fill colour.
    pub fn draw_rectangle(
        &mut self,
        x_position: usize,
        y_position: usize,
        width: usize,
        height: usize,
        fill_color: u32,
        border_color: u32,
    )
        requires
            old(self).can_draw_block(
                x_position as int,
                y_position as int,
                width + 1,
                height + 1,
            ),
        ensures
            same_geometry(*final(self), *old(self)),
            final(self).memory@ == rect_written(
                old(self).memory@,
                old(self).width as int,
                old(self).bytes_per_pixel as int,
                x_position as int,
                y_position as int,
                width as int,
                height as int,
                fill_color,
                border_color,
            ),
    {
        let ghost start = *self;
        let ghost wd = self.width as int;
        let ghost bpp = self.bytes_per_pixel as int;
        let mut y = y_position;
        while y < y_position + height + 1
            invariant
                same_geometry(*self, start),
                start.can_draw_block(x_position as int, y_position as int, width + 1, height + 1),
                wd == start.width,
                bpp == start.bytes_per_pixel,
                y_position <= y <= y_position + height + 1,
                self.memory@ == rect_rows(
                    start.memory@,
                    wd,
                    bpp,
                    x_position as int,
                    y_position as int,
                    width as int,
                    height as int,
                    fill_color,
                    border_color,
                    y - y_position,
                ),
            decreases y_position + height + 1 - y,
        {
            let ghost row_start = self.memory@;
            let mut x = x_position;
            while x < x_position + width + 1
                invariant
                    same_geometry(*self, start),
                    start.can_draw_block(
                        x_position as int,
                        y_position as int,
                        width + 1,
                        height + 1,
                    ),
                    wd == start.width,
                    bpp == start.bytes_per_pixel,
                    y_position <= y < y_position + height + 1,
                    x_position <= x <= x_position + width + 1,
                    row_start == rect_rows(
                        start.memory@,
                        wd,
                        bpp,
                        x_position as int,
                        y_position as int,
                        width as int,
                        height as int,
                        fill_color,
                        border_color,
                        y - y_position,
                    ),
                    self.memory@ == span_written(
                        row_start,
                        pixel_offset(wd, bpp, x_position as int, y as int),
                        bpp,
                        x - x_position,
                        |j: int|
                            rect_colour(
                                x_position as int,
                                y_position as int,
                                width as int,
                                height as int,
                                fill_color,
                                border_color,
                                x_position + j,
                                y as int,
                            ),
                    ),
                decreases x_position + width + 1 - x,
            {
                proof {
                    lemma_offset_monotone(
                        wd,
                        bpp,
                        x as int,
                        y as int,
                        x_position + width as int,
                        y_position + height as int,
                    );
                    lemma_offset_step(wd, bpp, x_position as int, x - x_position, y as int);
                    lemma_span_step(
                        row_start,
                        pixel_offset(wd, bpp, x_position as int, y as int),
                        bpp,
                        x - x_position,
                        |j: int|
                            rect_colour(
                                x_position as int,
                                y_position as int,
                                width as int,
                                height as int,
                                fill_color,
                                border_color,
                                x_position + j,
                                y as int,
                            ),
                    );
                }
                if (x == x_position || x == x_position + width + 1) || (y == y_position || y
                    == y_position + height + 1) {
                    self.draw_pixel(x, y, border_color);
                } else {
                    self.draw_pixel(x, y, fill_color);
                }
                x += 1;
            }
            y += 1;
        }
    }

    /// Draws the glyph of `character` (its code taken modulo 256) with its
    /// top-left corner at (`x_position`, `y_position`): set bits in the
    /// foreground colour, clear bits in the background colour.
    pub fn draw_character(
        &mut self,
        font: &Font,
        x_position: usize,
        y_position: usize,
        character: char,
        foreground_color: u32,
        backgroud_color: u32,
    )
        requires
            font.well_formed(),
            old(self).can_draw_block(
                x_position as int,
                y_position as int,
                FONT_WIDTH as int,
                font.height as int,
            ),
        ensures
            same_geometry(*final(self), *old(self)),
            final(self).memory@ == glyph_rows(
                old(self).memory@,
                old(self).width as int,
                old(self).bytes_per_pixel as int,
                x_position as int,
                y_position as int,
                font.glyph((character as u32 % 256) as int),
                foreground_color,
                backgroud_color,
                font.height as int,
            ),
    {
        let ghost start = *self;
        let ghost wd = self.width as int;
        let ghost bpp = self.bytes_per_pixel as int;
        let code = (character as u32 % 256) as usize;
        let glyph = &font.glyphs[code];
        assert(glyph@ == font.glyph(code as int));
        let mut y: usize = 0;
        while y < font.height
            invariant
                same_geometry(*self, start),
                start.can_draw_block(x_position as int, y_position as int, FONT_WIDTH as int, font.height as int),
                wd == start.width,
                bpp == start.bytes_per_pixel,
                glyph@.len() == font.height,
                y <= font.height,
                self.memory@ == glyph_rows(
                    start.memory@,
                    wd,
                    bpp,
                    x_position as int,
                    y_position as int,
                    glyph@,
                    foreground_color,
                    backgroud_color,
                    y as int,
                ),
            decreases font.height - y,
        {
            let ghost row_start = self.memory@;
            let row = glyph[y];
            let mut x: usize = 0;
            while x < FONT_WIDTH
                invariant
                    same_geometry(*self, start),
                    start.can_draw_block(x_position as int, y_position as int, FONT_WIDTH as int, font.height as int),
                    wd == start.width,
                    bpp == start.bytes_per_pixel,
                    glyph@.len() == font.height,
                    y < font.height,
                    row == glyph@[y as int],
                    x <= FONT_WIDTH,
                    row_start == glyph_rows(
                        start.memory@,
                        wd,
                        bpp,
                        x_position as int,
                        y_position as int,
                        glyph@,
                        foreground_color,
                        backgroud_color,
                        y as int,
                    ),
                    self.memory@ == span_written(
                        row_start,
                        pixel_offset(wd, bpp, x_position as int, y_position + y),
                        bpp,
                        x as int,
                        |j: int| glyph_colour(glyph@[y as int], j, foreground_color, backgroud_color),
                    ),
                decreases FONT_WIDTH - x,
            {
                proof {
                    lemma_offset_monotone(
                        wd,
                        bpp,
                        x_position + x,
                        y_position + y,
                        x_position + FONT_WIDTH - 1,
                        y_position + font.height - 1,
                    );
                    lemma_offset_step(wd, bpp, x_position as int, x as int, y_position + y);
                    lemma_span_step(
                        row_start,
                        pixel_offset(wd, bpp, x_position as int, y_position + y),
                        bpp,
                        x as int,
                        |j: int| glyph_colour(glyph@[y as int], j, foreground_color, backgroud_color),
                    );
                }
                if row & (1u8 << (x as u8)) == 0 {
                    self.draw_pixel(x_position + x, y_position + y, backgroud_color);
                } else {
                    self.draw_pixel(x_position + x, y_position + y, foreground_color);
                }
                x += 1;
            }
            y += 1;
        }
    }

    /// Draws the bytes of `text` as glyphs, one glyph width apart, from
    /// (`x_position`, `y_position`) to the right.
    pub fn draw_text(
        &mut self,
        font: &Font,
        x_position: usize,
        y_position: usize,
        text: &str,
        foreground_color: u32,
        backgroud_color: u32,
    )
        requires
            font.well_formed(),
            x_position + text.spec_bytes().len() * FONT_WIDTH <= usize::MAX,
            forall|k: int|
                0 <= k < text.spec_bytes().len() ==> #[trigger] old(self).can_draw_glyph(
                    font.height as int,
                    x_position + k * FONT_WIDTH,
                    y_position as int,
                ),
        ensures
            same_geometry(*final(self), *old(self)),
            final(self).memory@ == text_written(
                old(self).memory@,
                old(self).width as int,
                old(self).bytes_per_pixel as int,
                *font,
                x_position as int,
                y_position as int,
                text.spec_bytes(),
                foreground_color,
                backgroud_color,
                text.spec_bytes().len() as int,
            ),
    {
        let ghost start = *self;
        let bytes = text.as_bytes();
        let mut x = x_position;
        let mut i: usize = 0;
        while i < bytes.len()
            invariant
                same_geometry(*self, start),
                font.well_formed(),
                bytes@ == text.spec_bytes(),
                x_position + bytes@.len() * FONT_WIDTH <= usize::MAX,
                forall|k: int|
                    0 <= k < bytes@.len() ==> #[trigger] start.can_draw_glyph(
                        font.height as int,
                        x_position + k * FONT_WIDTH,
                        y_position as int,
                    ),
                i <= bytes@.len(),
                x == x_position + i * FONT_WIDTH,
                self.memory@ == text_written(
                    start.memory@,
                    start.width as int,
                    start.bytes_per_pixel as int,
                    *font,
                    x_position as int,
                    y_position as int,
                    bytes@,
                    foreground_color,
                    backgroud_color,
                    i as int,
                ),
            decreases bytes@.len() - i,
        {
            let byte = bytes[i];
            assert(start.can_draw_glyph(font.height as int, x_position + i * FONT_WIDTH, y_position as int));
            assert((byte as char) as u32 % 256 == byte);
            self.draw_character(font, x, y_position, byte as char, foreground_color, backgroud_color);
            x += FONT_WIDTH;
            i += 1;
        }
    }
}

/// The words of the request for the display size: the size tag and the end
/// tag.
pub open spec fn size_request_words() -> Seq<u32> {
    appended(
        appended(empty_message(32), request_words(MailboxTag::GetFramebufferSize, seq![])),
        seq![0u32],
    )
}

/// The words of the request that configures and allocates a frame of the
/// given size: physical and virtual size, offset 0, 16 bits per pixel, alpha
/// ignored, RGB pixel order, a 4096-aligned allocation, and the pitch; then
/// the end tag.
pub open spec fn setup_request_words(size: FramebufferSize) -> Seq<u32> {
    let m0 = empty_message(64);
    let m1 = appended(m0, request_words(MailboxTag::SetPhysicalSize, seq![size.width, size.height]));
    let m2 = appended(m1, request_words(MailboxTag::SetVirtualSize, seq![size.width, size.height]));
    let m3 = appended(m2, request_words(MailboxTag::SetVirtualOffset, seq![0u32, 0u32]));
    let m4 = appended(m3, request_words(MailboxTag::SetFramebufferDepth, seq![16u32]));
    let m5 = appended(m4, request_words(MailboxTag::SetAlphaMode, seq![2u32]));
    let m6 = appended(m5, request_words(MailboxTag::SetPixelOrder, seq![1u32]));
    let m7 = appended(m6, request_words(MailboxTag::AllocateFramebuffer, seq![4096u32]));
    let m8 = appended(m7, request_words(MailboxTag::GetFramebufferPitch, seq![]));
    appended(m8, seq![0u32])
}

/// The message that asks the firmware for the display size.
pub fn size_request() -> (r: Message<32>)
    ensures
        r@ == size_request_words(),
{
    let mut message = Message::<32>::new();
    message.get_framebuffer_size_request();
    message.finalize_send_receive();
    message
}

/// The message that sets up a frame of the given size.
pub fn setup_request(framebuffer_size: FramebufferSize) -> (r: Message<64>)
    ensures
        r@ == setup_request_words(framebuffer_size),
{
    let mut message = Message::<64>::new();
    message.set_physical_size_request(framebuffer_size);
    message.set_virtual_size_request(framebuffer_size);
    message.set_virtual_offset_request(0, 0);
    message.set_framebuffer_depth_request(16);
    message.set_alpha_mode_request(AlphaMode::Ignored);
    message.set_pixel_order_request(1);
    message.allocate_framebuffer_request(4096);
    message.get_framebuffer_pitch_request();
    message.finalize_send_receive();
    message
}

/// The frame that the firmware's answer to the setup request describes:
/// the allocated address turned from a bus address into an ARM physical
/// address (its low 30 bits), the allocated size, the pitch, and the
/// requested width and height. The answer must also hold the depth, alpha
/// mode and pixel order that the firmware settled on.
pub fn initialize(setup: &Message<64>, framebuffer_size: FramebufferSize) -> (r: Framebuffer)
    requires
        has_value(setup@, 64, MailboxTag::SetFramebufferDepth, 1),
        has_value(setup@, 64, MailboxTag::SetAlphaMode, 1),
        has_value(setup@, 64, MailboxTag::SetPixelOrder, 1),
        has_value(setup@, 64, MailboxTag::AllocateFramebuffer, 2),
        has_value(setup@, 64, MailboxTag::GetFramebufferPitch, 1),
        framebuffer_size.width > 0,
        framebuffer_size.height > 0,
    ensures
        r.address == value_word(setup@, 64, MailboxTag::AllocateFramebuffer, 0) % 0x4000_0000,
        r.size == value_word(setup@, 64, MailboxTag::AllocateFramebuffer, 1),
        r.pitch == value_word(setup@, 64, MailboxTag::GetFramebufferPitch, 0),
        r.width == framebuffer_size.width,
        r.height == framebuffer_size.height,
        r.bytes_per_pixel == r.size / r.height / r.width,
        r.memory@ == Seq::new(r.size as nat, |i: int| 0u8),
{
    let framebuffer_layout = setup.allocate_framebuffer_response();
    let pitch = setup.get_framebuffer_pitch_response();
    let bus_address = framebuffer_layout.address;
    let address = (bus_address & 0x3FFFFFFF) as usize;
    assert(bus_address & 0x3FFFFFFF == bus_address % 0x4000_0000) by (bit_vector);
    Framebuffer::new(
        address,
        pitch as usize,
        framebuffer_size.width as usize,
        framebuffer_size.height as usize,
        framebuffer_layout.size as usize,
    )
}

} // verus!

//! The kernel log: every byte goes to the mini UART, and, once a
//! framebuffer is attached, is drawn as a glyph on a text console that
//! scrolls by one line when a line feed arrives on its last line.

use vstd::prelude::*;
use vstd::string::StringSliceAdditionalSpecFns;
use crate::bootloader::peripherals::uart::write_character_blocking;
use crate::graphics::framebuffer::{same_geometry, Font, Framebuffer};
use crate::graphics::pixels::{block_fits, glyph_rows, FONT_WIDTH};
use crate::memory::{memmove, moved};

verus! {

/// The height of a console line in pixels: a glyph and the gap below it.
pub const LINE_ADVANCE: usize = 10;

/// The top of the console's last line; a line feed there scrolls.
pub const LAST_LINE: usize = 500;

/// The colour of logged text.
pub const TEXT_COLOUR: u32 = 0xAAAAAA;

/// The colour behind logged text.
pub const BACKGROUND_COLOUR: u32 = 0x000000;

/// The console: the framebuffer it draws on, if any, and the position of
/// the next glyph.
pub struct Logger {
    pub framebuffer: Option<Framebuffer>,
    pub cursor_x: usize,
    pub cursor_y: usize,
}

/// The bytes of one console line of `fb`.
pub open spec fn line_bytes(fb: Framebuffer) -> int {
    fb.bytes_per_pixel * fb.width * LINE_ADVANCE
}

/// The console after one byte, as cursor column, cursor row and frame
/// memory: a line feed returns to column 0 and moves down a line, or, on the
/// last line, moves the frame memory up by one line (the bytes of the frame
/// except the first and last line); any other byte draws its glyph at the
/// cursor and moves the cursor one glyph to the right.
pub open spec fn log_step(fb: Framebuffer, font: Font, s: (int, int, Seq<u8>), byte: u8) -> (
    int,
    int,
    Seq<u8>,
) {
    if byte == 10 {
        if s.1 == LAST_LINE {
            (0, s.1, moved(s.2, 0, line_bytes(fb), fb.size - 2 * line_bytes(fb)))
        } else {
            (0, s.1 + LINE_ADVANCE, s.2)
        }
    } else {
        (
            s.0 + FONT_WIDTH,
            s.1,
            glyph_rows(
                s.2,
                fb.width as int,
                fb.bytes_per_pixel as int,
                s.0,
                s.1,
                font.glyph(byte as int),
                TEXT_COLOUR,
                BACKGROUND_COLOUR,
                font.height as int,
            ),
        )
    }
}

/// The console's cursor moves as text is written: a line feed goes back to
/// column 0 and down 10 pixels, or, on the last line (row 500), stays on
/// that line and moves the frame up by a line; any other byte draws its
/// glyph and moves 8 pixels to the right on the same line.
pub proof fn lemma_console_cursor(fb: Framebuffer, font: Font, s: (int, int, Seq<u8>), byte: u8)
    ensures
        byte == 10 && s.1 != 500 ==> log_step(fb, font, s, byte) == (0int, s.1 + 10, s.2),
        byte == 10 && s.1 == 500 ==> log_step(fb, font, s, byte).0 == 0 && log_step(fb, font, s, byte).1
            == 500 && log_step(fb, font, s, byte).2 == moved(
            s.2,
            0,
            fb.bytes_per_pixel * fb.width * 10,
            fb.size - 2 * (fb.bytes_per_pixel * fb.width * 10),
        ),
        byte != 10 ==> log_step(fb, font, s, byte).0 == s.0 + 8 && log_step(fb, font, s, byte).1 == s.1,
{
}

/// The step of `byte` stays within the frame memory and the machine word:
/// the glyph fits at the cursor, or the scroll's sizes and addresses do.
pub open spec fn log_step_ok(fb: Framebuffer, font: Font, s: (int, int, Seq<u8>), byte: u8) -> bool {
    if byte == 10 {
        if s.1 == LAST_LINE {
            &&& fb.bytes_per_pixel * fb.width <= usize::MAX
            &&& line_bytes(fb) * 2 <= usize::MAX
            &&& fb.address + line_bytes(fb) <= usize::MAX
            &&& 2 * line_bytes(fb) <= fb.size
            &&& fb.size - line_bytes(fb) <= s.2.len()
        } else {
            s.1 + LINE_ADVANCE <= usize::MAX
        }
    } else {
        &&& s.0 + FONT_WIDTH <= usize::MAX
        &&& block_fits(
            s.2.len() as int,
            fb.width as int,
            fb.bytes_per_pixel as int,
            s.0,
            s.1,
            FONT_WIDTH as int,
            font.height as int,
        )
    }
}

/// The console after the first `k` bytes.
pub open spec fn log_run(fb: Framebuffer, font: Font, s: (int, int, Seq<u8>), bytes: Seq<u8>, k: int) -> (
    int,
    int,
    Seq<u8>,
)
    decreases k,
{
    if k <= 0 {
        s
    } else {
        log_step(fb, font, log_run(fb, font, s, bytes, k - 1), bytes[k - 1])
    }
}

/// Every one of the first `k` steps is within bounds.
pub open spec fn log_run_ok(fb: Framebuffer, font: Font, s: (int, int, Seq<u8>), bytes: Seq<u8>, k: int) -> bool
    decreases k,
{
    if k <= 0 {
        true
    } else {
        log_run_ok(fb, font, s, bytes, k - 1) && log_step_ok(
            fb,
            font,
            log_run(fb, font, s, bytes, k - 1),
            bytes[k - 1],
        )
    }
}

/// The words the mini UART sends for `bytes`: each byte, with a carriage
/// return before each line feed.
pub open spec fn uart_words(bytes: Seq<u8>) -> Seq<u32>
    decreases bytes.len(),
{
    if bytes.len() == 0 {
        Seq::empty()
    } else {
        uart_words(bytes.drop_last()) + if bytes.last() == 10 {
            seq![13u32, 10u32]
        } else {
            seq![bytes.last() as u32]
        }
    }
}

proof fn lemma_run_ok_prefix(fb: Framebuffer, font: Font, s: (int, int, Seq<u8>), bytes: Seq<u8>, i: int, k: int)
    requires
        0 <= i < k,
        log_run_ok(fb, font, s, bytes, k),
    ensures
        log_step_ok(fb, font, log_run(fb, font, s, bytes, i), bytes[i]),
    decreases k - i,
{
    if i < k - 1 {
        lemma_run_ok_prefix(fb, font, s, bytes, i, k - 1);
    }
}

proof fn lemma_run_keeps_length(fb: Framebuffer, font: Font, s: (int, int, Seq<u8>), bytes: Seq<u8>, k: int)
    requires
        k >= 0,
    ensures
        log_run(fb, font, s, bytes, k).2.len() == s.2.len(),
    decreases k,
{
    if k > 0 {
        lemma_run_keeps_length(fb, font, s, bytes, k - 1);
        crate::graphics::pixels::lemma_glyph_rows_length(
            log_run(fb, font, s, bytes, k - 1).2,
            fb.width as int,
            fb.bytes_per_pixel as int,
            log_run(fb, font, s, bytes, k - 1).0,
            log_run(fb, font, s, bytes, k - 1).1,
            font.glyph(bytes[k - 1] as int),
            TEXT_COLOUR,
            BACKGROUND_COLOUR,
            font.height as int,
        );
    }
}

impl Logger {
    /// A console without a framebuffer, its cursor at the top left.
    pub fn new() -> (r: Self)
        ensures
            r.framebuffer is None,
            r.cursor_x == 0,
            r.cursor_y == 0,
    {
        Self { framebuffer: None, cursor_x: 0, cursor_y: 0 }
    }

    /// Attaches the framebuffer the console draws on.
    pub fn set_framebuffer(&mut self, framebuffer: Framebuffer)
        ensures
            final(self).framebuffer == Some(framebuffer),
            final(self).cursor_x == old(self).cursor_x,
            final(self).cursor_y == old(self).cursor_y,
    {
        self.framebuffer = Some(framebuffer);
    }

    /// Whether `message` can be logged: with a framebuffer attached, every
    /// glyph and every scroll stays within the frame (see `write_str`).
    pub fn can_write(&self, font: &Font, message: &str) -> (r: bool)
        ensures
            r == (self.framebuffer matches Some(fb) ==> log_run_ok(
                fb,
                *font,
                (self.cursor_x as int, self.cursor_y as int, fb.memory@),
                message.spec_bytes(),
                message.spec_bytes().len() as int,
            )),
    {
        let fb = match &self.framebuffer {
            None => return true,
            Some(fb) => fb,
        };
        let bytes = message.as_bytes();
        let ghost s0 = (self.cursor_x as int, self.cursor_y as int, fb.memory@);
        let ghost n = bytes@.len() as int;
        let mut x = self.cursor_x;
        let mut y = self.cursor_y;
        let mut i: usize = 0;
        while i < bytes.len()
            invariant
                i <= bytes@.len(),
                n == bytes@.len(),
                bytes@ == message.spec_bytes(),
                self.framebuffer == Some(*fb),
                s0 == (self.cursor_x as int, self.cursor_y as int, fb.memory@),
                log_run_ok(*fb, *font, s0, bytes@, i as int),
                log_run(*fb, *font, s0, bytes@, i as int).0 == x,
                log_run(*fb, *font, s0, bytes@, i as int).1 == y,
            decreases bytes@.len() - i,
        {
            proof {
                lemma_run_keeps_length(*fb, *font, s0, bytes@, i as int);
                if log_run_ok(*fb, *font, s0, bytes@, n) {
                    lemma_run_ok_prefix(*fb, *font, s0, bytes@, i as int, n);
                }
            }
            let byte = bytes[i];
            if byte == 10 {
                if y == LAST_LINE {
                    let row = match fb.bytes_per_pixel.checked_mul(fb.width) {
                        Some(v) => v,
                        None => return false,
                    };
                    let line = match row.checked_mul(LINE_ADVANCE) {
                        Some(v) => v,
                        None => return false,
                    };
                    let both = match line.checked_mul(2) {
                        Some(v) => v,
                        None => return false,
                    };
                    if fb.address.checked_add(line).is_none() || both > fb.size
                        || fb.size - line > fb.memory.len() {
                        return false;
                    }
                } else {
                    if y > usize::MAX - LINE_ADVANCE {
                        return false;
                    }
                    y = y + LINE_ADVANCE;
                }
                x = 0;
            } else {
                if x > usize::MAX - FONT_WIDTH {
                    return false;
                }
                if !fb.fits_block(x, y, FONT_WIDTH, font.height) {
                    return false;
                }
                x = x + FONT_WIDTH;
            }
            i += 1;
        }
        true
    }

    /// Logs the bytes of `message`: returns the words the mini UART sends,
    /// and draws them on the console, if one is attached.
    pub fn write_str(&mut self, font: &Font, message: &str) -> (r: Vec<u32>)
        requires
            font.well_formed(),
            old(self).framebuffer matches Some(fb) ==> log_run_ok(
                fb,
                *font,
                (old(self).cursor_x as int, old(self).cursor_y as int, fb.memory@),
                message.spec_bytes(),
                message.spec_bytes().len() as int,
            ),
        ensures
            r@ == uart_words(message.spec_bytes()),
            old(self).framebuffer is None ==> final(self).framebuffer is None && final(self).cursor_x
                == old(self).cursor_x && final(self).cursor_y == old(self).cursor_y,
            old(self).framebuffer matches Some(fb) ==> final(self).framebuffer matches Some(fb2)
                && same_geometry(fb2, fb) && (final(self).cursor_x as int, final(self).cursor_y as int, fb2.memory@)
                == log_run(
                fb,
                *font,
                (old(self).cursor_x as int, old(self).cursor_y as int, fb.memory@),
                message.spec_bytes(),
                message.spec_bytes().len() as int,
            ),
    {
        let bytes = message.as_bytes();
        let mut words: Vec<u32> = Vec::new();
        let mut i: usize = 0;
        while i < bytes.len()
            invariant
                i <= bytes@.len(),
                words@ == uart_words(bytes@.subrange(0, i as int)),
            decreases bytes@.len() - i,
        {
            let byte = bytes[i];
            let mut sent = write_character_blocking(byte as char);
            words.append(&mut sent);
            proof {
                assert(bytes@.subrange(0, i + 1).drop_last() =~= bytes@.subrange(0, i as int));
            }
            i += 1;
        }
        assert(bytes@.subrange(0, bytes@.len() as int) =~= bytes@);
        if self.framebuffer.is_none() {
            return words;
        }
        let ghost s0 = (self.cursor_x as int, self.cursor_y as int, self.framebuffer->Some_0.memory@);
        let ghost fb0 = self.framebuffer->Some_0;
        let mut framebuffer = self.framebuffer.take().unwrap();
        let mut i: usize = 0;
        while i < bytes.len()
            invariant
                font.well_formed(),
                same_geometry(framebuffer, fb0),
                fb0.memory@.len() == s0.2.len(),
                log_run_ok(fb0, *font, s0, bytes@, bytes@.len() as int),
                i <= bytes@.len(),
                (self.cursor_x as int, self.cursor_y as int, framebuffer.memory@) == log_run(
                    fb0,
                    *font,
                    s0,
                    bytes@,
                    i as int,
                ),
            decreases bytes@.len() - i,
        {
            let byte = bytes[i];
            proof {
                lemma_run_ok_prefix(fb0, *font, s0, bytes@, i as int, bytes@.len() as int);
                lemma_run_keeps_length(fb0, *font, s0, bytes@, i as int);
            }
            if byte == 10 {
                self.cursor_x = 0;
                if self.cursor_y == LAST_LINE {
                    let line_byte_size = framebuffer.bytes_per_pixel * framebuffer.width * 10;
                    let second_line_address = framebuffer.address + line_byte_size;
                    let size = framebuffer.size - line_byte_size * 2;
                    memmove(&mut framebuffer.memory, 0, second_line_address - framebuffer.address, size);
                } else {
                    self.cursor_y += LINE_ADVANCE;
                }
            } else {
                assert((byte as char) as u32 % 256 == byte);
                framebuffer.draw_character(
                    font,
                    self.cursor_x,
                    self.cursor_y,
                    byte as char,
                    TEXT_COLOUR,
                    BACKGROUND_COLOUR,
                );
                self.cursor_x += FONT_WIDTH;
            }
            i += 1;
        }
        self.framebuffer = Some(framebuffer);
        words
    }
}

} // verus!

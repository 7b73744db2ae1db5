use alb1::graphics::framebuffer::{Font, Framebuffer};
use alb1::peripherals::logger::Logger;

fn test_font() -> Font {
    let mut glyphs = vec![vec![0u8; 8]; 256];
    glyphs[b'x' as usize] = vec![0xff; 8];
    Font { height: 8, glyphs }
}

#[test]
fn log_without_console_only_feeds_the_uart() {
    let font = test_font();
    let mut logger = Logger::new();
    let words = logger.write_str(&font, "ok\n");
    assert_eq!(words, vec![b'o' as u32, b'k' as u32, 13, 10]);
    assert!(logger.framebuffer.is_none());
    assert_eq!((logger.cursor_x, logger.cursor_y), (0, 0));
}

#[test]
fn log_draws_glyphs_and_moves_the_cursor() {
    let font = test_font();
    let mut logger = Logger::new();
    logger.set_framebuffer(Framebuffer::new(0, 64, 32, 40, 32 * 40 * 2));
    let words = logger.write_str(&font, "x\nx");
    assert_eq!(words, vec![b'x' as u32, 13, 10, b'x' as u32]);
    assert_eq!((logger.cursor_x, logger.cursor_y), (8, 10));
    let fb = logger.framebuffer.as_ref().unwrap();
    // first glyph at (0, 0), second at (0, 10)
    assert_eq!(&fb.memory[0..2], &[0xAA, 0xAA]);
    let second = (10 * 32) * 2;
    assert_eq!(&fb.memory[second..second + 2], &[0xAA, 0xAA]);
    // right of the first glyph stays untouched
    assert_eq!(&fb.memory[16..18], &[0, 0]);
}

#[test]
fn line_feed_on_last_line_scrolls() {
    let font = test_font();
    let mut logger = Logger::new();
    let mut fb = Framebuffer::new(0, 4, 2, 30, 120);
    for (i, b) in fb.memory.iter_mut().enumerate() {
        *b = i as u8;
    }
    logger.set_framebuffer(fb);
    logger.cursor_y = 500;
    logger.cursor_x = 24;
    logger.write_str(&font, "\n");
    assert_eq!((logger.cursor_x, logger.cursor_y), (0, 500));
    let fb = logger.framebuffer.as_ref().unwrap();
    let expected: Vec<u8> = (40..80).map(|i| i as u8).collect();
    assert_eq!(&fb.memory[0..40], expected.as_slice());
    let rest: Vec<u8> = (40..120).map(|i| i as u8).collect();
    assert_eq!(&fb.memory[40..120], rest.as_slice());
}

#[test]
fn can_write_checks_every_glyph_against_the_frame() {
    let font = test_font();
    let mut logger = Logger::new();
    assert!(logger.can_write(&font, "anything at all"));
    // two glyphs wide and one glyph high
    logger.set_framebuffer(Framebuffer::new(0, 64, 16, 8, 16 * 8 * 4));
    assert!(logger.can_write(&font, "ab"));
    assert!(!logger.can_write(&font, "abc"));
    // a line feed moves below the frame, where the next glyph does not fit
    assert!(logger.can_write(&font, "a\n"));
    assert!(!logger.can_write(&font, "a\nb"));
}

use alb1::game::{draw_settings, move_cursor, show_board, BOARD_OFFSET};
use alb1::graphics::framebuffer::{initialize, setup_request, size_request, Font, Framebuffer};
use alb1::peripherals::mailbox::{FramebufferSize, MailboxTag};
use alb1::steckhalma::{Board, Pos};
use alb1::steckhalma_draw::{draw, fits_board};

fn pixel(fb: &Framebuffer, x: usize, y: usize) -> Vec<u8> {
    let bpp = fb.bytes_per_pixel;
    let offset = (y * fb.width + x) * bpp;
    fb.memory[offset..offset + bpp].to_vec()
}

fn test_font() -> Font {
    let mut glyphs = vec![vec![0u8, 0u8]; 256];
    glyphs[65] = vec![0b0000_0001, 0b1000_0000];
    Font { height: 2, glyphs }
}

#[test]
fn new_framebuffer_derives_pixel_size() {
    let fb = Framebuffer::new(0x1000, 8, 4, 3, 24);
    assert_eq!(fb.bytes_per_pixel, 2);
    assert_eq!(fb.memory.len(), 24);
    assert!(fb.memory.iter().all(|b| *b == 0));
    let fb = Framebuffer::new(0x1000, 16, 4, 3, 48);
    assert_eq!(fb.bytes_per_pixel, 4);
}

#[test]
fn draw_pixel_writes_little_endian_colour() {
    let mut fb = Framebuffer::new(0, 8, 4, 3, 24);
    fb.draw_pixel(1, 1, 0x0012_3456);
    assert_eq!(&fb.memory[10..12], &[0x56, 0x34]);
    assert_eq!(fb.memory.iter().filter(|b| **b != 0).count(), 2);
    let mut fb = Framebuffer::new(0, 16, 4, 3, 48);
    fb.draw_pixel(1, 1, 0xAABB_CCDD);
    assert_eq!(&fb.memory[20..24], &[0xDD, 0xCC, 0xBB, 0xAA]);
}

#[test]
fn draw_rectangle_borders_first_row_and_column() {
    let mut fb = Framebuffer::new(0, 16, 4, 3, 48);
    fb.draw_rectangle(0, 0, 2, 1, 5, 9);
    assert_eq!(pixel(&fb, 0, 0), vec![9, 0, 0, 0]);
    assert_eq!(pixel(&fb, 2, 0), vec![9, 0, 0, 0]);
    assert_eq!(pixel(&fb, 0, 1), vec![9, 0, 0, 0]);
    assert_eq!(pixel(&fb, 1, 1), vec![5, 0, 0, 0]);
    assert_eq!(pixel(&fb, 2, 1), vec![5, 0, 0, 0]);
    assert_eq!(pixel(&fb, 3, 1), vec![0, 0, 0, 0]);
    assert_eq!(pixel(&fb, 0, 2), vec![0, 0, 0, 0]);
}

#[test]
fn draw_character_follows_glyph_bits() {
    let font = test_font();
    let mut fb = Framebuffer::new(0, 32, 16, 2, 64);
    fb.draw_character(&font, 0, 0, 'A', 0x0101, 0x0202);
    assert_eq!(pixel(&fb, 0, 0), vec![1, 1]);
    assert_eq!(pixel(&fb, 1, 0), vec![2, 2]);
    assert_eq!(pixel(&fb, 7, 0), vec![2, 2]);
    assert_eq!(pixel(&fb, 7, 1), vec![1, 1]);
    assert_eq!(pixel(&fb, 0, 1), vec![2, 2]);
    assert_eq!(pixel(&fb, 8, 0), vec![0, 0]);
}

#[test]
fn draw_text_advances_one_glyph_per_byte() {
    let font = test_font();
    let mut fb = Framebuffer::new(0, 32, 16, 2, 64);
    fb.draw_text(&font, 0, 0, "AB", 0x0101, 0x0202);
    assert_eq!(pixel(&fb, 0, 0), vec![1, 1]);
    assert_eq!(pixel(&fb, 8, 0), vec![2, 2]);
    assert_eq!(pixel(&fb, 15, 1), vec![2, 2]);
}

#[test]
fn framebuffer_setup_from_firmware_answers() {
    let size_message = size_request();
    let words = size_message.words().clone();
    assert_eq!(&words[0..8], &[32, 0, 0x40003, 8, 0, 0, 0, 0]);
    let size = FramebufferSize { width: 640, height: 480 };
    let mut setup = setup_request(size);
    let mut response = setup.words().clone();
    assert_eq!(response[29], 0x40001);
    assert_eq!(response[34], 0x40008);
    response[1] = 0x8000_0000;
    response[32] = 0xC000_1000;
    response[33] = 640 * 480 * 2;
    response[37] = 1280;
    setup.store_response(&response);
    assert!(setup.holds_value(MailboxTag::SetFramebufferDepth, 1));
    assert!(setup.holds_value(MailboxTag::SetAlphaMode, 1));
    assert!(setup.holds_value(MailboxTag::SetPixelOrder, 1));
    // an answer without the depth tag is not one the setup reads
    let mut without_depth = response.clone();
    assert_eq!(without_depth[17], 0x48005);
    without_depth[17] = 0x4_9999;
    let mut broken = setup_request(size);
    broken.store_response(&without_depth);
    assert!(!broken.holds_value(MailboxTag::SetFramebufferDepth, 1));
    let fb = initialize(&setup, size);
    assert_eq!(fb.address, 0x1000);
    assert_eq!(fb.pitch, 1280);
    assert_eq!(fb.size, 614400);
    assert_eq!(fb.bytes_per_pixel, 2);
    assert_eq!((fb.width, fb.height), (640, 480));
}

#[test]
fn board_drawing_colours() {
    let mut fb = Framebuffer::new(0, 1280, 640, 520, 640 * 520 * 2);
    let settings = draw_settings();
    let board = Board::new();
    draw(&mut fb, &settings, BOARD_OFFSET, &board, Pos::new(3, 3));
    // background square border
    assert_eq!(pixel(&fb, 150, 50), vec![0x3b, 0x3b]);
    // field (0, 0): invalid, background colour
    assert_eq!(pixel(&fb, 155, 55), vec![0x88, 0x88]);
    // field (3, 3): cursor border, empty hole inside
    assert_eq!(pixel(&fb, 350, 250), vec![0x33, 0x33]);
    assert_eq!(pixel(&fb, 351, 251), vec![0x00, 0x00]);
    // field (2, 0): a peg
    assert_eq!(pixel(&fb, 286, 56), vec![0x66, 0x66]);
}

#[test]
fn fits_block_checks_the_last_pixel() {
    let fb = Framebuffer::new(0, 40, 10, 10, 400);
    assert_eq!(fb.bytes_per_pixel, 4);
    assert!(fb.fits_block(0, 0, 10, 10));
    assert!(!fb.fits_block(0, 0, 11, 10));
    assert!(!fb.fits_block(0, 1, 10, 10));
    assert!(fb.fits_block(500, 500, 0, 0));
    assert!(!fb.fits_block(usize::MAX, 0, 1, 1));
    let odd = Framebuffer::new(0, 30, 10, 10, 300);
    assert!(!odd.fits_block(0, 0, 1, 1));
}

#[test]
fn fits_board_needs_room_for_the_whole_board() {
    let settings = draw_settings();
    let large = Framebuffer::new(0, 3200, 800, 600, 800 * 600 * 4);
    assert!(fits_board(&large, &settings, BOARD_OFFSET));
    let small = Framebuffer::new(0, 2560, 640, 480, 640 * 480 * 4);
    assert!(!fits_board(&small, &settings, BOARD_OFFSET));
    assert!(fits_board(&small, &settings, (0, 0)));
}

#[test]
fn main_loop_rounds_draw_the_starting_board_at_the_cursor() {
    let mut shown = Framebuffer::new(0, 3200, 800, 600, 800 * 600 * 4);
    let mut drawn = shown.clone();
    let mut cursor = Pos::new(0, 0);
    for key in "llllllllljjjjjjjjjx".chars() {
        cursor = move_cursor(cursor, key);
        assert!(cursor.x < 7 && cursor.y < 7);
    }
    assert_eq!(cursor, Pos::new(6, 6));
    show_board(&mut shown, cursor);
    draw(&mut drawn, &draw_settings(), BOARD_OFFSET, &Board::new(), cursor);
    assert!(shown.memory == drawn.memory);
    assert!(shown.memory.iter().any(|byte| *byte != 0));
}

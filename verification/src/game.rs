//! The decisions of the kernel's main loop: the boot requests to the
//! firmware, how the board is drawn, and how keys move the cursor.

use vstd::prelude::*;
use crate::peripherals::mailbox::{
    empty_message, led_hardware_state, led_number, request_words, Message, MailboxTag, OnBoardLed,
};
use crate::property_tags::appended;
use crate::graphics::framebuffer::{same_geometry, Framebuffer};
use crate::steckhalma::{on_grid, shifted, standard_layout, Board, Direction, Pos};
use crate::steckhalma_draw::{board_drawing, board_side, draw, DrawSettings};

verus! {

/// The words of the request for the device information: firmware version,
/// board model, revision and serial, and the ARM and VideoCore memory.
pub open spec fn device_info_words() -> Seq<u32> {
    let m0 = empty_message(30);
    let m1 = appended(m0, request_words(MailboxTag::GetFirmwareVersion, seq![]));
    let m2 = appended(m1, request_words(MailboxTag::GetBoardModel, seq![]));
    let m3 = appended(m2, request_words(MailboxTag::GetBoardRevision, seq![]));
    let m4 = appended(m3, request_words(MailboxTag::GetBoardSerial, seq![]));
    let m5 = appended(m4, request_words(MailboxTag::GetARMMemory, seq![]));
    let m6 = appended(m5, request_words(MailboxTag::GetVideoCoreMemory, seq![]));
    appended(m6, seq![0u32])
}

/// The message the kernel sends at boot to learn about the device.
pub fn device_info_request() -> (r: Message<30>)
    ensures
        r@ == device_info_words(),
{
    let mut message = Message::<30>::new();
    message.get_firmware_version_request();
    message.get_board_model_request();
    message.get_board_revision_request();
    message.get_board_serial_request();
    message.get_arm_memory_request();
    message.get_video_core_memory_request();
    message.finalize_send_receive();
    message
}

/// The words of the request that turns the status LED on and the power LED
/// off.
pub open spec fn status_led_words() -> Seq<u32> {
    let m0 = empty_message(20);
    let m1 = appended(
        m0,
        request_words(
            MailboxTag::SetLEDStatus,
            seq![led_number(OnBoardLed::Status), led_hardware_state(OnBoardLed::Status, true)],
        ),
    );
    let m2 = appended(
        m1,
        request_words(
            MailboxTag::SetLEDStatus,
            seq![led_number(OnBoardLed::Power), led_hardware_state(OnBoardLed::Power, false)],
        ),
    );
    appended(m2, seq![0u32])
}

/// The message the kernel sends at boot to switch the status LED on and the
/// power LED off.
pub fn status_led_request() -> (r: Message<20>)
    ensures
        r@ == status_led_words(),
{
    let mut message = Message::<20>::new();
    message.set_led_status_request(OnBoardLed::Status, true);
    message.set_led_status_request(OnBoardLed::Power, false);
    message.finalize_send_receive();
    message
}

/// The colours and sizes the kernel draws the board with.
pub open spec fn board_settings() -> DrawSettings {
    DrawSettings {
        colour_background: 0x888888,
        colour_border: 0x3b3b3b,
        colour_nopeg: 0x000000,
        colour_peg: 0x666666,
        colour_highlight: 0xff3333,
        field_size: 60,
        margin: 5,
    }
}

/// The colours and sizes the kernel draws the board with.
pub fn draw_settings() -> (r: DrawSettings)
    ensures
        r == board_settings(),
{
    DrawSettings {
        colour_background: 0x888888,
        colour_border: 0x3b3b3b,
        colour_nopeg: 0x000000,
        colour_peg: 0x666666,
        colour_highlight: 0xff3333,
        field_size: 60,
        margin: 5,
    }
}

/// Where the board is drawn.
pub const BOARD_OFFSET: (usize, usize) = (150, 50);

/// The direction a key moves the cursor: h, j, k, l for left, down, up,
/// right.
pub open spec fn key_direction(key: char) -> Option<Direction> {
    if key == 'h' {
        Some(Direction::Left)
    } else if key == 'j' {
        Some(Direction::Down)
    } else if key == 'k' {
        Some(Direction::Up)
    } else if key == 'l' {
        Some(Direction::Right)
    } else {
        None
    }
}

/// The cursor after a key press: one cell in the key's direction when that
/// cell is on the grid; otherwise (or for other keys) unchanged.
pub open spec fn cursor_after(cursor: Pos, key: char) -> Pos {
    match key_direction(key) {
        Some(d) => if on_grid(shifted(cursor, d, 1)) {
            shifted(cursor, d, 1)
        } else {
            cursor
        },
        None => cursor,
    }
}

/// Moves the cursor for a key press.
pub fn move_cursor(cursor_pos: Pos, user_input: char) -> (r: Pos)
    ensures
        r == cursor_after(cursor_pos, user_input),
{
    let direction = if user_input == 'h' {
        Direction::Left
    } else if user_input == 'j' {
        Direction::Down
    } else if user_input == 'k' {
        Direction::Up
    } else if user_input == 'l' {
        Direction::Right
    } else {
        return cursor_pos;
    };
    let new_cursor_pos = cursor_pos.shift(direction, 1);
    if new_cursor_pos.in_range() {
        new_cursor_pos
    } else {
        cursor_pos
    }
}

/// A cursor on the grid stays on the grid, whatever key is pressed.
pub proof fn lemma_cursor_stays_on_grid(cursor: Pos, key: char)
    requires
        on_grid(cursor),
    ensures
        on_grid(cursor_after(cursor, key)),
{
}

/// The cursor after the keys `keys`, pressed one after another.
pub open spec fn cursor_after_keys(cursor: Pos, keys: Seq<char>) -> Pos
    decreases keys.len(),
{
    if keys.len() == 0 {
        cursor
    } else {
        cursor_after(cursor_after_keys(cursor, keys.drop_last()), keys.last())
    }
}

/// However many keys arrive, and whichever, a cursor that starts on the
/// grid stays on it: every cursor the main loop draws the board with is on
/// the grid.
pub proof fn lemma_cursor_walk_stays_on_grid(cursor: Pos, keys: Seq<char>)
    requires
        on_grid(cursor),
    ensures
        on_grid(cursor_after_keys(cursor, keys)),
    decreases keys.len(),
{
    if keys.len() > 0 {
        lemma_cursor_walk_stays_on_grid(cursor, keys.drop_last());
        lemma_cursor_stays_on_grid(cursor_after_keys(cursor, keys.drop_last()), keys.last());
    }
}

/// The drawing of one round of the main loop: the starting board, drawn with
/// the kernel's settings at `BOARD_OFFSET`, with the field under `cursor_pos`
/// highlighted. The caller then reads a key and moves the cursor with
/// `move_cursor`.
pub fn show_board(fb: &mut Framebuffer, cursor_pos: Pos)
    requires
        old(fb).can_draw_block(
            BOARD_OFFSET.0 as int,
            BOARD_OFFSET.1 as int,
            board_side(board_settings()) + 1,
            board_side(board_settings()) + 1,
        ),
    ensures
        same_geometry(*final(fb), *old(fb)),
        final(fb).memory@ == board_drawing(
            old(fb).memory@,
            old(fb).width as int,
            old(fb).bytes_per_pixel as int,
            board_settings(),
            BOARD_OFFSET.0 as int,
            BOARD_OFFSET.1 as int,
            standard_layout(),
            cursor_pos,
        ),
{
    let board = Board::new();
    let settings = draw_settings();
    draw(fb, &settings, BOARD_OFFSET, &board, cursor_pos);
}

/// The keys move the cursor one cell: `h` left, `l` right, `k` up and `j`
/// down, staying put at the edge of the grid; every other key leaves the
/// cursor where it is.
pub proof fn lemma_cursor_keys(c: Pos, key: char)
    requires
        on_grid(c),
    ensures
        key == 'h' ==> cursor_after(c, key) == (if c.x > 0 {
            Pos { x: (c.x - 1) as usize, y: c.y }
        } else {
            c
        }),
        key == 'l' ==> cursor_after(c, key) == (if c.x < 6 {
            Pos { x: (c.x + 1) as usize, y: c.y }
        } else {
            c
        }),
        key == 'k' ==> cursor_after(c, key) == (if c.y > 0 {
            Pos { x: c.x, y: (c.y - 1) as usize }
        } else {
            c
        }),
        key == 'j' ==> cursor_after(c, key) == (if c.y < 6 {
            Pos { x: c.x, y: (c.y + 1) as usize }
        } else {
            c
        }),
        key != 'h' && key != 'j' && key != 'k' && key != 'l' ==> cursor_after(c, key) == c,
{
    crate::steckhalma::lemma_shift_neighbours(c, 1);
}

} // verus!

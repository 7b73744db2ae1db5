use alb1::game::{device_info_request, move_cursor, status_led_request};
use alb1::steckhalma::Pos;

#[test]
fn keys_move_the_cursor_within_the_grid() {
    assert_eq!(move_cursor(Pos::new(3, 3), 'h'), Pos::new(2, 3));
    assert_eq!(move_cursor(Pos::new(3, 3), 'j'), Pos::new(3, 4));
    assert_eq!(move_cursor(Pos::new(3, 3), 'k'), Pos::new(3, 2));
    assert_eq!(move_cursor(Pos::new(3, 3), 'l'), Pos::new(4, 3));
    assert_eq!(move_cursor(Pos::new(0, 0), 'h'), Pos::new(0, 0));
    assert_eq!(move_cursor(Pos::new(0, 0), 'k'), Pos::new(0, 0));
    assert_eq!(move_cursor(Pos::new(6, 6), 'l'), Pos::new(6, 6));
    assert_eq!(move_cursor(Pos::new(6, 6), 'j'), Pos::new(6, 6));
    assert_eq!(move_cursor(Pos::new(2, 2), 'x'), Pos::new(2, 2));
}

#[test]
fn boot_requests() {
    let m = device_info_request();
    let w = m.words();
    assert_eq!(w[2], 0x00001);
    assert_eq!(w[6], 0x10001);
    assert_eq!(w[10], 0x10002);
    assert_eq!(w[14], 0x10004);
    assert_eq!(w[19], 0x10005);
    assert_eq!(w[24], 0x10006);
    assert_eq!(w[29], 0);
    assert_eq!(w[0], 120);
    let led = status_led_request();
    let w = led.words();
    assert_eq!(&w[2..7], &[0x38041, 8, 8, 42, 1]);
    assert_eq!(&w[7..12], &[0x38041, 8, 8, 130, 1]);
}

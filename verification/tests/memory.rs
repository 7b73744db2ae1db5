use alb1::memory::heap::{align_down, align_up, Allocator};
use alb1::memory::{memcmp, memcpy, memmove, memset};

#[test]
fn memcpy_copies_prefix() {
    let mut d = vec![9u8; 5];
    memcpy(&mut d, &[1, 2, 3], 3);
    assert_eq!(d, vec![1, 2, 3, 9, 9]);
}

#[test]
fn memmove_handles_overlap_both_ways() {
    let mut m = vec![1u8, 2, 3, 4, 5, 6];
    memmove(&mut m, 2, 0, 4);
    assert_eq!(m, vec![1, 2, 1, 2, 3, 4]);
    let mut m = vec![1u8, 2, 3, 4, 5, 6];
    memmove(&mut m, 0, 2, 4);
    assert_eq!(m, vec![3, 4, 5, 6, 5, 6]);
}

#[test]
fn memset_uses_low_byte() {
    let mut m = vec![0u8; 4];
    memset(&mut m, 0x1ff, 3);
    assert_eq!(m, vec![0xff, 0xff, 0xff, 0]);
    let mut m = vec![0u8; 2];
    memset(&mut m, -1, 2);
    assert_eq!(m, vec![0xff, 0xff]);
}

#[test]
fn memcmp_first_difference() {
    assert_eq!(memcmp(&[1, 2, 3], &[1, 2, 3], 3), 0);
    assert_eq!(memcmp(&[1, 5, 3], &[1, 2, 9], 3), 3);
    assert_eq!(memcmp(&[1, 2, 3], &[1, 7, 0], 3), -5);
    assert_eq!(memcmp(&[1, 2, 3], &[1, 2, 4], 2), 0);
}

#[test]
fn alignment() {
    assert_eq!(align_up(0x1001, 0x1000), 0x2000);
    assert_eq!(align_up(0x1000, 0x1000), 0x1000);
    assert_eq!(align_down(0x1fff, 0x100), 0x1f00);
    assert_eq!(align_down(77, 0), 77);
    assert_eq!(align_up(5, 0), 4);
}

#[test]
fn bump_allocation() {
    let mut heap = Allocator::new(0x1000, 0x100);
    assert_eq!(heap.allocate(10, 8), 0x1000);
    assert_eq!(heap.allocate(4, 16), 0x1010);
    assert_eq!(heap.allocate(1, 1), 0x1014);
}

#[test]
fn has_room_matches_what_allocate_accepts() {
    let mut heap = Allocator::new(0x1000, 0x100);
    assert!(heap.has_room(0x100, 16));
    assert!(!heap.has_room(0x101, 16));
    assert_eq!(heap.allocate(1, 1), 0x1000);
    // the next 16-aligned block starts at 0x1010
    assert!(heap.has_room(0xf0, 16));
    assert!(!heap.has_room(0xf1, 16));
    assert!(heap.has_room(0xff, 1));
    assert!(!heap.has_room(0x100, 1));
}

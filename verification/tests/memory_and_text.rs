//! Guest memory and the names of things.
use objc_messaging::mem::{above, below, Mem};
use objc_messaging::text::{characters, contains, same_bytes, same_text, starts_with};

#[test]
fn words_are_little_endian_and_read_back() {
    let mut mem = Mem::new();
    assert_eq!(mem.read_word(0x100), 0);
    mem.write_word(0x100, 0x1234_5678);
    assert_eq!(mem.read_word(0x100), 0x1234_5678);
    assert_eq!(mem.read_byte(0x100), 0x78);
    assert_eq!(mem.read_byte(0x103), 0x12);
    assert_eq!(mem.read_word(0x102), 0x0000_1234);
    mem.write_word(0x104, 0xffff_ffff);
    assert_eq!(mem.read_word(0x100), 0x1234_5678);
}

#[test]
fn addresses_wrap_around() {
    let mut mem = Mem::new();
    mem.write_word(0xffff_fffe, 0xaabb_ccdd);
    assert_eq!(mem.read_byte(0xffff_fffe), 0xdd);
    assert_eq!(mem.read_byte(0), 0xbb);
    assert_eq!(mem.read_word(0xffff_fffe), 0xaabb_ccdd);
    assert_eq!(above(0xffff_fffc, 8), 4);
    assert_eq!(below(4, 8), 0xffff_fffc);
    assert_eq!(below(above(0x1000, 12), 12), 0x1000);
}

#[test]
fn strings_end_with_a_zero() {
    let mut mem = Mem::new();
    assert!(mem.read_cstr(0x100).is_empty());
    mem.write_word(0x104, 0xffff_ffff);
    mem.write_cstr(0x100, b"init");
    assert_eq!(mem.read_cstr(0x100), b"init".to_vec());
    assert_eq!(mem.read_cstr(0x102), b"it".to_vec());
    assert_eq!(mem.read_word(0x104), 0xffff_ff00);
    mem.write_cstr(0xffff_fffe, b"wrap");
    assert_eq!(mem.read_cstr(0xffff_fffe), b"wrap".to_vec());
    assert_eq!(mem.read_byte(0), b'a');
}

#[test]
fn texts_are_compared_and_searched() {
    assert!(same_text("alloc", "alloc"));
    assert!(!same_text("alloc", "allocWithZone:"));
    assert!(!same_text("alloc", "allo\u{e7}"));
    assert!(starts_with("AdMarvelView", "AdMarvel"));
    assert!(!starts_with("MyAdMarvel", "AdMarvel"));
    assert!(!starts_with("Ad", "AdMarvel"));
    assert!(contains(b"isAdMarvelReady", b"AdMarvel"));
    assert!(contains(b"AdMarvel", b"AdMarvel"));
    assert!(!contains(b"AdMarve", b"AdMarvel"));
    assert!(!contains(b"admarvel ready", b"AdMarvel"));
    assert!(contains(b"anything", b""));
    assert!(same_bytes(b"copy", b"copy"));
    assert!(!same_bytes(b"copy", b"cops"));
    assert!(!same_bytes(b"copy", b"copy "));
    assert_eq!(characters("a\u{1f600}b"), vec!['a', '\u{1f600}', 'b']);
}

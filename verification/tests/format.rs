use oxdump::dump::{hexdump, hexdump_checked};
use oxdump::Config;

fn plain(skip: usize, limit: usize, width: usize) -> Config {
    Config { skip, limit, width, color: false }
}

#[test]
fn sixteen_a_then_specials() {
    // 20 bytes: sixteen 0x41, then 00 0a ff 42; width 16, no skip, no limit.
    let mut bytes: Vec<u8> = vec![0x41; 16];
    bytes.extend_from_slice(&[0x00, 0x0a, 0xff, 0x42]);
    let lines = hexdump(&bytes, &plain(0, 0, 16));
    let line1 = "00000000  41 41 41 41  41 41 41 41  41 41 41 41  41 41 41 41 \
                 \x1b[0;1m \u{2502}AAAA\u{2502}AAAA\u{2502}AAAA\u{2502}AAAA\x1b[0;1m\u{2502}";
    let pad = " ".repeat(39);
    let line2 = format!(
        "00000010  00 0a ff 42 {}\x1b[0;1m \u{2502}...B\x1b[0;1m\u{2502}",
        pad
    );
    assert_eq!(lines.len(), 3);
    assert_eq!(lines[0], line1);
    assert_eq!(lines[1], line2);
    assert_eq!(lines[2], "");
}

#[test]
fn skip_and_count_window() {
    // skip=5, count=3 over the 20 bytes 0..19: only bytes 5, 6, 7 appear,
    // in one partial line whose offset is the skip.
    let bytes: Vec<u8> = (0u8..20).collect();
    let lines = hexdump(&bytes, &plain(5, 3, 16));
    let pad = " ".repeat(42);
    let expected = format!(
        "00000005  05 06 07 {}\x1b[0;1m \u{2502}...\x1b[0;1m\u{2502}",
        pad
    );
    assert_eq!(lines.len(), 2);
    assert_eq!(lines[0], expected);
    assert_eq!(lines[1], "");
}

#[test]
fn printable_short_input_keeps_characters() {
    // An all-printable input shorter than the width renders its own
    // characters in the ASCII pane, with no dot substitutions.
    let bytes: Vec<u8> = b"Hello".to_vec();
    let lines = hexdump(&bytes, &plain(0, 0, 16));
    let pad = " ".repeat(35);
    let expected = format!(
        "00000000  48 65 6c 6c  6f {}\x1b[0;1m \u{2502}Hell\u{2502}o\x1b[0;1m\u{2502}",
        pad
    );
    assert_eq!(lines.len(), 2);
    assert_eq!(lines[0], expected);
    assert_eq!(lines[1], "");
}

#[test]
fn empty_input_prints_only_terminator() {
    let bytes: Vec<u8> = Vec::new();
    let lines = hexdump(&bytes, &plain(0, 0, 16));
    assert_eq!(lines, vec![String::new()]);
}

#[test]
fn skip_past_end_prints_only_terminator() {
    let bytes: Vec<u8> = vec![1, 2, 3];
    let lines = hexdump(&bytes, &plain(10, 0, 16));
    assert_eq!(lines, vec![String::new()]);
}

#[test]
fn limit_larger_than_input_renders_all() {
    let bytes: Vec<u8> = b"Hi".to_vec();
    let lines = hexdump(&bytes, &plain(0, 100, 16));
    let pad = " ".repeat(45);
    let expected = format!(
        "00000000  48 69 {}\x1b[0;1m \u{2502}Hi\x1b[0;1m\u{2502}",
        pad
    );
    assert_eq!(lines, vec![expected, String::new()]);
}

#[test]
fn width_one_line_per_byte() {
    let bytes: Vec<u8> = vec![0x41, 0x42];
    let lines = hexdump(&bytes, &plain(0, 0, 1));
    let line1 = "00000000  41 \x1b[0;1m \u{2502}A\x1b[0;1m\u{2502}";
    let line2 = "00000001  42 \x1b[0;1m \u{2502}B\x1b[0;1m\u{2502}";
    assert_eq!(lines, vec![line1.to_string(), line2.to_string(), String::new()]);
}

#[test]
fn offsets_step_by_width() {
    // Three distinct full lines: offsets 0, 0x10, 0x20.
    let bytes: Vec<u8> = (0x20u8..0x50).collect();
    let lines = hexdump(&bytes, &plain(0, 0, 16));
    assert_eq!(lines.len(), 4);
    assert!(lines[0].starts_with("00000000 "));
    assert!(lines[1].starts_with("00000010 "));
    assert!(lines[2].starts_with("00000020 "));
    assert_eq!(lines[3], "");
}

#[test]
fn large_skip_shows_in_offset_label() {
    // A skip of 0x1234 puts its hex digits in the eight-digit label.
    let bytes: Vec<u8> = vec![0x41; 0x1240];
    let lines = hexdump(&bytes, &plain(0x1234, 3, 16));
    let pad = " ".repeat(42);
    let expected = format!(
        "00001234  41 41 41 {}\x1b[0;1m \u{2502}AAA\x1b[0;1m\u{2502}",
        pad
    );
    assert_eq!(lines, vec![expected, String::new()]);
}

#[test]
fn printable_range_boundaries() {
    // 0x1f is still non-printable, 0x20 and 0x7e are printable, 0x7f is
    // non-printable again.
    let bytes: Vec<u8> = vec![0x1f, 0x20, 0x7e, 0x7f];
    let lines = hexdump(&bytes, &plain(0, 0, 4));
    let expected = "00000000  1f 20 7e 7f \x1b[0;1m \u{2502}. ~.\x1b[0;1m\u{2502}";
    assert_eq!(lines, vec![expected.to_string(), String::new()]);
}

#[test]
fn checked_rejects_zero_width() {
    let bytes: Vec<u8> = vec![1, 2, 3];
    assert!(hexdump_checked(&bytes, &plain(0, 0, 0)).is_none());
}

#[test]
fn checked_accepts_positive_width() {
    let bytes: Vec<u8> = vec![0x41];
    let r = hexdump_checked(&bytes, &plain(0, 0, 16));
    assert!(r.is_some());
    let lines = r.unwrap();
    assert_eq!(lines, hexdump(&bytes, &plain(0, 0, 16)));
}

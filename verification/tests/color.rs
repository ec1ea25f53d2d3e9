use oxdump::dump::hexdump;
use oxdump::Config;

fn colored(width: usize) -> Config {
    Config { skip: 0, limit: 0, width, color: true }
}

#[test]
fn zero_and_printable_colored() {
    // 0x00 is gray and shows a dot; a printable byte is reset-styled and
    // shows itself; the offset label opens with a reset.
    let bytes: Vec<u8> = vec![0x00, 0x41];
    let lines = hexdump(&bytes, &colored(2));
    let expected = "\x1b[0m00000000  \x1b[30;1m00\x1b[0m \x1b[0m41 \
                    \x1b[0;1m \u{2502}\x1b[0m\x1b[30;1m.\x1b[0m\x1b[0mA\x1b[0;1m\u{2502}";
    assert_eq!(lines, vec![expected.to_string(), String::new()]);
}

#[test]
fn line_endings_red_sentinel_green() {
    // LF and CR are red, 0xff is green, and all three show dots in the
    // ASCII pane even with color enabled; a space byte stays itself.
    let bytes: Vec<u8> = vec![0x0a, 0x0d, 0xff, 0x20];
    let lines = hexdump(&bytes, &colored(4));
    let expected = "\x1b[0m00000000  \x1b[31m0a\x1b[0m \x1b[31m0d\x1b[0m \x1b[32mff\x1b[0m \x1b[0m20 \
                    \x1b[0;1m \u{2502}\x1b[0m\x1b[31m.\x1b[0m\x1b[31m.\x1b[0m\x1b[32m.\x1b[0m\x1b[0m \x1b[0;1m\u{2502}";
    assert_eq!(lines, vec![expected.to_string(), String::new()]);
}

#[test]
fn other_nonprintable_blue() {
    // A control byte that is not 0x00, LF or CR is blue, and the bar
    // before the fifth column is blue as well.
    let bytes: Vec<u8> = vec![0x01, 0x41, 0x41, 0x41, 0x41];
    let lines = hexdump(&bytes, &colored(5));
    let expected = "\x1b[0m00000000  \x1b[34;1m01\x1b[0m \x1b[0m41 \x1b[0m41 \x1b[0m41  \x1b[0m41 \
                    \x1b[0;1m \u{2502}\x1b[0m\x1b[34;1m.\x1b[0m\x1b[0mA\x1b[0mA\x1b[0mA\x1b[34;1m\u{2502}\x1b[0m\x1b[0mA\x1b[0;1m\u{2502}";
    assert_eq!(lines, vec![expected.to_string(), String::new()]);
}

#[test]
fn specials_show_dots_without_color_too() {
    // The same special bytes render dots with color disabled.
    let bytes: Vec<u8> = vec![0x00, 0x0a, 0x0d, 0xff];
    let cfg = Config { skip: 0, limit: 0, width: 4, color: false };
    let lines = hexdump(&bytes, &cfg);
    let expected = "00000000  00 0a 0d ff \x1b[0;1m \u{2502}....\x1b[0;1m\u{2502}";
    assert_eq!(lines, vec![expected.to_string(), String::new()]);
}

#[test]
fn collapse_compares_colored_bodies() {
    // Identical colored lines collapse just as plain ones do.
    let bytes: Vec<u8> = vec![0x41; 8];
    let lines = hexdump(&bytes, &colored(4));
    assert_eq!(lines.len(), 3);
    assert_eq!(lines[1], "*");
    assert_eq!(lines[2], "");
}

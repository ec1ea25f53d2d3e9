//! Byte classification and ANSI style codes.
//!
//! Every byte falls into exactly one category, which fixes the color code of
//! its hex digits and of its ASCII-pane character. Disabling color empties
//! every category code; the bold code used for pane borders and offset
//! emphasis stays active even then.

use vstd::prelude::*;

verus! {

/// The display class of a byte: it decides the color only, never the layout.
pub enum Category {
    /// `0x00`.
    Zero,
    /// `0x0a` (LF) or `0x0d` (CR).
    LineEnd,
    /// `0xff`.
    HighSentinel,
    /// Any other byte outside printable ASCII.
    NonPrintable,
    /// Printable ASCII, `0x20..=0x7e`.
    Printable,
}

/// Printable ASCII range: space through tilde.
pub open spec fn is_printable(b: u8) -> bool {
    0x20 <= b && b <= 0x7e
}

/// The category of a byte; the special values win over the plain ranges.
pub open spec fn category(b: u8) -> Category {
    if b == 0x00 {
        Category::Zero
    } else if b == 0x0a || b == 0x0d {
        Category::LineEnd
    } else if b == 0xff {
        Category::HighSentinel
    } else if !is_printable(b) {
        Category::NonPrintable
    } else {
        Category::Printable
    }
}

/// The character shown in the ASCII pane: the byte itself when printable,
/// a dot otherwise. Independent of the color switch.
pub open spec fn ascii_render_char(b: u8) -> char {
    if is_printable(b) {
        b as char
    } else {
        '.'
    }
}

pub open spec fn code_gray(color: bool) -> Seq<char> {
    if color {
        "\x1b[30;1m"@
    } else {
        ""@
    }
}

pub open spec fn code_red(color: bool) -> Seq<char> {
    if color {
        "\x1b[31m"@
    } else {
        ""@
    }
}

pub open spec fn code_green(color: bool) -> Seq<char> {
    if color {
        "\x1b[32m"@
    } else {
        ""@
    }
}

pub open spec fn code_blue(color: bool) -> Seq<char> {
    if color {
        "\x1b[34;1m"@
    } else {
        ""@
    }
}

pub open spec fn code_reset(color: bool) -> Seq<char> {
    if color {
        "\x1b[0m"@
    } else {
        ""@
    }
}

/// The bold code is never suppressed by the color switch.
pub open spec fn code_bold() -> Seq<char> {
    "\x1b[0;1m"@
}

/// The color code a byte's category selects. A printable byte is styled
/// with the reset code rather than a color of its own.
pub open spec fn category_code(b: u8, color: bool) -> Seq<char> {
    match category(b) {
        Category::Zero => code_gray(color),
        Category::LineEnd => code_red(color),
        Category::HighSentinel => code_green(color),
        Category::NonPrintable => code_blue(color),
        Category::Printable => code_reset(color),
    }
}

pub fn category_code_str(b: u8, color: bool) -> (r: &'static str)
    ensures
        r@ == category_code(b, color),
{
    if !color {
        ""
    } else if b == 0x00 {
        "\x1b[30;1m"
    } else if b == 0x0a || b == 0x0d {
        "\x1b[31m"
    } else if b == 0xff {
        "\x1b[32m"
    } else if b < 0x20 || b > 0x7e {
        "\x1b[34;1m"
    } else {
        "\x1b[0m"
    }
}

pub fn blue_str(color: bool) -> (r: &'static str)
    ensures
        r@ == code_blue(color),
{
    if color {
        "\x1b[34;1m"
    } else {
        ""
    }
}

pub fn reset_str(color: bool) -> (r: &'static str)
    ensures
        r@ == code_reset(color),
{
    if color {
        "\x1b[0m"
    } else {
        ""
    }
}

pub fn bold_str() -> (r: &'static str)
    ensures
        r@ == code_bold(),
{
    "\x1b[0;1m"
}

} // verus!

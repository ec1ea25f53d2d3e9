//! Rendering of one dump line: hex pane, ASCII pane, offset label, padding.
//!
//! The spec functions here define, character by character, the text of every
//! pane. A pane over a chunk of bytes is defined by recursion on the number
//! of bytes already rendered, which mirrors the left-to-right construction
//! the executable builders perform.

use vstd::prelude::*;
use vstd::string::StringExecFns;
use crate::style::{
    ascii_render_char, category_code, category_code_str, code_blue, code_bold, code_reset,
    is_printable, blue_str, bold_str, reset_str,
};

verus! {

/// The vertical bar that frames the ASCII pane and groups hex columns.
pub open spec fn bar() -> char {
    '\u{2502}'
}

/// One lowercase hex digit for a value in `0..16`.
pub open spec fn hex_digit(n: int) -> char {
    if n < 10 {
        (0x30 + n) as char
    } else {
        (0x57 + n) as char
    }
}

/// The two lowercase hex digits of a byte.
pub open spec fn hex_pair(b: u8) -> Seq<char> {
    seq![hex_digit(b as int / 16), hex_digit(b as int % 16)]
}

/// A byte's slot in the hex pane: its category code, two digits, and a
/// trailing space. A printable byte carries no closing reset of its own,
/// since its opening code already is the reset code.
pub open spec fn hex_cell(b: u8, color: bool) -> Seq<char> {
    if is_printable(b) {
        category_code(b, color) + hex_pair(b) + seq![' ']
    } else {
        category_code(b, color) + hex_pair(b) + code_reset(color) + seq![' ']
    }
}

/// A byte's slot in the ASCII pane: its category code and one character,
/// with a closing reset for the non-printable categories.
pub open spec fn ascii_cell(b: u8, color: bool) -> Seq<char> {
    if is_printable(b) {
        category_code(b, color) + seq![ascii_render_char(b)]
    } else {
        category_code(b, color) + seq![ascii_render_char(b)] + code_reset(color)
    }
}

/// The extra space inserted in the hex pane before every fourth column.
pub open spec fn group_gap(k: int) -> Seq<char> {
    if k > 0 && k % 4 == 0 {
        seq![' ']
    } else {
        Seq::<char>::empty()
    }
}

/// The bar inserted in the ASCII pane before every fourth column.
pub open spec fn ascii_gap(k: int, color: bool) -> Seq<char> {
    if k > 0 && k % 4 == 0 {
        code_blue(color) + seq![bar()] + code_reset(color)
    } else {
        Seq::<char>::empty()
    }
}

/// The hex pane over the first `k` bytes of `chunk`: a leading space, then
/// each byte's cell, with a group gap before every fourth column.
pub open spec fn hex_pane(chunk: Seq<u8>, k: int, color: bool) -> Seq<char>
    decreases k,
{
    if k <= 0 {
        seq![' ']
    } else {
        hex_pane(chunk, k - 1, color) + group_gap(k - 1) + hex_cell(chunk[k - 1], color)
    }
}

/// The ASCII pane over the first `k` bytes of `chunk`: a bold space-and-bar
/// opening, then each byte's cell, with a bar gap before every fourth column.
/// The closing border is not part of the pane: full and partial lines close
/// it differently.
pub open spec fn ascii_pane(chunk: Seq<u8>, k: int, color: bool) -> Seq<char>
    decreases k,
{
    if k <= 0 {
        code_bold() + seq![' ', bar()] + code_reset(color)
    } else {
        ascii_pane(chunk, k - 1, color) + ascii_gap(k - 1, color) + ascii_cell(chunk[k - 1], color)
    }
}

/// The body of a full line: both panes over the whole chunk, closed by a
/// bold bar. The offset label is not part of the body, so that collapsing
/// compares bodies regardless of their offsets.
pub open spec fn full_body(chunk: Seq<u8>, color: bool) -> Seq<char> {
    hex_pane(chunk, chunk.len() as int, color) + ascii_pane(chunk, chunk.len() as int, color)
        + code_bold() + seq![bar()]
}

/// Eight lowercase hex digits of an offset below `2^32`.
pub open spec fn hex8(off: int) -> Seq<char> {
    seq![
        hex_digit((off / 0x10000000) % 16),
        hex_digit((off / 0x1000000) % 16),
        hex_digit((off / 0x100000) % 16),
        hex_digit((off / 0x10000) % 16),
        hex_digit((off / 0x1000) % 16),
        hex_digit((off / 0x100) % 16),
        hex_digit((off / 0x10) % 16),
        hex_digit(off % 16),
    ]
}

/// The label that opens a printed line: a reset, the eight-digit offset,
/// and a space.
pub open spec fn offset_label(off: int, color: bool) -> Seq<char> {
    code_reset(color) + hex8(off) + seq![' ']
}

/// The blank slot padding column `k` of an unfinished line: a group gap's
/// space at every fourth column, then three spaces in place of the digits.
pub open spec fn pad_slot(k: int) -> Seq<char> {
    if k % 4 == 0 {
        seq![' ', ' ', ' ', ' ']
    } else {
        seq![' ', ' ', ' ']
    }
}

/// The padding that aligns a partial line's hex pane from column `k` up to
/// `width`.
pub open spec fn pad(k: int, width: int) -> Seq<char>
    decreases width - k,
{
    if k >= width {
        Seq::<char>::empty()
    } else {
        pad_slot(k) + pad(k + 1, width)
    }
}

/// The one printed line of a trailing partial chunk: label, hex pane,
/// padding to `width` columns, ASCII pane, and a bold bar closed by a reset.
pub open spec fn partial_line(off: int, chunk: Seq<u8>, width: int, color: bool) -> Seq<char> {
    offset_label(off, color) + hex_pane(chunk, chunk.len() as int, color)
        + pad(chunk.len() as int, width) + ascii_pane(chunk, chunk.len() as int, color)
        + code_bold() + seq![bar()] + code_reset(color)
}

/// Relies on `String::push`: it appends exactly the given character to the
/// string's characters.
#[verifier::external_body]
pub(crate) fn push_char(s: &mut String, c: char)
    ensures
        final(s)@ == old(s)@ + seq![c],
{
    s.push(c);
}

fn hex_digit_char(n: u8) -> (c: char)
    requires
        n < 16,
    ensures
        c == hex_digit(n as int),
{
    if n < 10 {
        (0x30 + n) as char
    } else {
        (0x57 + n) as char
    }
}

fn push_hex_pair(s: &mut String, b: u8)
    ensures
        final(s)@ == old(s)@ + hex_pair(b),
{
    let ghost base = s@;
    push_char(s, hex_digit_char(b / 16));
    push_char(s, hex_digit_char(b % 16));
    assert(s@ =~= base + hex_pair(b));
}

/// Appends the eight-digit hex offset label digits.
fn push_hex8(s: &mut String, off: usize)
    requires
        off <= 0xFFFF_FFFF,
    ensures
        final(s)@ == old(s)@ + hex8(off as int),
{
    let ghost base = s@;
    push_char(s, hex_digit_char(((off / 0x10000000) % 16) as u8));
    push_char(s, hex_digit_char(((off / 0x1000000) % 16) as u8));
    push_char(s, hex_digit_char(((off / 0x100000) % 16) as u8));
    push_char(s, hex_digit_char(((off / 0x10000) % 16) as u8));
    push_char(s, hex_digit_char(((off / 0x1000) % 16) as u8));
    push_char(s, hex_digit_char(((off / 0x100) % 16) as u8));
    push_char(s, hex_digit_char(((off / 0x10) % 16) as u8));
    push_char(s, hex_digit_char((off % 16) as u8));
    assert(s@ =~= base + hex8(off as int));
}

/// Appends the offset label of a printed line.
pub(crate) fn push_offset_label(s: &mut String, off: usize, color: bool)
    requires
        off <= 0xFFFF_FFFF,
    ensures
        final(s)@ == old(s)@ + offset_label(off as int, color),
{
    let ghost base = s@;
    s.append(reset_str(color));
    push_hex8(s, off);
    push_char(s, ' ');
    assert(s@ =~= base + offset_label(off as int, color));
}

/// Appends one byte's hex-pane cell.
fn push_hex_cell(s: &mut String, b: u8, color: bool)
    ensures
        final(s)@ == old(s)@ + hex_cell(b, color),
{
    let ghost base = s@;
    s.append(category_code_str(b, color));
    push_hex_pair(s, b);
    if b < 0x20 || b > 0x7e {
        s.append(reset_str(color));
    }
    push_char(s, ' ');
    assert(s@ =~= base + hex_cell(b, color));
}

/// Appends one byte's ASCII-pane cell.
fn push_ascii_cell(s: &mut String, b: u8, color: bool)
    ensures
        final(s)@ == old(s)@ + ascii_cell(b, color),
{
    let ghost base = s@;
    s.append(category_code_str(b, color));
    if b >= 0x20 && b <= 0x7e {
        push_char(s, b as char);
    } else {
        push_char(s, '.');
        s.append(reset_str(color));
    }
    assert(s@ =~= base + ascii_cell(b, color));
}

/// Builds the hex pane over `bytes[start..start + count]`.
pub(crate) fn build_hex_pane(bytes: &Vec<u8>, start: usize, count: usize, color: bool) -> (s:
    String)
    requires
        start + count <= bytes@.len(),
    ensures
        s@ == hex_pane(bytes@.subrange(start as int, (start + count) as int), count as int, color),
{
    let ghost chunk = bytes@.subrange(start as int, (start + count) as int);
    let len = bytes.len();
    let mut s = String::new();
    push_char(&mut s, ' ');
    assert(s@ =~= hex_pane(chunk, 0, color));
    let mut k: usize = 0;
    while k < count
        invariant
            k <= count,
            start + count <= len,
            len == bytes@.len(),
            chunk == bytes@.subrange(start as int, (start + count) as int),
            s@ == hex_pane(chunk, k as int, color),
        decreases count - k,
    {
        let ghost prev = s@;
        if k > 0 && k % 4 == 0 {
            push_char(&mut s, ' ');
        }
        assert(s@ =~= prev + group_gap(k as int));
        push_hex_cell(&mut s, bytes[start + k], color);
        assert(chunk[k as int] == bytes@[start + k]);
        assert(s@ =~= hex_pane(chunk, k as int + 1, color));
        k = k + 1;
    }
    s
}

/// Builds the ASCII pane over `bytes[start..start + count]`, without its
/// closing border.
pub(crate) fn build_ascii_pane(bytes: &Vec<u8>, start: usize, count: usize, color: bool) -> (s:
    String)
    requires
        start + count <= bytes@.len(),
    ensures
        s@ == ascii_pane(
            bytes@.subrange(start as int, (start + count) as int),
            count as int,
            color,
        ),
{
    let ghost chunk = bytes@.subrange(start as int, (start + count) as int);
    let len = bytes.len();
    let mut s = String::new();
    s.append(bold_str());
    push_char(&mut s, ' ');
    push_char(&mut s, '\u{2502}');
    s.append(reset_str(color));
    assert(s@ =~= ascii_pane(chunk, 0, color));
    let mut k: usize = 0;
    while k < count
        invariant
            k <= count,
            start + count <= len,
            len == bytes@.len(),
            chunk == bytes@.subrange(start as int, (start + count) as int),
            s@ == ascii_pane(chunk, k as int, color),
        decreases count - k,
    {
        let ghost prev = s@;
        if k > 0 && k % 4 == 0 {
            s.append(blue_str(color));
            push_char(&mut s, '\u{2502}');
            s.append(reset_str(color));
        }
        assert(s@ =~= prev + ascii_gap(k as int, color));
        push_ascii_cell(&mut s, bytes[start + k], color);
        assert(chunk[k as int] == bytes@[start + k]);
        assert(s@ =~= ascii_pane(chunk, k as int + 1, color));
        k = k + 1;
    }
    s
}

/// Builds the body of a full line over `bytes[start..start + width]`.
pub(crate) fn build_full_body(bytes: &Vec<u8>, start: usize, width: usize, color: bool) -> (s:
    String)
    requires
        start + width <= bytes@.len(),
    ensures
        s@ == full_body(bytes@.subrange(start as int, (start + width) as int), color),
{
    let ghost chunk = bytes@.subrange(start as int, (start + width) as int);
    let mut s = build_hex_pane(bytes, start, width, color);
    let a = build_ascii_pane(bytes, start, width, color);
    s.append(a.as_str());
    s.append(bold_str());
    push_char(&mut s, '\u{2502}');
    assert(s@ =~= full_body(chunk, color));
    s
}

/// Appends the blank padding that aligns a partial line from column `k0`
/// to `width`.
pub(crate) fn push_pad(s: &mut String, k0: usize, width: usize)
    requires
        k0 <= width,
    ensures
        final(s)@ == old(s)@ + pad(k0 as int, width as int),
{
    let ghost base = s@;
    let mut k: usize = k0;
    while k < width
        invariant
            k0 <= k <= width,
            s@ + pad(k as int, width as int) == base + pad(k0 as int, width as int),
        decreases width - k,
    {
        let ghost prev = s@;
        if k % 4 == 0 {
            push_char(s, ' ');
        }
        push_char(s, ' ');
        push_char(s, ' ');
        push_char(s, ' ');
        assert(s@ =~= prev + pad_slot(k as int));
        assert(s@ + pad(k as int + 1, width as int) =~= prev + pad(k as int, width as int));
        k = k + 1;
    }
    assert(s@ + pad(width as int, width as int) =~= s@);
}

} // verus!

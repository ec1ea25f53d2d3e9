//! Properties of the dump, stated and proved over the spec model.

use vstd::prelude::*;
use vstd::math::{max, min};
use vstd::arithmetic::div_mod::lemma_fundamental_div_mod;
use vstd::arithmetic::mul::lemma_mul_inequality;
use crate::dump::{collapse, line_chunk, line_offset, star_line, taken_bytes};
use crate::render::{ascii_cell, hex_pair};
use crate::style::{ascii_render_char, category_code, code_reset, is_printable};

verus! {

/// The two-digit hex groups of a line's chunk, one per byte.
pub open spec fn hex_groups(chunk: Seq<u8>) -> Seq<Seq<char>> {
    chunk.map_values(|b: u8| hex_pair(b))
}

/// The characters of a line's ASCII pane, one per byte, styling aside.
pub open spec fn ascii_chars(chunk: Seq<u8>) -> Seq<char> {
    chunk.map_values(|b: u8| ascii_render_char(b))
}

/// The number of bytes a dump renders is `len - skip` capped by the limit
/// when one is given, and never negative.
pub proof fn lemma_rendered_count(bytes: Seq<u8>, skip: int, limit: int)
    requires
        0 <= skip,
        0 <= limit,
    ensures
        taken_bytes(bytes, skip, limit).len() == max(
            0,
            min(bytes.len() - skip, if limit == 0 { bytes.len() - skip } else { limit }),
        ),
{
}

/// Every full line covers exactly `width` bytes, so its hex pane holds
/// exactly `width` two-digit groups and its ASCII pane exactly `width`
/// characters.
pub proof fn lemma_full_line_width(taken: Seq<u8>, width: int, j: int)
    requires
        width > 0,
        0 <= j < taken.len() as int / width,
    ensures
        line_chunk(taken, width, j).len() == width,
        hex_groups(line_chunk(taken, width, j)).len() == width,
        forall|k: int|
            0 <= k < width ==> (#[trigger] hex_groups(line_chunk(taken, width, j))[k]).len() == 2,
        ascii_chars(line_chunk(taken, width, j)).len() == width,
{
    lemma_fundamental_div_mod(taken.len() as int, width);
    lemma_mul_inequality(j + 1, taken.len() as int / width, width);
    assert(0 <= j * width && j * width + width == (j + 1) * width) by (nonlinear_arith)
        requires
            0 <= j,
            0 < width,
    ;
}

/// Offsets grow by exactly `width` from one full line to the next, and the
/// first line's offset is `skip`.
pub proof fn lemma_offsets_increase(skip: int, width: int, j: int)
    requires
        width > 0,
        0 <= j,
    ensures
        line_offset(skip, width, 0) == skip,
        line_offset(skip, width, j + 1) - line_offset(skip, width, j) == width,
        line_offset(skip, width, j + 1) > line_offset(skip, width, j),
{
    assert((j + 1) * width == j * width + width) by (nonlinear_arith);
}

/// A run of identical full-line bodies collapses: three equal bodies
/// followed by a different one print as the first body, one star line, and
/// the differing body.
pub proof fn lemma_collapse_run(a: Seq<char>, b: Seq<char>, labels: Seq<Seq<char>>)
    requires
        a != b,
        a.len() > 0,
        labels.len() == 4,
    ensures
        collapse(seq![a, a, a, b], labels, 0, Seq::<char>::empty(), false) == seq![
            labels[0] + a,
            star_line(),
            labels[3] + b,
        ],
{
    let bodies = seq![a, a, a, b];
    assert(bodies[0] == a && bodies[1] == a && bodies[2] == a && bodies[3] == b);
    assert(a != Seq::<char>::empty());
    assert(collapse(bodies, labels, 4, b, false) =~= Seq::<Seq<char>>::empty());
    assert(collapse(bodies, labels, 3, a, true) =~= seq![labels[3] + b] + collapse(
        bodies,
        labels,
        4,
        b,
        false,
    ));
    assert(collapse(bodies, labels, 2, a, true) =~= collapse(bodies, labels, 3, a, true));
    assert(collapse(bodies, labels, 1, a, false) =~= seq![star_line()] + collapse(
        bodies,
        labels,
        2,
        a,
        true,
    ));
    assert(collapse(bodies, labels, 0, Seq::<char>::empty(), false) =~= seq![labels[0] + a]
        + collapse(bodies, labels, 1, a, false));
    assert(collapse(bodies, labels, 0, Seq::<char>::empty(), false) =~= seq![
        labels[0] + a,
        star_line(),
        labels[3] + b,
    ]);
}

/// For an all-printable chunk the ASCII pane shows the input characters
/// themselves, in order, with no substitutions.
pub proof fn lemma_printable_ascii(chunk: Seq<u8>)
    requires
        forall|k: int| 0 <= k < chunk.len() ==> is_printable(#[trigger] chunk[k]),
    ensures
        ascii_chars(chunk) == chunk.map_values(|b: u8| b as char),
{
    assert(ascii_chars(chunk) =~= chunk.map_values(|b: u8| b as char));
}

/// The bytes `0x00`, `0x0a`, `0x0d` and `0xff` always show as a dot in the
/// ASCII pane: their cell is their category code, a dot, and a reset, for
/// either color setting.
pub proof fn lemma_special_bytes_render_dot()
    ensures
        ascii_render_char(0x00) == '.',
        ascii_render_char(0x0a) == '.',
        ascii_render_char(0x0d) == '.',
        ascii_render_char(0xff) == '.',
        forall|b: u8, color: bool|
            !is_printable(b) ==> #[trigger] ascii_cell(b, color) == category_code(b, color)
                + seq!['.'] + code_reset(color),
{
}

} // verus!

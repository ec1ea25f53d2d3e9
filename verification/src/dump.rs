//! The dump itself: selecting the bytes, laying them out in lines, and
//! collapsing runs of identical full lines.

use vstd::prelude::*;
use vstd::string::StringExecFns;
use vstd::arithmetic::div_mod::lemma_fundamental_div_mod;
use vstd::arithmetic::mul::lemma_mul_inequality;
use crate::Config;
use crate::render::{
    build_full_body, build_hex_pane, build_ascii_pane, full_body, offset_label, partial_line,
    push_char, push_offset_label, push_pad,
};
use crate::style::{bold_str, reset_str};

verus! {

/// How many bytes a dump renders: those past `skip`, at most `limit` of
/// them when `limit` is positive.
pub open spec fn take_count(len: int, skip: int, limit: int) -> int {
    if skip >= len {
        0
    } else if limit > 0 && limit < len - skip {
        limit
    } else {
        len - skip
    }
}

/// The bytes a dump renders.
pub open spec fn taken_bytes(bytes: Seq<u8>, skip: int, limit: int) -> Seq<u8> {
    if skip >= bytes.len() {
        Seq::<u8>::empty()
    } else {
        bytes.subrange(skip, skip + take_count(bytes.len() as int, skip, limit))
    }
}

/// The bytes of the `j`-th full line.
pub open spec fn line_chunk(taken: Seq<u8>, width: int, j: int) -> Seq<u8> {
    taken.subrange(j * width, (j + 1) * width)
}

/// The absolute offset of the first byte of the `j`-th line.
pub open spec fn line_offset(skip: int, width: int, j: int) -> int {
    skip + j * width
}

/// The bodies of all full lines, before collapsing.
pub open spec fn line_bodies(taken: Seq<u8>, width: int, color: bool) -> Seq<Seq<char>> {
    Seq::new((taken.len() as int / width) as nat, |j: int| full_body(line_chunk(taken, width, j), color))
}

/// The offset labels of all full lines.
pub open spec fn line_labels(skip: int, width: int, nfull: int, color: bool) -> Seq<Seq<char>> {
    Seq::new(nfull as nat, |j: int| offset_label(line_offset(skip, width, j), color))
}

/// The line that stands for a suppressed run of repeats.
pub open spec fn star_line() -> Seq<char> {
    seq!['*']
}

/// The printed lines for the full-line bodies from `j` on: a body unlike
/// the previous one is printed with its label; the first repeat of a body
/// prints a single star; further repeats print nothing.
pub open spec fn collapse(
    bodies: Seq<Seq<char>>,
    labels: Seq<Seq<char>>,
    j: int,
    prev: Seq<char>,
    matched: bool,
) -> Seq<Seq<char>>
    decreases bodies.len() - j,
{
    if j < 0 || j >= bodies.len() {
        Seq::<Seq<char>>::empty()
    } else if bodies[j] != prev {
        seq![labels[j] + bodies[j]] + collapse(bodies, labels, j + 1, bodies[j], false)
    } else if !matched {
        seq![star_line()] + collapse(bodies, labels, j + 1, bodies[j], true)
    } else {
        collapse(bodies, labels, j + 1, bodies[j], true)
    }
}

/// Every line of a dump: the collapsed full lines, the padded partial line
/// when the byte count does not divide evenly, and a closing blank line.
pub open spec fn dump_output(
    bytes: Seq<u8>,
    skip: int,
    limit: int,
    width: int,
    color: bool,
) -> Seq<Seq<char>> {
    let taken = taken_bytes(bytes, skip, limit);
    let nfull = taken.len() as int / width;
    let rem = taken.len() as int % width;
    let fulls = collapse(
        line_bodies(taken, width, color),
        line_labels(skip, width, nfull, color),
        0,
        Seq::<char>::empty(),
        false,
    );
    let tail = if rem > 0 {
        seq![
            partial_line(
                line_offset(skip, width, nfull),
                taken.subrange(nfull * width, taken.len() as int),
                width,
                color,
            ),
        ]
    } else {
        Seq::<Seq<char>>::empty()
    };
    fulls + tail + seq![Seq::<char>::empty()]
}

/// The characters of each line in a sequence of strings.
pub open spec fn views_of(v: Seq<String>) -> Seq<Seq<char>> {
    Seq::new(v.len(), |i: int| v[i]@)
}

proof fn lemma_views_of_push(v: Seq<String>, s: String)
    ensures
        views_of(v.push(s)) == views_of(v).push(s@),
{
    assert(views_of(v.push(s)) =~= views_of(v).push(s@));
}

/// The first `j` full lines fit inside the taken bytes.
proof fn lemma_chunk_bound(len: int, width: int, j: int)
    requires
        width > 0,
        0 <= j < len / width,
    ensures
        0 <= j * width,
        (j + 1) * width <= len,
        j * width + width == (j + 1) * width,
{
    lemma_fundamental_div_mod(len, width);
    lemma_mul_inequality(j + 1, len / width, width);
    assert(0 <= j * width) by (nonlinear_arith)
        requires
            0 <= j,
            0 < width,
    ;
    assert(j * width + width == (j + 1) * width) by (nonlinear_arith);
}

/// Copies the bytes the configuration selects out of the buffer.
fn select_bytes(bytes: &Vec<u8>, skip: usize, limit: usize) -> (taken: Vec<u8>)
    ensures
        taken@ == taken_bytes(bytes@, skip as int, limit as int),
{
    let len = bytes.len();
    let start = if skip < len {
        skip
    } else {
        len
    };
    let avail = len - start;
    let n = if limit > 0 && limit < avail {
        limit
    } else {
        avail
    };
    let mut taken: Vec<u8> = Vec::new();
    assert(taken@ =~= bytes@.subrange(start as int, start as int));
    let mut k: usize = 0;
    while k < n
        invariant
            k <= n,
            start + n <= len,
            len == bytes@.len(),
            taken@ == bytes@.subrange(start as int, (start + k) as int),
        decreases n - k,
    {
        taken.push(bytes[start + k]);
        assert(taken@ =~= bytes@.subrange(start as int, (start + k + 1) as int));
        k = k + 1;
    }
    assert(taken@ =~= taken_bytes(bytes@, skip as int, limit as int));
    taken
}

/// Renders the dump of `bytes` under `cfg` as the sequence of output lines.
///
/// The result is exactly `dump_output`: the collapsed full lines, each an
/// offset label followed by a hex pane and an ASCII pane, then the padded
/// partial line if one remains, then a blank terminator line.
#[verifier::rlimit(100)]
pub fn hexdump(bytes: &Vec<u8>, cfg: &Config) -> (lines: Vec<String>)
    requires
        cfg.width >= 1,
        bytes@.len() <= 0xFFFF_FFFF,
    ensures
        views_of(lines@) == dump_output(
            bytes@,
            cfg.skip as int,
            cfg.limit as int,
            cfg.width as int,
            cfg.color,
        ),
{
    let width = cfg.width;
    let color = cfg.color;
    let taken = select_bytes(bytes, cfg.skip, cfg.limit);
    let tlen = taken.len();
    let nfull = tlen / width;
    let rem = tlen % width;
    proof {
        lemma_fundamental_div_mod(tlen as int, width as int);
    }
    let ghost bodies = line_bodies(taken@, width as int, color);
    let ghost labels = line_labels(cfg.skip as int, width as int, nfull as int, color);
    let ghost goal = collapse(bodies, labels, 0, Seq::<char>::empty(), false);

    let mut lines: Vec<String> = Vec::new();
    let mut prev: String = String::new();
    let mut matched: bool = false;
    let mut j: usize = 0;
    while j < nfull
        invariant
            j <= nfull,
            width >= 1,
            tlen > 0 ==> cfg.skip as int + tlen as int <= 0xFFFF_FFFF,
            tlen == taken@.len(),
            nfull == tlen as int / width as int,
            bodies == line_bodies(taken@, width as int, color),
            labels == line_labels(cfg.skip as int, width as int, nfull as int, color),
            goal == collapse(bodies, labels, 0, Seq::<char>::empty(), false),
            views_of(lines@) + collapse(bodies, labels, j as int, prev@, matched) == goal,
        decreases nfull - j,
    {
        proof {
            lemma_chunk_bound(tlen as int, width as int, j as int);
        }
        let start = j * width;
        let body = build_full_body(&taken, start, width, color);
        assert(body@ == bodies[j as int]);
        if body != prev {
            let off = cfg.skip + start;
            let mut line = String::new();
            push_offset_label(&mut line, off, color);
            line.append(body.as_str());
            assert(line@ =~= labels[j as int] + bodies[j as int]);
            proof {
                lemma_views_of_push(lines@, line);
            }
            lines.push(line);
            matched = false;
            assert(views_of(lines@) + collapse(bodies, labels, j as int + 1, body@, false)
                =~= goal);
        } else if !matched {
            let mut star = String::new();
            push_char(&mut star, '*');
            assert(star@ =~= star_line());
            proof {
                lemma_views_of_push(lines@, star);
            }
            lines.push(star);
            matched = true;
            assert(views_of(lines@) + collapse(bodies, labels, j as int + 1, body@, true)
                =~= goal);
        } else {
            matched = true;
            assert(views_of(lines@) + collapse(bodies, labels, j as int + 1, body@, true)
                =~= goal);
        }
        prev = body;
        j = j + 1;
    }
    assert(collapse(bodies, labels, nfull as int, prev@, matched)
        =~= Seq::<Seq<char>>::empty());
    assert(views_of(lines@) =~= goal);

    if rem > 0 {
        proof {
            lemma_fundamental_div_mod(tlen as int, width as int);
        }
        let start = nfull * width;
        assert(start + rem == tlen);
        let off = cfg.skip + start;
        let mut line = String::new();
        push_offset_label(&mut line, off, color);
        let hex = build_hex_pane(&taken, start, rem, color);
        line.append(hex.as_str());
        push_pad(&mut line, rem, width);
        let asc = build_ascii_pane(&taken, start, rem, color);
        line.append(asc.as_str());
        line.append(bold_str());
        push_char(&mut line, '\u{2502}');
        line.append(reset_str(color));
        assert(line@ =~= partial_line(
            line_offset(cfg.skip as int, width as int, nfull as int),
            taken@.subrange(start as int, tlen as int),
            width as int,
            color,
        ));
        proof {
            lemma_views_of_push(lines@, line);
        }
        lines.push(line);
    }
    let blank = String::new();
    proof {
        lemma_views_of_push(lines@, blank);
    }
    lines.push(blank);
    assert(views_of(lines@) =~= dump_output(
        bytes@,
        cfg.skip as int,
        cfg.limit as int,
        cfg.width as int,
        cfg.color,
    ));
    lines
}

/// Renders a dump after checking the configuration: a zero column width,
/// or a buffer too large for eight-digit offsets, is reported as `None`
/// rather than rendered.
pub fn hexdump_checked(bytes: &Vec<u8>, cfg: &Config) -> (r: Option<Vec<String>>)
    ensures
        r is Some <==> (cfg.width >= 1 && bytes@.len() <= 0xFFFF_FFFF),
        r is Some ==> views_of(r.unwrap()@) == dump_output(
            bytes@,
            cfg.skip as int,
            cfg.limit as int,
            cfg.width as int,
            cfg.color,
        ),
{
    if cfg.width >= 1 && bytes.len() <= 0xFFFF_FFFF {
        Some(hexdump(bytes, cfg))
    } else {
        None
    }
}

} // verus!

//! A hex/ASCII dump formatter.
//!
//! The library turns a byte buffer and a small configuration (skip offset,
//! byte limit, column width, color switch) into the sequence of text lines
//! that a terminal hex viewer prints: an eight-digit offset label, a hex pane
//! with a visual bar every four columns, an ASCII pane bounded by bars, ANSI
//! color codes per byte category, run-length collapsing of repeated lines,
//! and a padded final partial line.

pub mod dump;
pub mod laws;
pub mod render;
pub mod style;

use vstd::prelude::*;

verus! {

/// Options governing a dump: how many leading bytes to skip, how many bytes
/// at most to render (`0` meaning all), how many byte columns per line, and
/// whether category color codes are emitted.
#[derive(Clone, Copy)]
pub struct Config {
    pub skip: usize,
    pub limit: usize,
    pub width: usize,
    pub color: bool,
}

} // verus!

//! A line-wrapping engine for LaTeX-family sources.
//!
//! The library decides whether a line should be reflowed (`needs_wrap`),
//! finds the character index at which to split it (`find_wrap_point`),
//! and performs the split while preserving comment semantics
//! (`apply_wrap`). All positions are character counts, never byte
//! offsets. Diagnostics are appended to a caller-owned log.

use vstd::prelude::*;

pub mod cli;
pub mod comments;
pub mod logging;
pub mod wrap;

verus! {

/// The settings that the wrap engine reads: one logical surface over
/// the per-run configuration.
#[derive(Clone, Copy, Debug)]
pub struct Config {
    /// Keep lines as they are; disables all wrapping.
    pub keep: bool,
    /// Maximum visual line width, in characters.
    pub wrap: u8,
    /// Earliest acceptable column for a wrap point; at most `wrap`.
    pub wrap_min: u8,
    /// Emit verbose diagnostics.
    pub trace: bool,
}

/// Per-line parse context, supplied by the document-scanning driver.
#[derive(Clone, Copy, Debug)]
pub struct State {
    /// The line falls inside a verbatim region, where reflow is unsafe.
    pub verbatim: bool,
    /// The line falls inside a region excluded from all reformatting.
    pub ignore: bool,
    /// Line number in the source document; diagnostics only.
    pub linum_old: usize,
    /// Line number in the document being produced; diagnostics only.
    pub linum_new: usize,
}

} // verus!

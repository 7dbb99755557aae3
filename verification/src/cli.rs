//! Per-run settings and their consistency rules.
//!
//! The caller fills a `Cli` from the command line, then calls `resolve`
//! once to derive the dependent fields and validate the combination of
//! flags. Everything afterwards only reads the settings.

use vstd::prelude::*;

use crate::logging::{file_log_view, record_file_log, Level, LevelFilter, Log};

verus! {

/// Per-run settings, immutable once resolved.
#[derive(Clone, Debug)]
pub struct Cli {
    /// Check formatting, do not modify files.
    pub check: bool,
    /// Print to standard output, do not modify files.
    pub print: bool,
    /// Keep lines, do not wrap.
    pub keep: bool,
    /// Show info log messages.
    pub verbose: bool,
    /// Hide warning messages.
    pub quiet: bool,
    /// Show trace log messages.
    pub trace: bool,
    /// List of files to be formatted.
    pub files: Vec<String>,
    /// Process standard input as a single file.
    pub stdin: bool,
    /// Number of spaces to use as tab size.
    pub tab: i8,
    /// Use tabs instead of spaces for indentation.
    pub usetabs: bool,
    /// Line length for wrapping.
    pub wrap: u8,
    /// Minimum acceptable line length when wrapping; derived by `resolve`.
    pub wrap_min: u8,
}

/// Whether `resolve` reports that no input was named.
pub open spec fn missing_input(stdin: bool, files: Seq<String>) -> bool {
    !stdin && files.len() == 0
}

/// Whether `resolve` reports that file names conflict with `--stdin`.
pub open spec fn conflicting_input(stdin: bool, files: Seq<String>) -> bool {
    stdin && files.len() > 0
}

impl Cli {
    /// The least severity to report, from the verbosity flags; `trace`
    /// wins over `verbose`, `verbose` over `quiet`.
    pub fn log_level(&self) -> (r: LevelFilter)
        ensures
            r == (if self.trace {
                LevelFilter::Trace
            } else if self.verbose {
                LevelFilter::Info
            } else if self.quiet {
                LevelFilter::Error
            } else {
                LevelFilter::Warn
            }),
    {
        if self.trace {
            LevelFilter::Trace
        } else if self.verbose {
            LevelFilter::Info
        } else if self.quiet {
            LevelFilter::Error
        } else {
            LevelFilter::Warn
        }
    }

    /// Derive the dependent settings and check that the arguments are
    /// consistent. Exactly one error record is appended, and 1 returned,
    /// when no input was named or when file names conflict with
    /// `--stdin`; otherwise the log is untouched and 0 returned.
    pub fn resolve(&mut self, logs: &mut Vec<Log>) -> (exit_code: u8)
        ensures
            final(self).check == old(self).check,
            final(self).keep == old(self).keep,
            final(self).quiet == old(self).quiet,
            final(self).trace == old(self).trace,
            final(self).files == old(self).files,
            final(self).stdin == old(self).stdin,
            final(self).tab == old(self).tab,
            final(self).usetabs == old(self).usetabs,
            final(self).wrap == old(self).wrap,
            final(self).verbose == (old(self).verbose || old(self).trace),
            final(self).print == (old(self).print || old(self).stdin),
            final(self).wrap_min == (if old(self).wrap >= 50 {
                (old(self).wrap - 10) as u8
            } else {
                old(self).wrap
            }),
            exit_code == (if missing_input(old(self).stdin, old(self).files@)
                || conflicting_input(old(self).stdin, old(self).files@) {
                1u8
            } else {
                0u8
            }),
            final(logs)@.len() == old(logs)@.len() + (if missing_input(
                old(self).stdin,
                old(self).files@,
            ) || conflicting_input(old(self).stdin, old(self).files@) {
                1int
            } else {
                0int
            }),
            final(logs)@.subrange(0, old(logs)@.len() as int) == old(logs)@,
            missing_input(old(self).stdin, old(self).files@) ==> final(logs)@.last()@
                == file_log_view(
                Level::Error,
                ""@,
                "No files specified. Either provide filenames or provide --stdin."@,
            ),
            conflicting_input(old(self).stdin, old(self).files@) ==> final(logs)@.last()@
                == file_log_view(
                Level::Error,
                ""@,
                "Do not provide file name(s) when using --stdin."@,
            ),
    {
        let mut exit_code: u8 = 0;
        self.verbose = self.verbose || self.trace;
        self.print = self.print || self.stdin;
        self.wrap_min = if self.wrap >= 50 {
            self.wrap - 10
        } else {
            self.wrap
        };

        if !self.stdin && self.files.len() == 0 {
            record_file_log(
                logs,
                Level::Error,
                "",
                "No files specified. Either provide filenames or provide --stdin.",
            );
            exit_code = 1;
        }
        if self.stdin && self.files.len() > 0 {
            record_file_log(
                logs,
                Level::Error,
                "",
                "Do not provide file name(s) when using --stdin.",
            );
            exit_code = 1;
        }
        exit_code
    }

    /// A settings value with every flag off and the default widths.
    pub fn new() -> (r: Self)
        ensures
            r.check == false,
            r.print == false,
            r.keep == false,
            r.verbose == false,
            r.stdin == false,
            r.quiet == false,
            r.trace == false,
            r.files@.len() == 0,
            r.tab == 2i8,
            r.usetabs == false,
            r.wrap == 80u8,
            r.wrap_min == 70u8,
    {
        Self {
            check: false,
            print: false,
            keep: false,
            verbose: false,
            stdin: false,
            quiet: false,
            trace: false,
            files: Vec::<String>::new(),
            tab: 2,
            usetabs: false,
            wrap: 80,
            wrap_min: 70,
        }
    }
}

} // verus!

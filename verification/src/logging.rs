//! Diagnostic records and the append-only log.
//!
//! A run owns one `Vec<Log>`; the wrap engine and the argument resolver
//! only ever append to it. A record is either line-scoped (it carries
//! both line numbers and the offending line) or file-scoped (it carries
//! neither).

use vstd::prelude::*;

verus! {

/// Severity of a single diagnostic record.
#[derive(Clone, Copy, Debug, PartialEq, Eq, Structural)]
pub enum Level {
    Error,
    Warn,
    Info,
    Debug,
    Trace,
}

/// The least severity that a run reports, chosen from the flags.
#[derive(Clone, Copy, Debug, PartialEq, Eq, Structural)]
pub enum LevelFilter {
    Off,
    Error,
    Warn,
    Info,
    Debug,
    Trace,
}

/// One diagnostic record. Line numbers and the line text are present
/// exactly on line-scoped records.
#[derive(Clone, Debug)]
pub struct Log {
    pub level: Level,
    pub file: String,
    pub linum_new: Option<usize>,
    pub linum_old: Option<usize>,
    pub line: Option<String>,
    pub message: String,
}

/// The mathematical value of a `Log`: the same fields with every string
/// replaced by its character sequence.
pub ghost struct LogView {
    pub level: Level,
    pub file: Seq<char>,
    pub linum_new: Option<usize>,
    pub linum_old: Option<usize>,
    pub line: Option<Seq<char>>,
    pub message: Seq<char>,
}

impl View for Log {
    type V = LogView;

    open spec fn view(&self) -> LogView {
        LogView {
            level: self.level,
            file: self.file@,
            linum_new: self.linum_new,
            linum_old: self.linum_old,
            line: match self.line {
                Option::Some(l) => Option::Some(l@),
                Option::None => Option::None,
            },
            message: self.message@,
        }
    }
}

/// The record that `record_line_log` appends.
pub open spec fn line_log_view(
    level: Level,
    file: Seq<char>,
    linum_new: usize,
    linum_old: usize,
    line: Seq<char>,
    message: Seq<char>,
) -> LogView {
    LogView {
        level: level,
        file: file,
        linum_new: Option::Some(linum_new),
        linum_old: Option::Some(linum_old),
        line: Option::Some(line),
        message: message,
    }
}

/// The record that `record_file_log` appends.
pub open spec fn file_log_view(level: Level, file: Seq<char>, message: Seq<char>) -> LogView {
    LogView {
        level: level,
        file: file,
        linum_new: Option::None,
        linum_old: Option::None,
        line: Option::None,
        message: message,
    }
}

/// Append one line-scoped record; everything already logged is kept.
pub fn record_line_log(
    logs: &mut Vec<Log>,
    level: Level,
    file: &str,
    linum_new: usize,
    linum_old: usize,
    line: &str,
    message: &str,
)
    ensures
        final(logs)@.len() == old(logs)@.len() + 1,
        final(logs)@.subrange(0, old(logs)@.len() as int) == old(logs)@,
        final(logs)@.last()@ == line_log_view(
            level,
            file@,
            linum_new,
            linum_old,
            line@,
            message@,
        ),
{
    let record = Log {
        level,
        file: file.to_owned(),
        linum_new: Some(linum_new),
        linum_old: Some(linum_old),
        line: Some(line.to_owned()),
        message: message.to_owned(),
    };
    logs.push(record);
    proof {
        assert(logs@.subrange(0, logs@.len() - 1) =~= old(logs)@);
    }
}

/// Append one file-scoped record; everything already logged is kept.
pub fn record_file_log(logs: &mut Vec<Log>, level: Level, file: &str, message: &str)
    ensures
        final(logs)@.len() == old(logs)@.len() + 1,
        final(logs)@.subrange(0, old(logs)@.len() as int) == old(logs)@,
        final(logs)@.last()@ == file_log_view(level, file@, message@),
{
    let record = Log {
        level,
        file: file.to_owned(),
        linum_new: None,
        linum_old: None,
        line: None,
        message: message.to_owned(),
    };
    logs.push(record);
    proof {
        assert(logs@.subrange(0, logs@.len() - 1) =~= old(logs)@);
    }
}

} // verus!

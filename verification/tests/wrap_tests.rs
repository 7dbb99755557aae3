use texwrap::logging::{Level, Log};
use texwrap::wrap::{apply_wrap, find_wrap_point, needs_wrap};
use texwrap::{Config, State};

fn config(keep: bool, wrap: u8, wrap_min: u8, trace: bool) -> Config {
    Config { keep, wrap, wrap_min, trace }
}

fn state() -> State {
    State { verbatim: false, ignore: false, linum_old: 7, linum_new: 9 }
}

fn long_line(len: usize) -> String {
    let mut s = String::new();
    while s.chars().count() < len {
        let missing = len - s.chars().count();
        if missing >= 10 {
            s.push_str("abcdefghi ");
        } else {
            for _ in 0..missing {
                s.push('a');
            }
        }
    }
    s
}

#[test]
fn needs_wrap_false_under_keep() {
    let line = long_line(200);
    let args = config(true, 80, 70, false);
    assert!(!needs_wrap(&line, &state(), &args));
}

#[test]
fn needs_wrap_false_in_regions() {
    let line = long_line(200);
    let args = config(false, 80, 70, false);
    let verbatim = State { verbatim: true, ..state() };
    let ignored = State { ignore: true, ..state() };
    assert!(!needs_wrap(&line, &verbatim, &args));
    assert!(!needs_wrap(&line, &ignored, &args));
}

#[test]
fn needs_wrap_exact_threshold() {
    let args = config(false, 80, 70, false);
    assert!(!needs_wrap(&long_line(79), &state(), &args));
    assert!(!needs_wrap(&long_line(80), &state(), &args));
    assert!(needs_wrap(&long_line(81), &state(), &args));
    assert!(!needs_wrap("", &state(), &args));
}

#[test]
fn needs_wrap_counts_characters_not_bytes() {
    // four characters, twelve bytes
    let line = "\u{e9}\u{e9}\u{e9}\u{e9}";
    assert_eq!(line.len(), 8);
    let args = config(false, 3, 3, false);
    assert!(needs_wrap(line, &state(), &args));
    let wider = config(false, 4, 4, false);
    assert!(!needs_wrap(line, &state(), &wider));
}

#[test]
fn wrap_point_never_on_escaped_space() {
    // an escaped space after "a": skipped; the next unescaped space chosen
    let line = "a\\ b and more text past the limit of the configured width";
    let args = config(false, 80, 0, false);
    let p = find_wrap_point(&line, &args).unwrap();
    assert_eq!(p, 4);
    let chars: Vec<char> = line.chars().collect();
    assert_eq!(chars[p], ' ');
    assert_ne!(chars[p - 1], '\\');
}

#[test]
fn wrap_point_skips_escaped_space_past_minimum() {
    // 71 letters, then an escaped space, then the first unescaped space at 74
    let mut line = "x".repeat(71);
    line.push_str("\\ b and more text to pass the configured width easily");
    let args = config(false, 80, 70, false);
    assert_eq!(find_wrap_point(&line, &args), Some(74));
}

#[test]
fn wrap_point_none_for_single_token() {
    let line = "y".repeat(100);
    let args = config(false, 80, 70, false);
    assert_eq!(find_wrap_point(&line, &args), None);
}

#[test]
fn wrap_point_none_for_empty_line() {
    let args = config(false, 80, 70, false);
    assert_eq!(find_wrap_point("", &args), None);
}

#[test]
fn wrap_point_needs_content_before_space() {
    // spaces with no content character before them enable no break
    assert_eq!(find_wrap_point("   ", &config(false, 80, 0, false)), None);
    // a bare comment marker at line start is not content either
    assert_eq!(find_wrap_point("% ", &config(false, 80, 0, false)), None);
    // but after content, a space qualifies
    assert_eq!(find_wrap_point("%a b", &config(false, 80, 0, false)), Some(2));
}

#[test]
fn wrap_point_prefers_last_candidate_below_minimum() {
    // spaces at 9, 19, ..., 99: the scan stops at column 70 holding 69
    let line = long_line(105);
    let args = config(false, 80, 70, false);
    assert_eq!(find_wrap_point(&line, &args), Some(69));
}

#[test]
fn scenario_a_first_space_at_or_after_minimum() {
    // a 75-character word, then plain words up to 105 characters:
    // the first qualifying space at or after column 70 is at 75
    let mut line = "w".repeat(75);
    line.push_str(" pq rs tuv wxyz abcd efgh ijkl");
    assert_eq!(line.chars().count(), 105);
    let args = config(false, 80, 70, false);
    let mut logs: Vec<Log> = Vec::new();
    assert!(needs_wrap(&line, &state(), &args));
    assert_eq!(find_wrap_point(&line, &args), Some(75));
    let (head, tail) = apply_wrap(&line, &state(), "a.tex", &args, &mut logs).unwrap();
    assert_eq!(head, "w".repeat(75));
    assert_eq!(tail, " pq rs tuv wxyz abcd efgh ijkl");
    assert!(!tail.starts_with('%'));
    // the point is within the width: nothing logged
    assert_eq!(logs.len(), 0);
}

#[test]
fn scenario_b_unbreakable_line_warns() {
    let mut line = String::from("%");
    line.push_str(&"z".repeat(100));
    let args = config(false, 80, 70, false);
    assert_eq!(find_wrap_point(&line, &args), None);
    let mut logs: Vec<Log> = Vec::new();
    let r = apply_wrap(&line, &state(), "b.tex", &args, &mut logs);
    assert!(r.is_none());
    assert_eq!(logs.len(), 1);
    assert_eq!(logs[0].level, Level::Warn);
    assert_eq!(logs[0].message, "Line cannot be wrapped.");
    assert_eq!(logs[0].file, "b.tex");
    assert_eq!(logs[0].linum_new, Some(9));
    assert_eq!(logs[0].linum_old, Some(7));
    assert_eq!(logs[0].line.as_deref(), Some(line.as_str()));
}

#[test]
fn scenario_d_break_inside_comment_prefixes_tail() {
    // marker at index 10, wrap point at index 40
    let mut line = "a".repeat(10);
    line.push('%');
    line.push_str(&"b".repeat(29));
    line.push(' ');
    line.push_str("tail of the comment");
    let args = config(false, 80, 0, false);
    assert_eq!(find_wrap_point(&line, &args), Some(40));
    let mut logs: Vec<Log> = Vec::new();
    let (head, tail) = apply_wrap(&line, &state(), "d.tex", &args, &mut logs).unwrap();
    assert!(tail.starts_with('%'));
    let mut rejoined = head.clone();
    rejoined.push_str(&tail[1..]);
    assert_eq!(rejoined, line);
}

#[test]
fn scenario_d_break_before_comment_adds_no_marker() {
    // marker at index 10, wrap point at index 5
    let line = "abcde fghi% a trailing comment";
    let args = config(false, 80, 0, false);
    assert_eq!(find_wrap_point(line, &args), Some(5));
    let mut logs: Vec<Log> = Vec::new();
    let (head, tail) = apply_wrap(line, &state(), "d.tex", &args, &mut logs).unwrap();
    assert_eq!(head, "abcde");
    assert_eq!(tail, " fghi% a trailing comment");
    assert!(!tail.starts_with('%'));
    let rejoined = format!("{head}{tail}");
    assert_eq!(rejoined, line);
}

#[test]
fn round_trip_without_comment() {
    let line = long_line(105);
    let args = config(false, 80, 70, false);
    let mut logs: Vec<Log> = Vec::new();
    let (head, tail) = apply_wrap(&line, &state(), "r.tex", &args, &mut logs).unwrap();
    let rejoined = format!("{head}{tail}");
    assert_eq!(rejoined, line);
}

#[test]
fn trace_logs_wrapping_record() {
    let line = long_line(105);
    let args = config(false, 80, 70, true);
    let mut logs: Vec<Log> = Vec::new();
    let r = apply_wrap(&line, &state(), "t.tex", &args, &mut logs);
    assert!(r.is_some());
    assert_eq!(logs.len(), 1);
    assert_eq!(logs[0].level, Level::Trace);
    assert_eq!(logs[0].message, "Wrapping long line.");
    assert_eq!(logs[0].file, "t.tex");
}

#[test]
fn point_past_width_warns_but_still_splits() {
    // a 90-character word, then a space: the only break is past wrap=80
    let mut line = "q".repeat(90);
    line.push_str(" end of the line");
    let args = config(false, 80, 70, false);
    assert_eq!(find_wrap_point(&line, &args), Some(90));
    let mut logs: Vec<Log> = Vec::new();
    let r = apply_wrap(&line, &state(), "w.tex", &args, &mut logs);
    let (head, tail) = r.unwrap();
    assert_eq!(head, "q".repeat(90));
    assert_eq!(tail, " end of the line");
    assert_eq!(logs.len(), 1);
    assert_eq!(logs[0].level, Level::Warn);
    assert_eq!(logs[0].message, "Line cannot be wrapped.");
}

#[test]
fn existing_log_entries_are_kept() {
    let line = long_line(105);
    let args = config(false, 80, 70, true);
    let mut logs: Vec<Log> = Vec::new();
    apply_wrap(&line, &state(), "first.tex", &args, &mut logs);
    assert_eq!(logs.len(), 1);
    apply_wrap(&line, &state(), "second.tex", &args, &mut logs);
    assert_eq!(logs.len(), 2);
    assert_eq!(logs[0].file, "first.tex");
    assert_eq!(logs[1].file, "second.tex");
}

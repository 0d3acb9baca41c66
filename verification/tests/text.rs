use fish_reader::script::{after_read, reads_interactively, refuses_directory, swallow_mark, ReadOutcome, ReadStep};
use fish_reader::text::{
    concat_strings, count_preceding_backslashes, is_backslashed, join_strings, line_at_cursor,
    range_of_line_at_cursor, replace_line_at_cursor, unescaped_quote, wide, WString,
};

fn w(s: &str) -> WString {
    s.chars().collect()
}

#[test]
fn wide_keeps_characters() {
    assert_eq!(wide("aé✓"), vec!['a', 'é', '✓']);
    assert_eq!(wide(""), w(""));
}

#[test]
fn lines_around_the_cursor() {
    let text = w("one\ntwo\nthree");
    assert_eq!(range_of_line_at_cursor(&text, 0), 0..3);
    assert_eq!(range_of_line_at_cursor(&text, 3), 0..3);
    assert_eq!(range_of_line_at_cursor(&text, 4), 4..7);
    assert_eq!(range_of_line_at_cursor(&text, 13), 8..13);
    assert_eq!(line_at_cursor(&text, 5), w("two"));
    assert_eq!(line_at_cursor(&w(""), 0), w(""));
}

#[test]
fn replaces_only_the_line_at_the_cursor() {
    let mut pos = 5;
    assert_eq!(replace_line_at_cursor(&w("one\ntwo\nthree"), &mut pos, &w("2!")), w("one\n2!\nthree"));
    assert_eq!(pos, 6);
    let mut pos = 0;
    assert_eq!(replace_line_at_cursor(&w("abc"), &mut pos, &w("")), w(""));
    assert_eq!(pos, 0);
}

#[test]
fn backslashes() {
    assert_eq!(count_preceding_backslashes(&w("a\\\\b"), 3), 2);
    assert!(is_backslashed(&w("a\\ b"), 2));
    assert!(!is_backslashed(&w("a\\\\ b"), 3));
    assert!(is_backslashed(&w("foo\\"), 4));
    assert!(!is_backslashed(&w("foo"), 9));
}

#[test]
fn quotes_that_count() {
    assert_eq!(unescaped_quote(&w("'a'"), 0), Some('\''));
    assert_eq!(unescaped_quote(&w("\\'"), 1), None);
    assert_eq!(unescaped_quote(&w("\""), 0), Some('"'));
    assert_eq!(unescaped_quote(&w("x"), 0), None);
    assert_eq!(unescaped_quote(&w("x"), 1), None);
}

#[test]
fn joining_strings() {
    let parts = vec![w("a"), w(""), w("bc")];
    assert_eq!(concat_strings(&parts), w("abc"));
    assert_eq!(join_strings(&parts, '\n'), w("a\n\nbc"));
    assert_eq!(join_strings(&vec![], '\n'), w(""));
    assert_eq!(join_strings(&vec![w("x")], '\n'), w("x"));
}

#[test]
fn byte_order_mark_is_swallowed_once() {
    assert_eq!(swallow_mark(w("\u{feff}echo")), w("echo"));
    assert_eq!(swallow_mark(w("\u{feff}\u{feff}")), w("\u{feff}"));
    assert_eq!(swallow_mark(w("echo")), w("echo"));
    assert_eq!(swallow_mark(w("")), w(""));
}

#[test]
fn reading_scripts() {
    assert!(reads_interactively(0, true));
    assert!(!reads_interactively(0, false));
    assert!(!reads_interactively(3, true));
    assert!(refuses_directory(3, true));
    assert!(!refuses_directory(0, true));
    assert!(!refuses_directory(3, false));
    assert_eq!(after_read(ReadOutcome::EndOfFile), ReadStep::Done);
    assert_eq!(after_read(ReadOutcome::Data), ReadStep::More);
    assert_eq!(after_read(ReadOutcome::Interrupted), ReadStep::More);
    assert_eq!(after_read(ReadOutcome::WouldBlock { made_blocking: true }), ReadStep::More);
    assert_eq!(after_read(ReadOutcome::WouldBlock { made_blocking: false }), ReadStep::Abort);
    assert_eq!(after_read(ReadOutcome::Failed), ReadStep::Abort);
}

use fish_reader::action::Action;
use fish_reader::cursor::{AutosuggestionPortion, LexedToken, TokenExtent};
use fish_reader::data::{
    EditableLineTag, JumpDirection, JumpPrecision, ReaderConfig, ReaderData, ReadlineLoopState,
};
use fish_reader::motion::MoveWordDir;
use fish_reader::suggestion::Autosuggestion;
use fish_reader::text::WString;

const CMD: EditableLineTag = EditableLineTag::Commandline;

fn w(s: &str) -> WString {
    s.chars().collect()
}

fn reader(text: &str, pos: usize) -> ReaderData {
    let mut d = ReaderData::new(w("fish"), ReaderConfig::default(), Some((w(text), pos)), 0);
    d.rls = Some(ReadlineLoopState::new());
    d
}

fn suggest(d: &mut ReaderData, s: &str, icase: bool) {
    let n = d.command_line.text.len();
    d.autosuggestion = Autosuggestion {
        text: w(s),
        search_string_range: 0..n,
        icase,
        is_whole_item_from_history: false,
    };
}

fn text(d: &ReaderData) -> String {
    d.command_line.text.iter().collect()
}

fn status(d: &ReaderData) -> Option<bool> {
    match d.actions.last() {
        Some(Action::FunctionStatus(ok)) => Some(*ok),
        _ => None,
    }
}

#[test]
fn to_the_ends_of_the_line() {
    let mut d = reader("ab\ncd\nef", 4);
    d.beginning_of_line();
    assert_eq!(d.command_line.position, 3);
    d.beginning_of_line();
    assert_eq!(d.command_line.position, 3);
    d.end_of_line();
    assert_eq!(d.command_line.position, 5);
    d.end_of_line();
    assert_eq!(d.command_line.position, 5);
}

#[test]
fn the_end_of_the_line_accepts_a_suggestion() {
    let mut d = reader("ec", 2);
    suggest(&mut d, "echo hi", false);
    d.end_of_line();
    assert_eq!(text(&d), "echo hi");
    assert!(d.autosuggestion.text.is_empty());
    assert_eq!(d.command_line.position, 7);
}

#[test]
fn suggestions_are_accepted_in_parts() {
    let mut d = reader("ec", 2);
    suggest(&mut d, "echo hi", false);
    d.forward_char(AutosuggestionPortion::Count(1));
    assert_eq!(text(&d), "ech");
    assert_eq!(d.autosuggestion.text, w("echo hi"));
    d.accept_autosuggestion(AutosuggestionPortion::Word, &[true, false, false, false]);
    assert_eq!(text(&d), "echo");
    d.accept_autosuggestion(AutosuggestionPortion::Count(99), &[]);
    assert_eq!(text(&d), "echo hi");
    assert!(d.autosuggestion.text.is_empty());
}

#[test]
fn accepting_all_takes_over_the_case() {
    let mut d = reader("EC", 2);
    suggest(&mut d, "echo", true);
    d.forward_char(AutosuggestionPortion::All);
    assert_eq!(text(&d), "echo");
}

#[test]
fn typing_into_a_suggestion_keeps_it() {
    let mut d = reader("ec", 2);
    suggest(&mut d, "echo", false);
    d.insert_char(CMD, 'h');
    assert_eq!(d.autosuggestion.text, w("echo"));
    assert_eq!(d.autosuggestion.search_string_range, 0..3);
    d.insert_char(CMD, 'x');
    assert!(d.autosuggestion.text.is_empty());
    assert_eq!(d.saved_autosuggestion.as_ref().unwrap().text, w("echo"));
    d.conf.autosuggest_ok = true;
    d.erase_substring(CMD, 3..4);
    assert_eq!(d.autosuggestion.text, w("echo"));
    assert!(d.saved_autosuggestion.is_none());
}

#[test]
fn single_steps() {
    let mut d = reader("ab", 1);
    d.backward_char();
    assert_eq!(d.command_line.position, 0);
    d.backward_char();
    assert_eq!(d.command_line.position, 0);
    d.forward_char(AutosuggestionPortion::All);
    d.forward_char(AutosuggestionPortion::All);
    d.forward_char(AutosuggestionPortion::All);
    assert_eq!(d.command_line.position, 2);
    d.backward_char_passive();
    assert_eq!(d.command_line.position, 1);
    d.forward_char_passive();
    assert_eq!(d.command_line.position, 2);
}

#[test]
fn words() {
    let mut d = reader("foo bar", 7);
    d.backward_word(&[true, true, true, false, false, false, false]);
    assert_eq!(d.command_line.position, 4);
    d.forward_word(&[true, true, true]);
    assert_eq!(d.command_line.position, 7);
    d.move_word(CMD, MoveWordDir::Left, true, &[true, true, true, true], true);
    assert_eq!(text(&d), "foo");
    assert_eq!(d.kill_item, w(" bar"));
}

#[test]
fn directories_on_an_empty_line() {
    let mut d = reader("", 0);
    d.prevd_or_backward_word(&[]);
    assert!(d.actions.iter().any(|a| matches!(a, Action::EvalBind(c) if *c == w("prevd"))));
    let mut d = reader("", 0);
    d.nextd_or_forward_word(&[]);
    assert!(d.actions.iter().any(|a| matches!(a, Action::EvalBind(c) if *c == w("nextd"))));
    let mut d = reader("a b", 3);
    d.prevd_or_backward_word(&[true]);
    assert_eq!(d.command_line.position, 2);
}

#[test]
fn tokens() {
    let mut d = reader("ls  file", 8);
    let t = TokenExtent { token: 4..8, previous: 0..2, previous_cmdsub_start: 0 };
    d.backward_token_cmd(&t);
    assert_eq!(d.command_line.position, 4);
    let mut d = reader("ls  file", 0);
    let tokens = vec![
        LexedToken { is_string: true, end: 2 },
        LexedToken { is_string: true, end: 8 },
    ];
    d.forward_token_cmd(0, &tokens);
    assert_eq!(d.command_line.position, 2);
    d.forward_token_cmd(0, &tokens);
    assert_eq!(d.command_line.position, 8);
}

#[test]
fn up_and_down() {
    let mut d = reader("abcd\nef\nghij", 11);
    d.up_or_down_line(true, true, &vec![0; 12]);
    assert_eq!(d.command_line.position, 7);
    d.up_or_down_line(false, true, &vec![0; 12]);
    assert_eq!(d.command_line.position, 10);
    d.up_or_down_line(true, true, &vec![0; 12]);
    d.up_or_down_line(true, true, &vec![0; 12]);
    assert_eq!(d.command_line.position, 2);
    d.up_or_down_line(true, true, &vec![0; 12]);
    assert_eq!(d.command_line.position, 2);
}

#[test]
fn jumps_are_remembered() {
    let mut d = reader("abcabc", 0);
    d.jump_to_char(JumpDirection::Forward, JumpPrecision::To, 'b');
    assert_eq!(d.command_line.position, 1);
    assert_eq!(status(&d), Some(true));
    d.repeat_jump(false);
    assert_eq!(d.command_line.position, 4);
    d.repeat_jump(true);
    assert_eq!(d.command_line.position, 1);
    d.jump_to_char(JumpDirection::Forward, JumpPrecision::Till, 'c');
    assert_eq!(d.command_line.position, 1);
    d.jump_to_char(JumpDirection::Backward, JumpPrecision::To, 'x');
    assert_eq!(status(&d), Some(false));
    assert_eq!(d.command_line.position, 1);
}

#[test]
fn brackets_match_both_ways() {
    let mut d = reader("a (b [c] d) e", 2);
    d.jump_to_bracket(JumpPrecision::To);
    assert_eq!(d.command_line.position, 10);
    d.jump_to_bracket(JumpPrecision::To);
    assert_eq!(d.command_line.position, 2);
    let mut d = reader("(a", 0);
    d.jump_to_bracket(JumpPrecision::To);
    assert_eq!(d.command_line.position, 0);
    assert_eq!(status(&d), Some(false));
}

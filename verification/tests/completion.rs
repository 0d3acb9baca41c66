use fish_reader::action::Action;
use fish_reader::command::ReadlineCmd;
use fish_reader::choice::{choose_completions, Choice};
use fish_reader::completion::{
    completion_apply_to_command_line, completion_escape, completion_path, get_best_rank, get_quote,
    reader_can_replace, CompleteFlags, Completion, CompletionContext, EscapeFlags, EscapeRequest,
};
use fish_reader::data::{
    EditableLineTag, ReaderConfig, ReaderData, ReadlineLoopState, TransientEdit,
};
use fish_reader::pager::{PageSelection, SelectionMotion};
use fish_reader::paging::{
    completion_token, current_path_component, try_expand_wildcard, wildcard_expansion,
    wildcard_match_escape, CharOffset, ExpandResultCode, WildcardMatch,
};
use fish_reader::paint::ScreenState;
use fish_reader::text::WString;

fn w(s: &str) -> WString {
    s.chars().collect()
}

fn screen() -> ScreenState {
    ScreenState { recently_flashed: true, pager_cursor: 0, pager_needs_update: false }
}

/// Where the quotes of a token close.
fn quote_ends(token: &[char]) -> Vec<Option<usize>> {
    let mut ends = vec![None; token.len()];
    for i in 0..token.len() {
        if token[i] == '\'' || token[i] == '"' {
            let mut j = i + 1;
            while j < token.len() {
                if token[j] == '\\' {
                    j += 1;
                } else if token[j] == token[i] {
                    ends[i] = Some(j);
                    break;
                }
                j += 1;
            }
        }
    }
    ends
}

fn context(line: &[char], token: std::ops::Range<usize>, escaped: &str) -> CompletionContext {
    CompletionContext {
        cmdsub: 0..line.len(),
        quote_ends: quote_ends(&line[token.clone()]),
        token,
        equals_pos: None,
        escaped: w(escaped),
        is_dir: false,
    }
}

/// Apply a completion at the caret; the token reaches from the last space before it to the next.
fn apply(line: &str, val: &str, flags: CompleteFlags, append_only: bool) -> String {
    let mut line = w(line);
    let mut cursor = line.iter().position(|&c| c == '^').unwrap();
    line.remove(cursor);
    let start = line[..cursor].iter().rposition(|&c| c == ' ' || c == '(').map_or(0, |p| p + 1);
    let end = line[cursor..].iter().position(|&c| c == ' ').map_or(line.len(), |p| cursor + p);
    let ctx = context(&line, start..end, val);
    let mut r = completion_apply_to_command_line(&w(val), flags, &line, &mut cursor, append_only, &ctx);
    r.insert(cursor, '^');
    r.iter().collect()
}

fn comp(text: &str, rank: u32) -> Completion {
    Completion {
        completion: w(text),
        description: w(""),
        flags: CompleteFlags::empty(),
        rank,
        exact_or_prefix: true,
    }
}

fn reader(text: &str, pos: usize) -> ReaderData {
    let mut d = ReaderData::new(w("fish"), ReaderConfig::default(), Some((w(text), pos)), 0);
    d.rls = Some(ReadlineLoopState::new());
    d.cycle_command_line = w(text);
    d.cycle_cursor_pos = pos;
    d
}

#[test]
fn completions_are_inserted() {
    let none = CompleteFlags::empty();
    assert_eq!(apply("foo^", "bar", none, false), "foobar ^");
    assert_eq!(apply("foo^ baz", "bar", none, false), "foobar ^baz");
    assert_eq!(apply("'foo^", "bar", none, false), "'foobar' ^");
    assert_eq!(apply("'foo'^", "bar", none, false), "'foobar' ^");
    assert_eq!(apply("'foo\\'^", "bar", none, false), "'foo\\'bar' ^");
    assert_eq!(apply("foo\\'^", "bar", none, false), "foo\\'bar ^");
    assert_eq!(apply(": (:^ ''", "", none, false), ": (: ^''");
}

#[test]
fn append_only_completions_stay_behind_quotes() {
    let none = CompleteFlags::empty();
    assert_eq!(apply("foo^", "bar", none, true), "foobar ^");
    assert_eq!(apply("foo^ baz", "bar", none, true), "foobar ^baz");
    assert_eq!(apply("'foo^", "bar", none, true), "'foobar' ^");
    assert_eq!(apply("'foo'^", "bar", none, true), "'foo'bar ^");
    assert_eq!(apply("'foo\\'^", "bar", none, true), "'foo\\'bar' ^");
    assert_eq!(apply("foo\\'^", "bar", none, true), "foo\\'bar ^");
}

#[test]
fn completions_without_a_space() {
    let flags = CompleteFlags { no_space: true, ..CompleteFlags::empty() };
    assert_eq!(apply("foo^", "bar", flags, false), "foobar^");
    assert_eq!(apply("'foo^", "bar", flags, false), "'foobar^");
    assert_eq!(apply("'foo'^", "bar", flags, false), "'foobar'^");
    assert_eq!(apply("foo\\'^", "bar", flags, false), "foo\\'bar^");
}

#[test]
fn completions_that_replace_the_token() {
    let flags = CompleteFlags { replaces_token: true, ..CompleteFlags::empty() };
    assert_eq!(apply("foo^", "bar", flags, false), "bar ^");
    assert_eq!(apply("'foo^", "bar", flags, false), "bar ^");
    assert_eq!(apply("ls foo^ baz", "bar", flags, false), "ls bar ^baz");
}

#[test]
fn completions_that_keep_the_override() {
    let line = w("A=x");
    let mut ctx = context(&line, 0..3, "yy");
    ctx.equals_pos = Some(1);
    let flags = CompleteFlags {
        replaces_token: true,
        keep_variable_override_prefix: true,
        ..CompleteFlags::empty()
    };
    let mut cursor = 3;
    assert_eq!(
        completion_apply_to_command_line(&w("yy"), flags, &line, &mut cursor, false, &ctx),
        w("A=yy ")
    );
    assert_eq!(cursor, 5);
}

#[test]
fn completions_that_replace_the_line() {
    let flags = CompleteFlags { replaces_line: true, dont_escape: true, ..CompleteFlags::empty() };
    assert_eq!(apply("foo bar^ baz", "new", flags, false), "new^");
    let line = w("one\ntwo");
    let ctx = context(&line, 4..7, "");
    let mut cursor = 5;
    assert_eq!(
        completion_apply_to_command_line(&w("2"), flags, &line, &mut cursor, false, &ctx),
        w("one\n2")
    );
    assert_eq!(cursor, 5);
}

#[test]
fn variables_that_hold_directories_get_a_slash() {
    let line = w("$HO");
    let mut ctx = context(&line, 0..3, "ME");
    ctx.is_dir = true;
    let flags = CompleteFlags { variable_name: true, ..CompleteFlags::empty() };
    let mut cursor = 3;
    assert_eq!(completion_path(&w("ME"), flags, &line, 3, false, &ctx), Some(w("$HOME")));
    assert_eq!(
        completion_apply_to_command_line(&w("ME"), flags, &line, &mut cursor, false, &ctx),
        w("$HOME/")
    );
    assert_eq!(completion_path(&w("ME"), CompleteFlags::empty(), &line, 3, false, &ctx), None);
}

#[test]
fn escaping_that_is_asked_for() {
    let line = w("fo");
    let ctx = context(&line, 0..2, "");
    let none = CompleteFlags::empty();
    assert_eq!(
        completion_escape(none, &line, 2, false, true, &ctx),
        Some(EscapeRequest::WithQuote(None, EscapeFlags { no_quoted: true, no_tilde: false }))
    );
    let empty = w("ls ");
    let ctx = context(&empty, 3..3, "");
    assert_eq!(
        completion_escape(none, &empty, 3, false, true, &ctx),
        Some(EscapeRequest::WithQuote(None, EscapeFlags { no_quoted: false, no_tilde: false }))
    );
    let token = CompleteFlags { replaces_token: true, dont_escape_tildes: true, ..none };
    assert_eq!(
        completion_escape(token, &empty, 3, true, true, &ctx),
        Some(EscapeRequest::Script(EscapeFlags { no_quoted: true, no_tilde: true }))
    );
    let escaped = CompleteFlags { dont_escape: true, ..none };
    assert_eq!(completion_escape(escaped, &empty, 3, false, true, &ctx), None);
}

#[test]
fn quotes_around_the_cursor() {
    let cmd = w("a'b c");
    assert_eq!(get_quote(&cmd, 5, &quote_ends(&cmd)), Some('\''));
    let cmd = w("a'b'c");
    assert_eq!(get_quote(&cmd, 5, &quote_ends(&cmd)), None);
    assert_eq!(get_quote(&cmd, 2, &quote_ends(&cmd)), Some('\''));
    let cmd = w("a\\'b");
    assert_eq!(get_quote(&cmd, 4, &quote_ends(&cmd)), None);
    let cmd = w("a\\");
    assert_eq!(get_quote(&cmd, 2, &quote_ends(&cmd)), None);
}

#[test]
fn tokens_that_can_be_replaced() {
    let none = CompleteFlags::empty();
    assert!(reader_can_replace(&w("plain"), none));
    for c in "$*?({})".chars() {
        assert!(!reader_can_replace(&vec!['a', c], none));
        assert!(reader_can_replace(&vec!['a', c], CompleteFlags { dont_escape: true, ..none }));
    }
}

#[test]
fn the_best_rank_is_the_lowest() {
    assert_eq!(get_best_rank(&vec![comp("a", 4), comp("b", 2), comp("c", 9)]), 2);
    assert_eq!(get_best_rank(&vec![]), u32::MAX);
}

#[test]
fn one_completion_is_inserted() {
    match choose_completions(&vec![comp("bar", 0)], &w("fo"), '…') {
        Choice::Insert(c) => assert_eq!(c.completion, w("bar")),
        _ => panic!(),
    }
    assert!(matches!(choose_completions(&vec![], &w("fo"), '…'), Choice::Nothing));
}

#[test]
fn several_completions_are_listed_behind_their_prefix() {
    let list = vec![comp("obar", 0), comp("obaz", 0), comp("worse", 5)];
    match choose_completions(&list, &w("fo"), '…') {
        Choice::List { insert, prefix, list } => {
            assert_eq!(insert.unwrap().0, w("oba"));
            assert_eq!(prefix, w("fooba"));
            assert_eq!(list.len(), 2);
            assert_eq!(list[0].completion, w("r"));
            assert_eq!(list[1].completion, w("z"));
        }
        _ => panic!(),
    }
}

#[test]
fn completing_inserts_or_lists() {
    let mut d = reader("fo", 2);
    let ctx = context(&w("fo"), 0..2, "o");
    d.compute_and_apply_completions(vec![comp("o", 0)], 0..2, false, '…', &ctx, screen());
    assert_eq!(d.command_line.text, w("foo "));
    assert!(d.rls.as_ref().unwrap().complete_did_insert);

    let mut d = reader("ls ", 3);
    let ctx = context(&w("ls "), 3..3, "");
    d.compute_and_apply_completions(
        vec![comp("alpha", 0), comp("beta", 0)],
        3..3,
        true,
        '…',
        &ctx,
        screen(),
    );
    assert_eq!(d.command_line.text, w("ls "));
    assert_eq!(d.pager.completions.len(), 2);
    assert!(!d.rls.as_ref().unwrap().complete_did_insert);
    assert!(!d.rls.as_ref().unwrap().complete_chose_one);
    assert!(d.pager.search_field_shown);
}

#[test]
fn an_older_list_is_searched() {
    let mut d = reader("ls ", 3);
    let ctx = context(&w("ls "), 3..3, "");
    d.pager.completions = vec![comp("a", 0), comp("b", 0)];
    d.compute_and_apply_completions(vec![], 3..3, true, '…', &ctx, screen());
    assert!(d.pager.search_field_shown);
    assert!(d.actions.iter().any(|a| matches!(a, Action::MoveSelection { .. })));
}

#[test]
fn what_completions_have_in_common_is_inserted() {
    let mut d = reader("ls ", 3);
    d.rls.as_mut().unwrap().comp = vec![comp("bar1", 0), comp("bar2", 0)];
    d.rls.as_mut().unwrap().last_cmd = Some(ReadlineCmd::Complete);
    let ctx = context(&w("ls "), 3..3, "bar");
    assert!(d.handle_completions(3..3, '…', &ctx, screen()));
    assert_eq!(d.command_line.text, w("ls bar"));
    assert_eq!(d.pager.completions.len(), 2);
    // The list can be gone through.
    assert!(d.is_cycling_completions());

    // The search field is shown as well.
    let mut d = reader("ls ", 3);
    let list = vec![comp("bar1", 0), comp("bar2", 0)];
    d.compute_and_apply_completions(list, 3..3, true, '…', &ctx, screen());
    assert!(d.rls.as_ref().unwrap().complete_did_insert);
    assert!(d.pager.search_field_shown);
}

#[test]
fn a_token_that_cannot_be_replaced_stays() {
    let mut d = reader("ls {a", 5);
    let mut c = comp("x", 0);
    c.flags.replaces_token = true;
    d.rls.as_mut().unwrap().comp = vec![c];
    d.rls.as_mut().unwrap().last_cmd = Some(ReadlineCmd::Complete);
    let ctx = context(&w("ls {a"), 3..5, "x");
    assert!(!d.handle_completions(3..5, '…', &ctx, screen()));
    assert_eq!(d.command_line.text, w("ls {a"));
    // There is no list.
    assert!(!d.is_cycling_completions());
}

#[test]
fn selected_completions_replace_each_other() {
    let mut d = reader("ls ", 3);
    let ctx = context(&w("ls "), 3..3, "alpha");
    let pick = |s: &str| PageSelection { index: Some(0), completion: Some(comp(s, 0)) };
    d.selection_moved(pick("alpha"), true, false, &ctx);
    assert_eq!(d.command_line.text, w("ls alpha "));
    assert_eq!(d.command_line_transient_edit, Some(TransientEdit::Pager));
    let ctx = context(&w("ls "), 3..3, "beta");
    d.selection_moved(pick("beta"), true, false, &ctx);
    assert_eq!(d.command_line.text, w("ls beta "));
    d.clear_transient_edit();
    assert_eq!(d.command_line.text, w("ls "));
}

#[test]
fn completions_are_cycled_through() {
    let mut d = reader("ls ", 3);
    d.pager.completions = vec![comp("a", 0), comp("b", 0)];
    d.rls.as_mut().unwrap().complete_did_insert = false;
    d.cycle_completions(true);
    assert!(d.actions.iter().any(|a| matches!(a, Action::MoveSelection { .. })));
}

#[test]
fn clicks_move_the_cursor_or_select() {
    let mut d = reader("hello", 5);
    d.mouse_left_click(CharOffset::Cmd(2));
    assert_eq!(d.command_line.position, 2);
    d.mouse_left_click(CharOffset::Pointer(1));
    assert_eq!(d.command_line.position, 1);
    d.mouse_left_click(CharOffset::Elsewhere);
    assert_eq!(d.command_line.position, 1);
    d.mouse_left_click(CharOffset::Pager(4));
    assert!(matches!(d.actions.last(), Some(Action::SelectCompletion(Some(4)))));
    d.take_actions();
    d.mouse_left_click(CharOffset::Pager(4));
    assert!(d.actions.is_empty());
}

#[test]
fn path_components_at_the_cursor() {
    assert_eq!(current_path_component(&w("a/b*/c"), 3), 2..4);
    assert_eq!(current_path_component(&w("a*"), 2), 0..2);
    assert_eq!(completion_token(2..9, 4..6), 6..8);
}

#[test]
fn wildcards_expand_to_a_list() {
    let one = |s: &str| WildcardMatch {
        completion: w(s),
        flags: CompleteFlags::empty(),
        escaped: w(s),
    };
    let mut result = w("");
    assert_eq!(
        try_expand_wildcard(true, ExpandResultCode::Expanded, &vec![one("a"), one("b")], &mut result),
        ExpandResultCode::Expanded
    );
    assert_eq!(result, w("a b "));
    let mut result = w("");
    assert_eq!(
        try_expand_wildcard(false, ExpandResultCode::Expanded, &vec![], &mut result),
        ExpandResultCode::WildcardNoMatch
    );
    assert_eq!(
        try_expand_wildcard(true, ExpandResultCode::Cancel, &vec![], &mut result),
        ExpandResultCode::Cancel
    );
}

#[test]
fn wildcards_expand_up_to_a_limit() {
    assert!(wildcard_expansion(&w("a*"), false).is_none());
    let request = wildcard_expansion(&w("a*"), true).unwrap();
    assert_eq!(request.text, w("a*"));
    assert_eq!(request.max_results, 256);
    assert!(request.fail_on_cmdsubst && request.skip_variables && request.preserve_home_tildes);

    let none = CompleteFlags::empty();
    let as_is = CompleteFlags { dont_escape: true, ..none };
    let tilde = CompleteFlags { dont_escape_tildes: true, ..none };
    assert_eq!(wildcard_match_escape(as_is), None);
    assert_eq!(
        wildcard_match_escape(none),
        Some(EscapeFlags { no_quoted: true, no_tilde: false })
    );
    assert_eq!(
        wildcard_match_escape(tilde),
        Some(EscapeFlags { no_quoted: true, no_tilde: true })
    );
    let raw = WildcardMatch { completion: w("a b"), flags: as_is, escaped: w("") };
    let mut result = w("");
    try_expand_wildcard(true, ExpandResultCode::Expanded, &vec![raw], &mut result);
    assert_eq!(result, w("a b "));
}

#[test]
fn a_trailing_backslash_is_not_completed() {
    let mut d = reader("foo\\", 4);
    d.begin_completion(&[1, 1, 1, 1]);
    assert_eq!(d.command_line.text, w("foo"));
    d.begin_completion(&[1, 1, 1]);
    assert_eq!(d.command_line.text, w("foo"));
}

#[test]
fn moving_the_selection_is_asked_of_the_shell() {
    let mut d = reader("ls ", 3);
    d.pager.completions = vec![comp("a", 0)];
    d.pager.selected_completion_idx = Some(0);
    assert!(d.is_navigating_pager_contents());
    assert_eq!(d.active_edit_line_tag(), EditableLineTag::Commandline);
    d.backward_char();
    assert!(matches!(
        d.actions.last(),
        Some(Action::MoveSelection { motion: SelectionMotion::West, .. })
    ));
}

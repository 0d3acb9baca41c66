use fish_reader::abbreviation::{
    abbreviation_query, extract_tokens, reader_expand_abbreviation_at_cursor, replacer_command,
    AbbreviationMatch, LeafNode, PositionedToken, Replacement, Replacer, Substitution,
};
use fish_reader::action::{Action, AfterPrompt, PersistenceMode, SyntaxTest};
use fish_reader::command::{
    command_ends_history_search, command_ends_paging, CharEvent, CharInputStyle,
    CursorPositionQuery, ImplicitEvent, KeyEvent, QueryResponseEvent, ReadlineCmd, TerminalQuery,
    ViewportPosition,
};
use fish_reader::cursor::TokenExtent;
use fish_reader::data::{EditableLineTag, ReaderConfig, ReaderData, ReadlineLoopState};
use fish_reader::event::{
    query_capabilities_via_dcs, ParserState, Reader, Readahead, TerminalKind, TerminalState,
};
use fish_reader::finish::{
    frame_errors, history_persistence, history_question, should_add_to_history, ExitState,
};
use fish_reader::flags::Flag;
use fish_reader::motion::MoveWordStyle;
use fish_reader::paging::CharOffset;
use fish_reader::paint::ScreenState;
use fish_reader::prompt::{
    plan_prompts, reader_write_title, write_title, PromptFunctions, PromptOutput, TitleWrite,
};
use fish_reader::readline::{move_word_style, selection_is_at_top, Surroundings, WordAnswers};
use fish_reader::recall::SearchAnswers;
use fish_reader::text::WString;

const CMD: EditableLineTag = EditableLineTag::Commandline;

fn w(s: &str) -> WString {
    s.chars().collect()
}

fn screen() -> ScreenState {
    ScreenState { recently_flashed: true, pager_cursor: 0, pager_needs_update: false }
}

fn calm() -> ExitState {
    ExitState { sighup: false, top_level: true, has_jobs: false }
}

fn terminal() -> TerminalState {
    TerminalState {
        stdout_is_tty: true,
        scroll_forward_supported: true,
        kitty_unknown: true,
        clicked: CharOffset::Elsewhere,
    }
}

fn kind() -> TerminalKind {
    TerminalKind {
        is_dumb: false,
        in_midnight_commander: false,
        in_dvtm: false,
        stdout_is_tty: true,
        via_dcs: true,
    }
}

fn surroundings(n: usize) -> Surroundings {
    Surroundings {
        screen: screen(),
        exit: calm(),
        widths: vec![1; n],
        words: WordAnswers {
            punctuation: vec![true; n],
            path_components: vec![true; n],
            whitespace: vec![true; n],
        },
        token: TokenExtent { token: 0..n, previous: 0..n, previous_cmdsub_start: 0 },
        retry_token: TokenExtent { token: 0..n, previous: 0..n, previous_cmdsub_start: 0 },
        cmdsub_start: 0,
        tokens: vec![],
        selection_at_top: true,
        indents: vec![0; n],
        search: SearchAnswers {
            token: 0..0,
            result_token: 0..0,
            next: None,
            suggestion_truncated: false,
        },
        older: vec![],
        history_size: 0,
        multibyte: true,
        needle: w(""),
        yank: w("yanked"),
        jump_target: None,
        ends_in_comment: false,
        syntax: SyntaxTest::Valid,
    }
}

fn reader(text: &str) -> Reader {
    let n = text.chars().count();
    let mut data = ReaderData::new(w("fish"), ReaderConfig::default(), Some((w(text), n)), 0);
    data.rls = Some(ReadlineLoopState::new());
    Reader {
        data,
        parser: ParserState {
            exit_current_script: false,
            readonly_commandline: false,
            queried: false,
            blocking_query: None,
        },
    }
}

fn run(r: &mut Reader, c: ReadlineCmd) {
    let begun = r.handle_char_event(Some(CharEvent::Readline(c)), terminal());
    assert_eq!(begun, Some(c));
    let n = r.data.active_edit_line().1.text.len();
    r.handle_readline_command(c, surroundings(n), terminal());
    r.data.end_command(c);
}

fn text(r: &Reader) -> String {
    r.data.command_line.text.iter().collect()
}

fn key(c: char, input_style: CharInputStyle) -> CharEvent {
    CharEvent::Key(KeyEvent { input_style, codepoint_text: Some(c) })
}

#[test]
fn commands_are_dispatched() {
    let mut r = reader("hello");
    run(&mut r, ReadlineCmd::BeginningOfLine);
    assert_eq!(r.data.command_line.position, 0);
    run(&mut r, ReadlineCmd::ForwardSingleChar);
    assert_eq!(r.data.command_line.position, 1);
    run(&mut r, ReadlineCmd::KillLine);
    assert_eq!(text(&r), "h");
    run(&mut r, ReadlineCmd::Yank);
    assert_eq!(text(&r), "hyanked");
    run(&mut r, ReadlineCmd::BackwardDeleteChar);
    assert_eq!(text(&r), "hyanke");
    run(&mut r, ReadlineCmd::UpcaseWord);
    run(&mut r, ReadlineCmd::EndOfBuffer);
    run(&mut r, ReadlineCmd::BeginningOfBuffer);
    assert_eq!(r.data.command_line.position, 0);
    run(&mut r, ReadlineCmd::Undo);
    assert_eq!(text(&r), "hyanked");
    run(&mut r, ReadlineCmd::SelfInsert);
    assert_eq!(r.data.rls.as_ref().unwrap().last_cmd, Some(ReadlineCmd::SelfInsert));
}

#[test]
fn undo_groups_by_commands() {
    let mut r = reader("a");
    run(&mut r, ReadlineCmd::BeginUndoGroup);
    run(&mut r, ReadlineCmd::Yank);
    run(&mut r, ReadlineCmd::Yank);
    run(&mut r, ReadlineCmd::EndUndoGroup);
    assert_eq!(text(&r), "ayankedyanked");
    run(&mut r, ReadlineCmd::Undo);
    assert_eq!(text(&r), "a");
}

#[test]
fn executing_finishes_the_loop() {
    let mut r = reader("echo hi  ");
    run(&mut r, ReadlineCmd::Execute);
    assert!(r.data.rls.as_ref().unwrap().finished);
    assert!(matches!(r.data.actions[0], Action::RemoveEphemeralItems));
    assert!(matches!(&r.data.actions[1], Action::AddToHistory(t) if *t == w("echo hi")));
    assert_eq!(r.data.finish_readline(false), Some(w("echo hi  ")));
    assert!(r.data.rls.is_none());
    assert!(matches!(r.data.actions.last(), Some(Action::WriteNewline)));
}

#[test]
fn escaped_spaces_stay_in_the_history() {
    let mut r = reader("echo a\\  ");
    run(&mut r, ReadlineCmd::Execute);
    assert!(matches!(&r.data.actions[1], Action::AddToHistory(t) if *t == w("echo a\\ ")));
}

#[test]
fn unfinished_commands_go_on() {
    let mut r = reader("echo \\");
    run(&mut r, ReadlineCmd::Execute);
    assert_eq!(text(&r), "echo \\\n");
    assert!(!r.data.rls.as_ref().unwrap().finished);
    assert_eq!(r.data.finish_readline(true), None);
    let mut r = reader("begin");
    r.data.conf.syntax_check_ok = true;
    let c = ReadlineCmd::Execute;
    assert_eq!(r.handle_char_event(Some(CharEvent::Readline(c)), terminal()), Some(c));
    let env = Surroundings { syntax: SyntaxTest::Incomplete, ..surroundings(5) };
    r.handle_readline_command(c, env, terminal());
    assert_eq!(text(&r), "begin\n");
}

#[test]
fn erroneous_commands_are_reported() {
    let mut r = reader("end");
    r.data.conf.syntax_check_ok = true;
    let c = ReadlineCmd::Execute;
    assert_eq!(r.handle_char_event(Some(CharEvent::Readline(c)), terminal()), Some(c));
    let env = Surroundings { syntax: SyntaxTest::Erroneous, ..surroundings(3) };
    r.handle_readline_command(c, env, terminal());
    assert!(!r.data.rls.as_ref().unwrap().finished);
    assert!(r.data.actions.iter().any(|a| matches!(a, Action::ReportSyntaxErrors(_))));
    assert!(r.data.actions.iter().any(|a| matches!(a, Action::FirePostError(t) if *t == w("end"))));
    assert_eq!(frame_errors(&w("bad")), w("\nbad\n"));
    assert_eq!(frame_errors(&w("bad\n")), w("\nbad\n"));
}

#[test]
fn abbreviations_expand_on_execution() {
    let mut r = reader("gco");
    r.data.conf.expand_abbrev_ok = true;
    run(&mut r, ReadlineCmd::Execute);
    assert!(matches!(
        r.data.actions[..],
        [Action::ExpandAbbreviation { cursor: 3, execution: Some(SyntaxTest::Valid) }]
    ));
    r.data.take_actions();
    r.data.abbreviation_expanded_for_execution(
        SyntaxTest::Valid,
        Some(Replacement { range: 0..3, text: w("git checkout"), cursor: None }),
        SyntaxTest::Valid,
    );
    assert_eq!(text(&r), "git checkout");
    assert!(r.data.rls.as_ref().unwrap().finished);
}

#[test]
fn abbreviations_expand_on_request() {
    let mut r = reader("gco ");
    r.data.conf.expand_abbrev_ok = true;
    run(&mut r, ReadlineCmd::ExpandAbbr);
    assert!(matches!(
        r.data.actions[..],
        [Action::ExpandAbbreviation { cursor: 3, execution: None }]
    ));
    r.data.abbreviation_expanded(Some(Replacement {
        range: 0..3,
        text: w("git checkout -b"),
        cursor: Some(4),
    }));
    assert_eq!(text(&r), "git checkout -b ");
    assert_eq!(r.data.command_line.position, 4);
    assert!(matches!(r.data.actions.last(), Some(Action::FunctionStatus(true))));
    r.data.abbreviation_expanded(None);
    assert!(matches!(r.data.actions.last(), Some(Action::FunctionStatus(false))));
}

fn leaf(start: usize, end: usize, is_cmd: bool) -> LeafNode {
    LeafNode { start, end, is_cmd, substitutions: vec![] }
}

#[test]
fn tokens_of_command_substitutions_are_found() {
    // ls (gco x) y
    let inner = Substitution {
        paren: 3,
        start: 4,
        end: 9,
        leaves: vec![leaf(0, 3, true), leaf(4, 5, false)],
    };
    let leaves = vec![
        leaf(0, 2, true),
        LeafNode { start: 3, end: 10, is_cmd: false, substitutions: vec![inner] },
        leaf(11, 12, false),
    ];
    let tokens = extract_tokens(&leaves, 12);
    assert!(tokens.iter().any(|t| t.start == 4 && t.end == 7 && t.is_cmd));
    assert!(tokens.iter().any(|t| *t == PositionedToken { start: 0, end: 2, is_cmd: true }));
    let cmdline = w("ls (gco x) y");
    let q = abbreviation_query(&cmdline, 7, &leaves).unwrap();
    assert_eq!(q.token, w("gco"));
    assert!(q.is_cmd);
    let q = abbreviation_query(&cmdline, 12, &leaves).unwrap();
    assert_eq!(q.token, w("y"));
    assert!(!q.is_cmd);
}

#[test]
fn the_first_expansion_that_succeeds_is_taken() {
    let cmdline = w("gco");
    let leaves = vec![leaf(0, 3, true)];
    let failing = AbbreviationMatch {
        replacer: Replacer { replacement: w("f"), is_function: true, set_cursor_marker: None },
        run: None,
    };
    let printing = AbbreviationMatch {
        replacer: Replacer { replacement: w("f"), is_function: true, set_cursor_marker: Some(w("%")) },
        run: Some(vec![w("a"), w("b")]),
    };
    let literal = AbbreviationMatch {
        replacer: Replacer { replacement: w("git"), is_function: false, set_cursor_marker: None },
        run: None,
    };
    let r = reader_expand_abbreviation_at_cursor(&cmdline, 3, &leaves, &vec![failing, printing, literal])
        .unwrap();
    assert_eq!(r.text, w("a\nb"));
    assert_eq!(r.range, 0..3);
    assert_eq!(r.set_cursor_marker, Some(w("%")));
    assert!(reader_expand_abbreviation_at_cursor(&cmdline, 3, &leaves, &vec![]).is_none());
    assert_eq!(replacer_command(&w("fn"), &w("gco")), w("fn gco"));
}

#[test]
fn exits_are_asked_for_and_warned_about() {
    let mut r = reader("");
    let jobs = ExitState { has_jobs: true, ..calm() };
    r.data.exit(jobs);
    assert!(r.data.actions.iter().any(|a| matches!(a, Action::WarnAboutJobs)));
    assert!(!r.data.check_exit_loop(jobs));
    r.data.exit(jobs);
    assert!(r.data.check_exit_loop(jobs));
    let mut r = reader("");
    assert!(r.data.check_exit_loop(ExitState { sighup: true, ..calm() }));
    assert!(!r.data.check_exit_loop(calm()));
    run(&mut r, ReadlineCmd::DeleteOrExit);
    assert!(r.data.flags.get(Flag::ExitLoopRequested));
    // Once an exit is asked for, no more events are handled.
    assert_eq!(
        r.handle_char_event(Some(CharEvent::Readline(ReadlineCmd::Undo)), terminal()),
        None
    );
}

#[test]
fn scripts_can_ask_for_an_exit() {
    let mut r = reader("a");
    r.parser.exit_current_script = true;
    assert_eq!(r.handle_char_event(Some(key('x', CharInputStyle::Normal)), terminal()), None);
    assert!(r.data.flags.get(Flag::ExitLoopRequested));
    assert!(!r.parser.exit_current_script);
    assert_eq!(text(&r), "a");
}

#[test]
fn cancelling_clears_the_line() {
    let mut r = reader("abc");
    run(&mut r, ReadlineCmd::CancelCommandline);
    assert_eq!(text(&r), "");
    assert!(r.data.actions.iter().any(|a| matches!(a, Action::PrintCancelMark)));
    assert!(matches!(r.data.actions.last(), Some(Action::FireCancel)));
    let mut r = reader("abc");
    run(&mut r, ReadlineCmd::ClearCommandline);
    assert_eq!(text(&r), "");
    assert!(!r.data.actions.iter().any(|a| matches!(a, Action::PrintCancelMark)));
    let mut r = reader("abc");
    r.data.conf.exit_on_interrupt = true;
    run(&mut r, ReadlineCmd::CancelCommandline);
    assert_eq!(text(&r), "abc");
    assert!(r.data.flags.get(Flag::ExitLoopRequested));
    assert!(matches!(r.data.actions[..], [Action::SetLastStatus { ok: false }]));
}

#[test]
fn keys_are_typed() {
    let mut r = reader("");
    r.handle_char_event(Some(key(' ', CharInputStyle::NotFirst)), terminal());
    assert_eq!(text(&r), "");
    r.handle_char_event(Some(key('a', CharInputStyle::Normal)), terminal());
    r.handle_char_event(Some(key(' ', CharInputStyle::NotFirst)), terminal());
    assert_eq!(text(&r), "a ");
    assert_eq!(r.data.rls.as_ref().unwrap().last_cmd, None);
    r.handle_char_event(
        Some(CharEvent::Key(KeyEvent { input_style: CharInputStyle::Normal, codepoint_text: None })),
        terminal(),
    );
    assert_eq!(text(&r), "a ");
}

#[test]
fn reading_ahead_stops_at_the_limit() {
    let mut r = reader("ab");
    r.data.rls.as_mut().unwrap().nchars = Some(4);
    assert!(!r.data.begin_event(screen()));
    let mut read: Readahead = r.data.begin_reading();
    assert_eq!(read.limit, 2);
    assert!(read.take(key('c', CharInputStyle::Normal), true).is_none());
    assert!(!read.is_full());
    assert!(read.take(key('d', CharInputStyle::Normal), true).is_none());
    assert!(read.is_full());
    r.data.read_normal_chars(read);
    assert_eq!(text(&r), "abcd");
    assert!(r.data.is_at_limit());
    assert!(r.data.begin_event(screen()));
    assert!(r.data.rls.as_ref().unwrap().finished);
}

#[test]
fn reading_ahead_hands_back_other_events() {
    let r = reader("");
    let mut read = r.data.begin_reading();
    assert_eq!(read.limit, 256);
    assert!(read.take(key(' ', CharInputStyle::NotFirst), true).is_none());
    assert!(read.chars.is_empty());
    assert!(read.take(key('x', CharInputStyle::Normal), false).is_some());
    assert!(matches!(
        read.take(CharEvent::Readline(ReadlineCmd::Undo), true),
        Some(CharEvent::Readline(ReadlineCmd::Undo))
    ));
    assert!(read.chars.is_empty());
}

#[test]
fn scripts_that_change_the_line_reset_the_loop() {
    let mut r = reader("a");
    r.data.rls.as_mut().unwrap().last_cmd = Some(ReadlineCmd::Yank);
    r.data.flags.set(Flag::ResetLoopState, true);
    r.data.begin_event(screen());
    assert_eq!(r.data.rls.as_ref().unwrap().last_cmd, None);
    assert!(!r.data.flags.get(Flag::ResetLoopState));
}

#[test]
fn replies_of_the_terminal() {
    let mut r = reader("hello");
    let report = CharEvent::QueryResponse(QueryResponseEvent::CursorPositionReport(
        ViewportPosition { x: 1, y: 7 },
    ));
    // A rogue reply.
    r.handle_char_event(Some(report), terminal());
    assert!(r.data.actions.is_empty());
    r.initial_query(kind());
    assert_eq!(r.parser.blocking_query, Some(TerminalQuery::PrimaryDeviceAttribute));
    assert!(matches!(r.data.take_actions()[..], [Action::QueryCapabilities { via_dcs: true }]));
    r.initial_query(kind());
    assert!(r.data.actions.is_empty());
    let attribute = CharEvent::QueryResponse(QueryResponseEvent::PrimaryDeviceAttribute);
    r.handle_char_event(Some(attribute), terminal());
    assert_eq!(r.parser.blocking_query, None);
    assert!(matches!(
        r.data.take_actions()[..],
        [Action::NoteKittyUnsupported, Action::SaveScreenState]
    ));
    run(&mut r, ReadlineCmd::ScrollbackPush);
    assert_eq!(
        r.parser.blocking_query,
        Some(TerminalQuery::CursorPositionReport(CursorPositionQuery::ScrollbackPush))
    );
    r.data.take_actions();
    run(&mut r, ReadlineCmd::ScrollbackPush);
    assert!(r.data.actions.is_empty());
    let report = CharEvent::QueryResponse(QueryResponseEvent::CursorPositionReport(
        ViewportPosition { x: 1, y: 7 },
    ));
    r.handle_char_event(Some(report), terminal());
    assert!(matches!(r.data.take_actions()[..], [Action::PushToScrollback(7)]));
    assert_eq!(r.parser.blocking_query, None);
}

#[test]
fn mouse_clicks_wait_for_the_cursor_position() {
    let mut r = reader("hello");
    let at = ViewportPosition { x: 2, y: 0 };
    r.handle_char_event(Some(CharEvent::Implicit(ImplicitEvent::MouseLeft(at))), terminal());
    assert_eq!(
        r.parser.blocking_query,
        Some(TerminalQuery::CursorPositionReport(CursorPositionQuery::MouseLeft(at)))
    );
    let report = CharEvent::QueryResponse(QueryResponseEvent::CursorPositionReport(at));
    r.handle_char_event(Some(report), TerminalState { clicked: CharOffset::Cmd(2), ..terminal() });
    assert_eq!(r.data.command_line.position, 2);
    assert_eq!(r.parser.blocking_query, None);
}

#[test]
fn implicit_events() {
    let mut r = reader("");
    r.handle_char_event(Some(CharEvent::Implicit(ImplicitEvent::Eof)), terminal());
    r.handle_char_event(Some(CharEvent::Implicit(ImplicitEvent::CheckExit)), terminal());
    r.handle_char_event(Some(CharEvent::Implicit(ImplicitEvent::FocusIn)), terminal());
    r.handle_char_event(Some(CharEvent::Implicit(ImplicitEvent::FocusOut)), terminal());
    r.handle_char_event(Some(CharEvent::Implicit(ImplicitEvent::DisableMouseTracking)), terminal());
    r.handle_char_event(Some(CharEvent::Command(w("script"))), terminal());
    r.handle_char_event(None, terminal());
    let actions = r.data.take_actions();
    assert!(matches!(
        actions[..5],
        [
            Action::Hangup,
            Action::FireFocusIn,
            Action::FireFocusOut,
            Action::DisableMouseTracking,
            Action::SaveScreenState
        ]
    ));
    assert!(matches!(&actions[5], Action::RunInputCommand(t) if *t == w("script")));
    assert_eq!(actions.len(), 6);
}

#[test]
fn capabilities_are_not_asked_for_within_screen() {
    assert!(query_capabilities_via_dcs(false, None));
    assert!(query_capabilities_via_dcs(false, Some(&w("xterm"))));
    assert!(!query_capabilities_via_dcs(false, Some(&w("screen"))));
    assert!(!query_capabilities_via_dcs(false, Some(&w("screen-256color"))));
    assert!(!query_capabilities_via_dcs(true, Some(&w("xterm"))));
    let mut r = reader("");
    r.initial_query(TerminalKind { is_dumb: true, ..kind() });
    assert!(r.data.actions.is_empty());
    assert!(r.parser.queried);
}

#[test]
fn reading_begins_with_the_prompt() {
    let mut r = reader("");
    r.data.conf.event = w("fish_prompt");
    r.begin_readline(Some(3), TerminalKind { is_dumb: true, ..kind() });
    assert_eq!(r.data.rls.as_ref().unwrap().nchars, Some(3));
    let actions = r.data.take_actions();
    assert!(matches!(&actions[0], Action::FireEvent(name) if *name == w("fish_prompt")));
    assert!(matches!(
        actions[1],
        Action::ExecPrompt { full_prompt: true, final_prompt: false, next: AfterPrompt::Nothing }
    ));
    assert!(r.data.flags.get(Flag::ForceExecPromptAndRepaint));
    r.begin_readline(None, kind());
    assert!(matches!(r.data.actions[0], Action::ResetAbandoningLine));
}

#[test]
fn reading_ends_with_the_final_prompt() {
    let mut r = reader("x");
    r.data.conf.transient_prompt = true;
    r.data.prompt_finally(true);
    assert!(matches!(
        r.data.take_actions()[..],
        [
            Action::SaveScreenState,
            Action::ExecPrompt { full_prompt: true, final_prompt: true, next: AfterPrompt::Nothing }
        ]
    ));
    r.data.paint_finally(false, screen());
    assert!(matches!(r.data.take_actions()[..], [Action::Paint(_)]));
    r.data.paint_finally(false, screen());
    assert!(r.data.actions.is_empty());
    r.data.paint_finally(true, screen());
    assert_eq!(r.data.take_actions().len(), 1);
    r.data.conf.inputfd = 5;
    assert_eq!(r.data.finish_readline(true), None);
    assert!(matches!(r.data.actions[..], [Action::WriteCarriageReturn]));
}

#[test]
fn prompts_are_planned_and_set() {
    let mut conf = ReaderConfig::default();
    conf.left_prompt_cmd = w("fish_prompt");
    conf.right_prompt_cmd = w("fish_right_prompt");
    let all = PromptFunctions { mode: true, left: true, right: true };
    let plan = plan_prompts(&conf, true, true, all);
    assert_eq!(plan.left, Some(w("fish_prompt --final-rendering")));
    assert_eq!(plan.right, Some(w("fish_right_prompt --final-rendering")));
    let none = PromptFunctions { mode: false, left: false, right: false };
    let plan = plan_prompts(&conf, true, false, none);
    assert_eq!(plan.mode, None);
    assert_eq!(plan.left, Some(w("echo -n \"$USER@$hostname $PWD \"'> '")));
    let mut r = reader("");
    r.data.prompt_executed(
        true,
        false,
        AfterPrompt::Nothing,
        &PromptOutput {
            mode: Some(vec![w("[I]")]),
            left: Some(vec![w("a"), w("> ")]),
            right: Some(vec![w("x"), w("y")]),
        },
        true,
        screen(),
    );
    assert_eq!(r.data.left_prompt_buff, w("a\n> "));
    assert_eq!(r.data.right_prompt_buff, w("xy"));
    assert_eq!(r.data.mode_prompt_buff, w("[I]"));
    assert!(r.data.flags.get(Flag::ExitLoopRequested));
}

#[test]
fn repainting_runs_the_prompts() {
    let mut r = reader("x");
    run(&mut r, ReadlineCmd::Repaint);
    assert!(matches!(
        r.data.take_actions()[..],
        [
            Action::SetRepainting(true),
            Action::ExecPrompt { full_prompt: true, final_prompt: false, next: AfterPrompt::Repaint }
        ]
    ));
    let out = PromptOutput { mode: None, left: Some(vec![w("> ")]), right: None };
    r.data.prompt_executed(true, false, AfterPrompt::Repaint, &out, false, screen());
    let actions = r.data.take_actions();
    assert!(matches!(
        actions[..],
        [Action::ResetLine, Action::Paint(_), Action::SetRepainting(false)]
    ));
    run(&mut r, ReadlineCmd::RepaintMode);
    r.data.take_actions();
    let quiet = PromptOutput { mode: None, left: None, right: None };
    r.data.prompt_executed(false, false, AfterPrompt::RepaintMode, &quiet, false, screen());
    assert!(matches!(
        r.data.actions[..],
        [Action::ExecPrompt { full_prompt: true, final_prompt: false, next: AfterPrompt::Repaint }]
    ));
}

#[test]
fn titles() {
    assert_eq!(
        reader_write_title(&w("ls"), false, &w("ls")),
        w("echo (status current-command) \" \" $PWD")
    );
    assert_eq!(reader_write_title(&w(""), true, &w("")), w("fish_title"));
    assert_eq!(reader_write_title(&w("a b"), true, &w("a\\ b")), w("fish_title a\\ b"));
}

#[test]
fn what_goes_into_the_history() {
    assert_eq!(history_question(&w("'a b'")), w("fish_should_add_to_history 'a b'"));
    assert!(should_add_to_history(&w("ls"), false, false));
    assert!(!should_add_to_history(&w(" ls"), false, true));
    assert!(should_add_to_history(&w(" ls"), true, true));
    assert!(!should_add_to_history(&w("ls"), true, false));
    assert_eq!(history_persistence(false, true), PersistenceMode::Ephemeral);
    assert_eq!(history_persistence(true, true), PersistenceMode::Memory);
    assert_eq!(history_persistence(true, false), PersistenceMode::Disk);
}

#[test]
fn paging_ends_where_it_should() {
    assert!(command_ends_paging(ReadlineCmd::Cancel, true));
    assert!(command_ends_paging(ReadlineCmd::KillLine, false));
    assert!(!command_ends_paging(ReadlineCmd::KillLine, true));
    assert!(!command_ends_paging(ReadlineCmd::Execute, false));
    assert!(!command_ends_paging(ReadlineCmd::Complete, false));
    assert!(!command_ends_history_search(ReadlineCmd::HistorySearchBackward));
    assert!(!command_ends_history_search(ReadlineCmd::Repaint));
    assert!(command_ends_history_search(ReadlineCmd::ForwardChar));
    assert!(selection_is_at_top(None, None));
    assert!(selection_is_at_top(Some(0), Some(0)));
    assert!(!selection_is_at_top(Some(1), Some(0)));
    assert!(!selection_is_at_top(None, Some(1)));
}

#[test]
fn suggestions_are_suppressed_and_accepted_by_command() {
    let mut r = reader("ec");
    r.data.autosuggestion.text = w("echo");
    r.data.autosuggestion.search_string_range = 0..2;
    run(&mut r, ReadlineCmd::SuppressAutosuggestion);
    assert!(matches!(r.data.actions.last(), Some(Action::FunctionStatus(true))));
    assert!(r.data.autosuggestion.is_empty());
    run(&mut r, ReadlineCmd::AcceptAutosuggestion);
    assert!(matches!(r.data.actions.last(), Some(Action::FunctionStatus(false))));
    r.data.autosuggestion.text = w("echo");
    r.data.autosuggestion.search_string_range = 0..2;
    run(&mut r, ReadlineCmd::AcceptAutosuggestion);
    assert_eq!(text(&r), "echo");
}

#[test]
fn completing_by_command() {
    let mut r = reader("ls ");
    run(&mut r, ReadlineCmd::Complete);
    assert!(r.data.actions.is_empty());
    r.data.conf.complete_ok = true;
    run(&mut r, ReadlineCmd::CompleteAndSearch);
    assert!(matches!(r.data.actions[..], [Action::ComputeCompletions { and_search: true }]));
}

#[test]
fn cancel_takes_back_a_completion() {
    let mut r = reader("l");
    r.data.insert_string(CMD, &w("s "));
    r.data.rls.as_mut().unwrap().complete_did_insert = true;
    r.data.rls.as_mut().unwrap().last_cmd = Some(ReadlineCmd::Complete);
    run(&mut r, ReadlineCmd::Cancel);
    assert_eq!(text(&r), "l");
}

#[test]
fn bound_commands_that_wrote_save_the_screen() {
    let mut r = reader("");
    r.data.bind_cmd_evaluated(false, true);
    assert!(r.data.actions.is_empty());
    r.data.left_prompt_buff = w("a\nb");
    r.data.bind_cmd_evaluated(false, true);
    r.data.bind_cmd_evaluated(true, false);
    assert_eq!(r.data.actions.len(), 2);
}

#[test]
fn titles_put_the_cursor_back() {
    assert!(matches!(
        write_title(vec![w("t")], true)[..],
        [TitleWrite::Title(_), TitleWrite::ResetTextFace, TitleWrite::CarriageReturn]
    ));
    assert!(matches!(
        write_title(vec![], true)[..],
        [TitleWrite::ResetTextFace, TitleWrite::CarriageReturn]
    ));
    assert!(matches!(write_title(vec![], false)[..], [TitleWrite::ResetTextFace]));
}

#[test]
fn big_words_end_at_whitespace() {
    assert_eq!(move_word_style(ReadlineCmd::KillWord), Some(MoveWordStyle::Punctuation));
    assert_eq!(move_word_style(ReadlineCmd::KillBigword), Some(MoveWordStyle::Whitespace));
    assert_eq!(
        move_word_style(ReadlineCmd::BackwardKillPathComponent),
        Some(MoveWordStyle::PathComponents)
    );
    assert_eq!(move_word_style(ReadlineCmd::CapitalizeWord), Some(MoveWordStyle::Punctuation));
    assert_eq!(move_word_style(ReadlineCmd::KillLine), None);

    for (c, left) in [(ReadlineCmd::KillWord, "-b c"), (ReadlineCmd::KillBigword, " c")] {
        let mut r = reader("a-b c");
        r.data.update_buff_pos(CMD, Some(0));
        let mut env = surroundings(5);
        env.words.punctuation = vec![true, false];
        env.words.whitespace = vec![true, true, true, false];
        r.handle_readline_command(c, env, terminal());
        assert_eq!(text(&r), left);
    }
}

#[test]
fn a_killed_line_is_yanked_back() {
    let mut r = reader("one\ntwo");
    r.data.update_buff_pos(CMD, Some(1));
    run(&mut r, ReadlineCmd::KillLine);
    assert_eq!(text(&r), "o\ntwo");
    let mut env = surroundings(5);
    env.yank = r.data.kill_item.clone();
    r.handle_readline_command(ReadlineCmd::Yank, env, terminal());
    assert_eq!(text(&r), "one\ntwo");
    assert_eq!(r.data.command_line.position, 3);
    assert_eq!(r.data.rls.as_ref().unwrap().yank_len, 2);
}

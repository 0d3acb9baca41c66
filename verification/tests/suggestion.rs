use fish_reader::action::Action;
use fish_reader::completion::{CompleteFlags, Completion, CompletionContext};
use fish_reader::data::{EditableLineTag, ReaderConfig, ReaderData, ReadlineLoopState};
use fish_reader::flags::Flag;
use fish_reader::highlight::{HighlightRole, HighlightSpec};
use fish_reader::layout::PaintContext;
use fish_reader::paint::{
    get_highlight_performer, is_recent_flash, FinalHighlight, ScreenState,
};
use fish_reader::suggestion::{
    combine_command_and_autosuggestion, get_autosuggestion_performer,
    string_prefixes_string_maybe_case_insensitive, Autosuggestion, AutosuggestionResult,
    HistoryCandidate, SuggestionSources,
};
use fish_reader::text::WString;

const CMD: EditableLineTag = EditableLineTag::Commandline;

fn w(s: &str) -> WString {
    s.chars().collect()
}

fn screen() -> ScreenState {
    ScreenState { recently_flashed: false, pager_cursor: 0, pager_needs_update: false }
}

fn sources() -> SuggestionSources {
    SuggestionSources {
        cancelled: false,
        process_start: None,
        history: vec![],
        cancelled_after_history: false,
        best: None,
        needs_load: vec![],
    }
}

fn item(s: &str, valid: bool) -> HistoryCandidate {
    HistoryCandidate { text: w(s), valid }
}

fn combine(cmd: &str, suggestion: &str) -> String {
    let cmd = w(cmd);
    let n = cmd.len();
    combine_command_and_autosuggestion(&cmd, 0..n, &w(suggestion), 0..n).iter().collect()
}

fn reader(text: &str, pos: usize) -> ReaderData {
    let mut conf = ReaderConfig::default();
    conf.autosuggest_ok = true;
    conf.highlight_ok = true;
    let mut d = ReaderData::new(w("fish"), conf, Some((w(text), pos)), 0);
    d.rls = Some(ReadlineLoopState::new());
    d
}

#[test]
fn combining_command_and_suggestion() {
    assert_eq!(combine("alpha", "alphabeta"), "alphabeta");
    // When the last token contains no capital letters, we use the case of the autosuggestion.
    assert_eq!(combine("alpha", "ALPHABETA"), "ALPHABETA");
    // When the last token contains capital letters, we use its case.
    assert_eq!(combine("alPha", "alphabeTa"), "alPhabeTa");
    assert_eq!(combine("alpha", "ALPHAA"), "ALPHAA");
    assert_eq!(combine("alpha", "ALPHA"), "ALPHA");
}

#[test]
fn prefixes_up_to_case() {
    assert!(string_prefixes_string_maybe_case_insensitive(false, &w("ab"), &w("abc")));
    assert!(!string_prefixes_string_maybe_case_insensitive(false, &w("AB"), &w("abc")));
    assert!(string_prefixes_string_maybe_case_insensitive(true, &w("AB"), &w("abc")));
    assert!(string_prefixes_string_maybe_case_insensitive(true, &w("É"), &w("éa")));
    assert!(!string_prefixes_string_maybe_case_insensitive(true, &w("abcd"), &w("abc")));
}

#[test]
fn valid_history_items_are_suggested() {
    let mut src = sources();
    src.history = vec![item("git bad", false), item("x\ngit log\ny", true), item("git old", true)];
    let r = get_autosuggestion_performer(w("git"), 3, src);
    assert_eq!(r.autosuggestion.text, w("git log"));
    assert!(!r.autosuggestion.icase);
    assert!(!r.autosuggestion.is_whole_item_from_history);
    assert_eq!(r.search_string(), w("git"));
    let mut src = sources();
    src.history = vec![item("git log", true)];
    let r = get_autosuggestion_performer(w("git"), 3, src);
    assert!(r.autosuggestion.is_whole_item_from_history);
}

#[test]
fn the_line_at_the_cursor_counts() {
    let mut src = sources();
    src.process_start = Some(0);
    src.history = vec![item("b long", true)];
    // The process begins on another line, so that the history is not searched.
    let r = get_autosuggestion_performer(w("a\\\nb"), 4, src);
    assert_eq!(r.autosuggestion.text, w(""));
}

#[test]
fn completions_are_suggested_after_the_history() {
    let mut src = sources();
    src.needs_load = vec![w("ls")];
    src.best = Some((
        Completion {
            completion: w("le.txt"),
            description: w(""),
            flags: CompleteFlags { no_space: true, ..CompleteFlags::empty() },
            rank: 0,
            exact_or_prefix: true,
        },
        CompletionContext {
            cmdsub: 0..5,
            token: 3..5,
            quote_ends: vec![None, None],
            equals_pos: None,
            escaped: w("le.txt"),
            is_dir: false,
        },
    ));
    let r = get_autosuggestion_performer(w("ls fi"), 5, src);
    assert_eq!(r.autosuggestion.text, w("ls file.txt"));
    assert!(r.autosuggestion.icase);
    assert_eq!(r.needs_load, vec![w("ls")]);
}

#[test]
fn nothing_is_suggested_where_it_would_be_odd() {
    assert!(get_autosuggestion_performer(w(""), 0, sources()).command_line.is_empty());
    let mut src = sources();
    src.cancelled = true;
    assert!(get_autosuggestion_performer(w("a"), 1, src).command_line.is_empty());
    let mut src = sources();
    src.cancelled_after_history = true;
    assert!(get_autosuggestion_performer(w("a"), 1, src).command_line.is_empty());
    // A line that ends in a space, with the cursor inside.
    assert!(get_autosuggestion_performer(w("a b "), 1, sources()).command_line.is_empty());
    // Behind a quote.
    assert!(get_autosuggestion_performer(w("a 'b'"), 5, sources()).command_line.is_empty());
    assert_eq!(get_autosuggestion_performer(w("a b"), 3, sources()).command_line, w("a b"));
}

#[test]
fn suggestions_are_asked_for_once() {
    let mut d = reader("ec", 2);
    d.update_autosuggestion();
    assert!(matches!(&d.actions[..], [Action::Autosuggest { command_line, position: 2 }] if *command_line == w("ec")));
    d.update_autosuggestion();
    assert_eq!(d.actions.len(), 1);
    d.autosuggest_completed(
        AutosuggestionResult::new(w("ec"), 0..2, w("echo"), false, true),
        false,
        screen(),
    );
    assert_eq!(d.autosuggestion.text, w("echo"));
    assert!(d.is_at_line_with_autosuggestion());
    assert!(d.is_at_autosuggestion());
}

#[test]
fn outdated_suggestions_are_dropped() {
    let mut d = reader("ec", 2);
    d.update_autosuggestion();
    d.insert_char(CMD, 'x');
    d.autosuggest_completed(
        AutosuggestionResult::new(w("ec"), 0..2, w("echo"), false, true),
        false,
        screen(),
    );
    assert!(d.autosuggestion.is_empty());
}

#[test]
fn no_suggestions_when_they_are_off() {
    let mut d = reader("ec", 2);
    assert!(d.can_autosuggest());
    d.conf.autosuggest_ok = false;
    assert!(!d.can_autosuggest());
    let mut d = reader("ec", 2);
    d.flags.set(Flag::SuppressAutosuggestion, true);
    assert!(!d.can_autosuggest());
    let d = reader("  ", 2);
    assert!(!d.can_autosuggest());
}

#[test]
fn highlighting_is_asked_for_and_applied() {
    let mut d = reader("ab", 2);
    d.super_highlight_me_plenty();
    assert!(matches!(&d.actions[..], [Action::Highlight { position: 2, .. }]));
    assert_eq!(d.finish_highlighting_before_exec(), FinalHighlight::Wait);
    let color = HighlightSpec::with_fg(HighlightRole::Other(3));
    d.highlight_complete(get_highlight_performer(w("ab"), vec![color, color]), screen());
    assert_eq!(d.command_line.colors, vec![color, color]);
    d.insert_char(CMD, 'c');
    assert_eq!(d.command_line.colors[2], color);
    assert_eq!(d.finish_highlighting_before_exec(), FinalHighlight::WithoutIo);
    d.conf.highlight_ok = false;
    assert_eq!(d.finish_highlighting_before_exec(), FinalHighlight::Done);
}

fn paint_context(n: usize) -> PaintContext {
    PaintContext { last_token: 0..n, indents: vec![0; n], obfuscation: '*', explicit_foreground: false }
}

#[test]
fn painting_shows_the_suggestion() {
    let mut d = reader("ec", 2);
    d.autosuggestion = Autosuggestion {
        text: w("echo"),
        search_string_range: 0..2,
        icase: false,
        is_whole_item_from_history: false,
    };
    d.left_prompt_buff = w("> ");
    d.mode_prompt_buff = w("[I]");
    d.layout_and_repaint(screen());
    let Some(Action::Paint(p)) = d.actions.last() else { panic!() };
    let out = p.paint(&paint_context(2));
    assert_eq!(out.full_line, w("echo"));
    assert_eq!(out.autosuggested_range, 2..4);
    assert_eq!(out.left_prompt, w("[I]> "));
    assert_eq!(out.colors.len(), 4);
    assert_eq!(out.colors[3], HighlightSpec::with_fg(HighlightRole::Autosuggestion));
    assert_eq!(out.indents, vec![0; 4]);
    assert_eq!(out.cursor_position, 2);
    assert!(!out.is_final_rendering);
}

#[test]
fn silent_mode_shows_nothing_of_the_text() {
    let mut d = reader("secret", 6);
    d.conf.in_silent_mode = true;
    d.layout_and_repaint_before_execution(screen());
    let Some(Action::Paint(p)) = d.actions.last() else { panic!() };
    let out = p.paint(&paint_context(6));
    assert_eq!(out.full_line, w("******"));
    assert!(out.is_final_rendering);
}

#[test]
fn selection_is_painted_over_search_matches() {
    let mut d = reader("abcd", 4);
    d.begin_selection();
    d.update_buff_pos(CMD, Some(2));
    d.layout_and_repaint(screen());
    let Some(Action::Paint(p)) = d.actions.last() else { panic!() };
    let out = p.paint(&paint_context(4));
    assert_eq!(out.colors[2], HighlightSpec::with_both(HighlightRole::Selection));
    assert_ne!(out.colors[1], HighlightSpec::with_both(HighlightRole::Selection));
}

#[test]
fn repaints_only_when_something_changed() {
    let mut d = reader("ab", 2);
    assert!(d.is_repaint_needed(None, screen()));
    d.layout_and_repaint(screen());
    assert!(!d.is_repaint_needed(None, screen()));
    d.update_buff_pos(CMD, Some(1));
    assert!(d.is_repaint_needed(None, screen()));
    d.layout_and_repaint(screen());
    d.flags.set(Flag::ForceExecPromptAndRepaint, true);
    assert!(d.is_repaint_needed(None, screen()));
    d.flags.set(Flag::ForceExecPromptAndRepaint, false);
    let other = vec![HighlightSpec::with_fg(HighlightRole::Other(1)); 2];
    assert!(d.is_repaint_needed(Some(&other), screen()));
    assert!(d.is_repaint_needed(None, ScreenState { pager_needs_update: true, ..screen() }));
}

#[test]
fn flashing_paints_twice() {
    let mut d = reader("abc", 3);
    d.flash(0..3, screen());
    let actions = d.take_actions();
    assert_eq!(actions.len(), 4);
    let Action::Paint(bright) = &actions[0] else { panic!() };
    assert_eq!(bright.layout.colors[0].background, HighlightRole::SearchMatch);
    assert!(matches!(actions[1], Action::Sleep { milliseconds: 100 }));
    let Action::Paint(plain) = &actions[2] else { panic!() };
    assert_eq!(plain.layout.colors[0].background, HighlightRole::Normal);
    assert!(matches!(actions[3], Action::NoteFlash));
    assert!(is_recent_flash(Some(49)));
    assert!(!is_recent_flash(Some(50)));
    assert!(!is_recent_flash(None));
}

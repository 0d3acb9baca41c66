use fish_reader::action::{Action, HistoryPagerInvocation, HistoryPagerRequest};
use fish_reader::completion::CompletionContext;
use fish_reader::data::{
    EditableLineTag, ReaderConfig, ReaderData, ReadlineLoopState, TransientEdit,
};
use fish_reader::history_pager::{
    history_page_size, history_pager_search, matches_to_skip, wants_subsequence_search,
    HistoryPagerResult, PageRun, PageSearch,
};
use fish_reader::import::{bash_history_path, import_history_if_necessary, ImportStep};
use fish_reader::pager::{PageSelection, Progress, SelectionMotion};
use fish_reader::paint::ScreenState;
use fish_reader::recall::{get_history_pager_prefix, SearchAnswers};
use fish_reader::search::{ReaderHistorySearch, SearchDirection, SearchMatch, SearchMode};
use fish_reader::text::WString;

const CMD: EditableLineTag = EditableLineTag::Commandline;

fn w(s: &str) -> WString {
    s.chars().collect()
}

fn screen() -> ScreenState {
    ScreenState { recently_flashed: true, pager_cursor: 0, pager_needs_update: false }
}

fn reader(text: &str) -> ReaderData {
    let n = text.chars().count();
    let mut d = ReaderData::new(w("fish"), ReaderConfig::default(), Some((w(text), n)), 0);
    d.rls = Some(ReadlineLoopState::new());
    d
}

fn found(text: &str) -> SearchMatch {
    SearchMatch { text: w(text), range: 0..0 }
}

fn answers(next: Option<&str>) -> SearchAnswers {
    SearchAnswers {
        token: 0..0,
        result_token: 0..0,
        next: next.map(found),
        suggestion_truncated: false,
    }
}

fn text(d: &ReaderData) -> String {
    d.command_line.text.iter().collect()
}

#[test]
fn results_are_saved_and_reused() {
    let mut s = ReaderHistorySearch::new();
    assert!(!s.active());
    s.reset_to_mode(w("git"), SearchMode::Line, 0);
    assert!(s.active() && s.is_at_present());
    assert!(s.move_in_direction(SearchDirection::Backward, Some(found("git b"))));
    assert!(s.move_in_direction(SearchDirection::Backward, Some(found("git a"))));
    assert_eq!(s.current_result(), w("git a"));
    assert!(s.move_in_direction(SearchDirection::Forward, None));
    assert_eq!(s.current_result(), w("git b"));
    // The saved result is used, not what searching would find.
    assert!(s.move_in_direction(SearchDirection::Backward, Some(found("other"))));
    assert_eq!(s.current_result(), w("git a"));
    assert!(!s.move_in_direction(SearchDirection::Backward, None));
    s.go_to_present();
    assert_eq!(s.current_result(), w("git"));
    assert!(!s.move_in_direction(SearchDirection::Forward, None));
    s.go_to_oldest(vec![found("git 0")]);
    assert_eq!(s.current_result(), w("git 0"));
    s.reset();
    assert!(!s.active());
}

#[test]
fn searching_and_cancelling() {
    let mut d = reader("git");
    let back = SearchDirection::Backward;
    d.search_history(SearchMode::Line, back, answers(Some("git log")), screen());
    assert_eq!(text(&d), "git log");
    assert_eq!(d.command_line_transient_edit, Some(TransientEdit::HistorySearch));
    d.search_history(SearchMode::Line, back, answers(Some("git diff")), screen());
    assert_eq!(text(&d), "git diff");
    d.search_history(SearchMode::Line, SearchDirection::Forward, answers(None), screen());
    assert_eq!(text(&d), "git log");
    d.clear_transient_edit();
    assert_eq!(text(&d), "git");
}

#[test]
fn prefix_search_keeps_the_cursor() {
    let mut d = reader("git");
    d.search_history(
        SearchMode::Prefix,
        SearchDirection::Backward,
        answers(Some("git log")),
        screen(),
    );
    assert_eq!(text(&d), "git log");
    assert_eq!(d.command_line.position, 3);
}

#[test]
fn token_search_replaces_the_token() {
    let mut d = reader("ls fi");
    let mut a = answers(Some("file"));
    a.token = 3..5;
    a.result_token = 3..5;
    d.search_history(SearchMode::Token, SearchDirection::Backward, a, screen());
    assert_eq!(text(&d), "ls file");
    assert_eq!(d.history_search.search_string, w("fi"));
    assert_eq!(d.history_search.token_offset, 3);
}

#[test]
fn a_search_in_vain_ends() {
    let mut d = reader("git");
    d.search_history(SearchMode::Line, SearchDirection::Backward, answers(None), screen());
    assert_eq!(text(&d), "git");
    assert!(!d.history_search.active());
    assert!(matches!(d.actions.last(), Some(Action::NoteFlash)));
}

#[test]
fn the_ends_of_the_history() {
    let mut d = reader("git");
    d.search_history(
        SearchMode::Line,
        SearchDirection::Backward,
        answers(Some("git c")),
        screen(),
    );
    d.go_to_end_of_history(true, vec![found("git b"), found("git a")], 0..0);
    assert_eq!(text(&d), "git a");
    d.go_to_end_of_history(false, vec![], 0..0);
    assert_eq!(text(&d), "git");
    let mut d = reader("x");
    d.go_to_end_of_history(true, vec![], 0..0);
    assert_eq!(text(&d), "x");
}

#[test]
fn deleting_a_result() {
    let mut d = reader("git");
    d.search_history(
        SearchMode::Line,
        SearchDirection::Backward,
        answers(Some("git c")),
        screen(),
    );
    d.delete_history_item(Some(found("git b")), 0..0, screen());
    assert!(d.actions.iter().any(|a| matches!(a, Action::RemoveFromHistory(t) if *t == w("git c"))));
    assert_eq!(text(&d), "git b");
}

#[test]
fn page_sizes() {
    assert_eq!(history_page_size(100), 48);
    assert_eq!(history_page_size(10), 12);
    assert_eq!(history_page_size(0), 12);
    assert_eq!(history_page_size(30), 13);
    assert_eq!(history_page_size(-7), 12);
    assert_eq!(history_page_size(i32::MIN), 12);
    assert_eq!(matches_to_skip(SearchDirection::Forward, 12), 12);
    assert_eq!(matches_to_skip(SearchDirection::Backward, 12), 0);
    assert!(wants_subsequence_search(false, false));
    assert!(!wants_subsequence_search(true, false));
    assert!(!wants_subsequence_search(false, true));
}

#[test]
fn pages_are_cut_out_of_the_matches() {
    let run = PageRun {
        first_index: 0,
        first_shown: 1,
        items: vec![w("a"), w("b"), w("c")],
        indices: vec![1, 2, 3, 4],
    };
    match history_pager_search(&run, 2, None, 9) {
        PageSearch::Page(p) => {
            assert_eq!(p.matched_commands.len(), 2);
            assert_eq!(p.matched_commands[1].completion, w("b"));
            assert!(p.matched_commands[0].flags.replaces_line);
            assert!(p.matched_commands[0].flags.dont_escape);
            assert_eq!(p.range, 0..3);
        }
        _ => panic!(),
    }
    let none = PageRun { first_index: 5, first_shown: 6, items: vec![], indices: vec![10] };
    assert!(matches!(
        history_pager_search(&none, 2, None, 9),
        PageSearch::Again {
            direction: SearchDirection::Forward,
            motion: Some(SelectionMotion::Prev),
            index: 10
        }
    ));
    let nothing = PageRun { first_index: 0, first_shown: 0, items: vec![], indices: vec![10] };
    assert!(matches!(history_pager_search(&nothing, 2, None, 9), PageSearch::Page(_)));
}

#[test]
fn the_history_pager_opens_and_fills() {
    let mut d = reader("git l");
    d.open_history_pager(9, get_history_pager_prefix(true), &w("git l"), screen());
    assert!(d.history_pager.is_some());
    assert!(d.pager.search_field_shown);
    assert_eq!(d.pager.search_field_line.text, w("git l"));
    assert_eq!(d.active_edit_line_tag(), EditableLineTag::SearchField);
    assert!(d.actions.iter().any(|a| matches!(
        a,
        Action::FillHistoryPager(HistoryPagerRequest { why: HistoryPagerInvocation::Anew, .. })
    )));
    d.take_actions();
    let request = HistoryPagerRequest {
        why: HistoryPagerInvocation::Anew,
        motion: Some(SelectionMotion::Next),
        direction: SearchDirection::Backward,
        index: 0,
        old_pager_index: None,
    };
    let page = |n: usize| HistoryPagerResult {
        matched_commands: match history_pager_search(
            &PageRun { first_index: 0, first_shown: 1, items: vec![w("git log")], indices: vec![1, n] },
            5,
            None,
            9,
        ) {
            PageSearch::Page(p) => p.matched_commands,
            _ => panic!(),
        },
        range: 0..n,
        first_shown: 1,
        motion: Some(SelectionMotion::Next),
    };
    d.history_page_ready(page(4), &w("other"), request, 9);
    assert!(d.actions.is_empty());
    d.history_page_ready(page(4), &w("git l"), request, 9);
    assert_eq!(d.pager.completions.len(), 1);
    assert_eq!(d.pager.extra_progress, Some(Progress { from: 1, to: 3, total: 9 }));
    assert_eq!(d.history_pager, Some(0..4));
    assert!(matches!(
        d.actions[..],
        [Action::MoveSelection { motion: SelectionMotion::Next, force: true }, Action::ShowHistoryPager]
    ));
    d.clear_pager();
    assert!(d.history_pager.is_none());
    d.take_actions();
    d.history_page_ready(page(4), &w(""), request, 9);
    assert!(d.actions.is_empty());
}

#[test]
fn advancing_asks_for_the_next_page() {
    let mut d = reader("");
    d.open_history_pager(9, get_history_pager_prefix(false), &w(""), screen());
    d.take_actions();
    d.history_pager = Some(3..7);
    d.fill_history_pager(
        HistoryPagerInvocation::Advance,
        Some(SelectionMotion::Next),
        SearchDirection::Backward,
    );
    d.fill_history_pager(
        HistoryPagerInvocation::Advance,
        Some(SelectionMotion::Prev),
        SearchDirection::Forward,
    );
    let index = |a: &Action| match a {
        Action::FillHistoryPager(r) => r.index,
        _ => panic!(),
    };
    assert_eq!(index(&d.actions[0]), 6);
    assert_eq!(index(&d.actions[1]), 4);
}

#[test]
fn the_search_field_toggles() {
    let mut d = reader("");
    d.pager.completions = match history_pager_search(
        &PageRun { first_index: 0, first_shown: 1, items: vec![w("a")], indices: vec![1, 2] },
        5,
        None,
        1,
    ) {
        PageSearch::Page(p) => p.matched_commands,
        _ => panic!(),
    };
    d.toggle_pager_search(screen());
    assert!(d.pager.search_field_shown);
    d.insert_string(EditableLineTag::SearchField, &w("x"));
    assert!(d.actions.iter().any(|a| matches!(a, Action::RefilterPager)));
}

#[test]
fn selecting_a_history_item_replaces_the_line() {
    let mut d = reader("old");
    d.cycle_command_line = w("old");
    d.cycle_cursor_pos = 3;
    let run = PageRun { first_index: 0, first_shown: 1, items: vec![w("new one")], indices: vec![1, 2] };
    let PageSearch::Page(mut p) = history_pager_search(&run, 5, None, 1) else { panic!() };
    let ctx = CompletionContext {
        cmdsub: 0..3,
        token: 0..3,
        quote_ends: vec![None; 3],
        equals_pos: None,
        escaped: w(""),
        is_dir: false,
    };
    d.pager_refiltered(
        PageSelection { index: Some(0), completion: p.matched_commands.pop() },
        &ctx,
    );
    assert_eq!(text(&d), "new one");
    assert!(d.undo(CMD));
    assert_eq!(text(&d), "old");
}

#[test]
fn empty_history_is_filled() {
    assert_eq!(import_history_if_necessary(None, true, true), ImportStep::ConfigPath);
    assert_eq!(import_history_if_necessary(None, true, false), ImportStep::ConfigPath);
    assert_eq!(import_history_if_necessary(None, false, true), ImportStep::Done);
    let tried = Some(ImportStep::ConfigPath);
    assert_eq!(import_history_if_necessary(tried, true, true), ImportStep::Bash);
    assert_eq!(import_history_if_necessary(tried, true, false), ImportStep::Done);
    assert_eq!(import_history_if_necessary(tried, false, true), ImportStep::Done);
    assert_eq!(import_history_if_necessary(Some(ImportStep::Bash), true, true), ImportStep::Done);
    assert_eq!(bash_history_path(None), w("~/.bash_history"));
    assert_eq!(bash_history_path(Some(w("/h"))), w("/h"));
}

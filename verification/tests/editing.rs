use fish_reader::action::Action;
use fish_reader::command::ReadlineCmd;
use fish_reader::cursor::TokenExtent;
use fish_reader::data::{
    CursorEndMode, CursorSelectionMode, EditableLineTag, Kill, ReaderConfig, ReaderData,
    ReadlineLoopState, TransientEdit,
};
use fish_reader::flags::Flag;
use fish_reader::line::{Edit, EditableLine};
use fish_reader::paint::ScreenState;
use fish_reader::rewrite::CaseChange;
use fish_reader::text::WString;

const CMD: EditableLineTag = EditableLineTag::Commandline;

fn w(s: &str) -> WString {
    s.chars().collect()
}

fn reader(text: &str, pos: usize) -> ReaderData {
    let mut d = ReaderData::new(w("fish"), ReaderConfig::default(), Some((w(text), pos)), 0);
    d.rls = Some(ReadlineLoopState::new());
    d
}

fn screen() -> ScreenState {
    ScreenState { recently_flashed: true, pager_cursor: 0, pager_needs_update: false }
}

fn text(d: &ReaderData) -> String {
    d.command_line.text.iter().collect()
}

#[test]
fn typing_is_undone_word_by_word() {
    let mut line = EditableLine::new();
    for c in "ab cd".chars() {
        let pos = line.position;
        line.push_edit(Edit::new(pos..pos, vec![c]), true);
    }
    assert_eq!(line.text, w("ab cd"));
    assert!(line.undo());
    assert_eq!(line.text, w("ab"));
    assert_eq!(line.position, 2);
    assert!(line.undo());
    assert_eq!(line.text, w(""));
    assert!(!line.undo());
    assert!(line.redo());
    assert!(line.redo());
    assert_eq!(line.text, w("ab cd"));
    assert!(!line.redo());
}

#[test]
fn groups_are_undone_together() {
    let mut line = EditableLine::new();
    line.push_edit(Edit::new(0..0, w("x")), false);
    line.begin_edit_group();
    line.push_edit(Edit::new(1..1, w("yy")), false);
    line.push_edit(Edit::new(0..1, w("z")), false);
    line.end_edit_group();
    assert_eq!(line.text, w("zyy"));
    assert!(line.undo());
    assert_eq!(line.text, w("x"));
    assert!(line.redo());
    assert_eq!(line.text, w("zyy"));
}

#[test]
fn undo_and_redo_restore_text_and_cursor() {
    let mut d = reader("hello world", 3);
    d.replace_substring(CMD, 0..5, w("bye"));
    assert_eq!(text(&d), "bye world");
    assert!(d.undo(CMD));
    assert_eq!(text(&d), "hello world");
    assert_eq!(d.command_line.position, 3);
    assert!(d.redo(CMD));
    assert_eq!(text(&d), "bye world");
    assert!(!d.redo(CMD));
}

#[test]
fn every_change_makes_a_generation() {
    let mut d = reader("a", 1);
    assert_eq!(d.generation, 0);
    d.insert_char(CMD, 'b');
    assert_eq!(d.generation, 1);
    d.undo(CMD);
    assert_eq!(d.generation, 2);
    d.redo(CMD);
    assert_eq!(d.generation, 3);
    d.generation = u32::MAX;
    d.insert_char(CMD, 'c');
    assert_eq!(d.generation, 0);
}

#[test]
fn kills_add_up_and_come_back() {
    let mut d = reader("one two three", 4);
    d.kill(CMD, 4..8, Kill::Append, true);
    assert_eq!(text(&d), "one three");
    assert_eq!(d.kill_item, w("two "));
    d.kill(CMD, 4..9, Kill::Append, false);
    assert_eq!(d.kill_item, w("two three"));
    d.kill(CMD, 0..4, Kill::Prepend, false);
    assert_eq!(d.kill_item, w("one two three"));
    let actions = d.take_actions();
    assert_eq!(actions.len(), 3);
    assert!(matches!(&actions[0], Action::KillAdd(t) if *t == w("two ")));
    assert!(
        matches!(&actions[2], Action::KillReplace { old, new } if *old == w("two three") && *new == w("one two three"))
    );
    d.yank(&w("one two three"));
    assert_eq!(text(&d), "one two three");
    assert!(d.actions.is_empty());
}

#[test]
fn killing_to_the_ends_of_the_line() {
    let mut d = reader("ab\ncd ef\ngh", 5);
    d.kill_line();
    assert_eq!(text(&d), "ab\ncd\ngh");
    assert_eq!(d.kill_item, w(" ef"));
    d.kill_line();
    assert_eq!(text(&d), "ab\ncdgh");
    let mut d = reader("ab\ncd ef", 5);
    d.backward_kill_line();
    assert_eq!(text(&d), "ab\n ef");
    assert_eq!(d.kill_item, w("cd"));
    d.backward_kill_line();
    assert_eq!(text(&d), "ab ef");
}

#[test]
fn killing_whole_lines() {
    let mut d = reader("ab\ncd\nef", 4);
    d.kill_whole_line(true);
    assert_eq!(text(&d), "ab\nef");
    let mut d = reader("ab\ncd\nef", 4);
    d.kill_whole_line(false);
    assert_eq!(text(&d), "ab\n\nef");
}

#[test]
fn yank_pop_exchanges_the_yanked_text() {
    let mut d = reader("ab", 1);
    d.yank(&w("XY"));
    assert_eq!(text(&d), "aXYb");
    d.yank_pop(w("123"));
    assert_eq!(text(&d), "a123b");
    d.yank_pop(w(""));
    assert_eq!(text(&d), "ab");
    d.yank_pop(w("none"));
    assert_eq!(text(&d), "ab");
}

#[test]
fn transposing_characters() {
    let mut d = reader("abc", 1);
    d.transpose_chars();
    assert_eq!(text(&d), "bac");
    assert_eq!(d.command_line.position, 2);
    let mut d = reader("abc", 3);
    d.transpose_chars();
    assert_eq!(text(&d), "acb");
    let mut d = reader("a", 1);
    d.transpose_chars();
    assert_eq!(text(&d), "a");
}

#[test]
fn transposing_words() {
    let mut d = reader("ls  file", 5);
    let t = TokenExtent { token: 4..8, previous: 0..2, previous_cmdsub_start: 0 };
    let r = TokenExtent { token: 4..8, previous: 0..2, previous_cmdsub_start: 0 };
    d.transpose_words(&t, &r);
    assert_eq!(text(&d), "file  ls");
    assert_eq!(d.command_line.position, 8);
}

#[test]
fn changing_case() {
    let mut d = reader("straße x", 0);
    d.change_case_of_word(CaseChange::Upper, &[true; 6]);
    assert_eq!(text(&d), "STRASSE x");
    let mut d = reader("hELLO", 0);
    d.change_case_of_word(CaseChange::Capitalize, &[true; 5]);
    assert_eq!(text(&d), "Hello");
    let mut d = reader("HELLO", 0);
    d.change_case_of_word(CaseChange::Lower, &[true; 5]);
    assert_eq!(text(&d), "hello");
    let mut d = reader("aB", 0);
    d.togglecase_char();
    d.update_buff_pos(CMD, Some(1));
    d.togglecase_char();
    assert_eq!(text(&d), "Ab");
}

#[test]
fn selections_follow_the_cursor() {
    let mut d = reader("hello", 1);
    d.begin_selection();
    assert_eq!(d.get_selection(), None);
    d.update_buff_pos(CMD, Some(4));
    assert_eq!(d.get_selection(), Some(1..4));
    d.swap_selection_start_stop();
    assert_eq!(d.command_line.position, 1);
    assert_eq!(d.get_selection(), Some(1..4));
    d.swap_selection_start_stop();
    assert_eq!(d.command_line.position, 4);
    d.change_case_of_selection(CaseChange::Toggle);
    assert_eq!(text(&d), "hELLo");
    d.kill_selection();
    assert_eq!(text(&d), "ho");
    assert_eq!(d.kill_item, w("ELL"));
}

#[test]
fn inclusive_selection_covers_the_cursor() {
    let mut d = reader("hello", 1);
    d.cursor_selection_mode = CursorSelectionMode::Inclusive;
    d.begin_selection();
    assert_eq!(d.get_selection(), Some(1..2));
    d.update_buff_pos(CMD, Some(0));
    assert_eq!(d.get_selection(), Some(0..2));
}

#[test]
fn inclusive_cursor_does_not_go_behind_the_text() {
    let mut d = reader("hello", 0);
    d.cursor_end_mode = CursorEndMode::Inclusive;
    assert!(d.update_buff_pos(CMD, Some(5)));
    assert_eq!(d.command_line.position, 4);
    assert!(!d.update_buff_pos(CMD, Some(5)));
    assert_eq!(d.command_line.position, 4);
    assert!(d.update_buff_pos(CMD, Some(2)));
    assert_eq!(d.command_line.position, 2);
}

#[test]
fn crossing_lines_holds_off_suggestions() {
    let mut d = reader("a\nb", 0);
    d.update_buff_pos(CMD, Some(1));
    assert!(!d.flags.get(Flag::SuppressAutosuggestion));
    d.update_buff_pos(CMD, Some(3));
    assert!(d.flags.get(Flag::SuppressAutosuggestion));
    d.insert_char(CMD, 'x');
    assert!(!d.flags.get(Flag::SuppressAutosuggestion));
}

#[test]
fn opening_lines() {
    let mut d = reader("ab\ncd", 1);
    d.insert_line_under();
    assert_eq!(text(&d), "ab\n\ncd");
    assert_eq!(d.command_line.position, 3);
    let mut d = reader("ab\ncd", 4);
    d.insert_line_over();
    assert_eq!(text(&d), "ab\n\ncd");
    assert_eq!(d.command_line.position, 3);
}

#[test]
fn deleting_composed_characters() {
    // An e with two combining accents: deleting backwards takes them with it.
    let mut d = reader("xe\u{301}\u{302}", 4);
    d.delete_char(true, &[1, 1, 0, 0]);
    assert_eq!(text(&d), "x");
    let mut d = reader("abc", 1);
    d.delete_char(false, &[1, 1, 1]);
    assert_eq!(text(&d), "ac");
    assert_eq!(d.command_line.position, 1);
    let mut d = reader("abc", 0);
    d.delete_char(true, &[1, 1, 1]);
    assert_eq!(text(&d), "abc");
}

#[test]
fn transient_edits_are_taken_back() {
    let mut d = reader("ab", 2);
    d.set_buffer_maintaining_pager(&w("shown"), 3);
    d.command_line_transient_edit = Some(TransientEdit::Pager);
    assert_eq!(d.command_line.position, 3);
    d.clear_transient_edit();
    assert_eq!(text(&d), "ab");
    assert!(d.command_line_transient_edit.is_none());
    d.clear_transient_edit();
    assert_eq!(text(&d), "ab");
}

#[test]
fn setting_the_buffer_clamps_the_cursor() {
    let mut d = reader("ab", 2);
    d.set_buffer_maintaining_pager(&w("xyz"), 99);
    assert_eq!(d.command_line.position, 3);
    d.set_command_line_and_position(CMD, w("q"), 0);
    assert_eq!(text(&d), "q");
    assert_eq!(d.command_line.position, 0);
    d.clear(CMD);
    assert_eq!(text(&d), "");
    let n = d.command_line.undo_stack.len();
    d.clear(CMD);
    assert_eq!(d.command_line.undo_stack.len(), n);
}

#[test]
fn undo_without_edits_flashes() {
    let mut d = ReaderData::new(w("fish"), ReaderConfig::default(), None, 0);
    d.rls = Some(ReadlineLoopState::new());
    d.undo_or_redo(true, screen());
    assert!(matches!(d.take_actions()[..], [Action::NoteFlash]));
    assert!(!d.insert_string(CMD, &w("")));
    assert!(d.insert_string(CMD, &w("abc")));
    let now = ScreenState { recently_flashed: false, ..screen() };
    d.undo_or_redo(false, now);
    assert!(d.actions.iter().any(|a| matches!(a, Action::Sleep { milliseconds: 100 })));
    d.undo_or_redo(true, now);
    assert_eq!(text(&d), "");
}

#[test]
fn repeated_kills_make_one_item() {
    let mut d = reader("a\nb\nc", 0);
    d.kill_line();
    d.rls.as_mut().unwrap().last_cmd = Some(ReadlineCmd::KillLine);
    d.kill_line();
    assert_eq!(d.kill_item, w("a\n"));
    d.rls.as_mut().unwrap().last_cmd = None;
    d.kill_line();
    assert_eq!(d.kill_item, w("b"));
}

use fish_reader::action::Action;
use fish_reader::command::ReadlineCmd;
use fish_reader::completion::{CompleteFlags, Completion};
use fish_reader::data::{CursorEndMode, CursorSelectionMode, EditableLineTag, ReaderConfig};
use fish_reader::event::{TerminalKind, TerminalState};
use fish_reader::flags::Flag;
use fish_reader::paging::CharOffset;
use fish_reader::paint::ScreenState;
use fish_reader::search::SearchMode;
use fish_reader::state::CommandlineState;
use fish_reader::text::WString;
use fish_reader::world::{check_bool_var, interactive_config, ExitPhase, World};

const CMD: EditableLineTag = EditableLineTag::Commandline;

fn w(s: &str) -> WString {
    s.chars().collect()
}

fn screen() -> ScreenState {
    ScreenState { recently_flashed: true, pager_cursor: 0, pager_needs_update: false }
}

fn terminal() -> TerminalState {
    TerminalState {
        stdout_is_tty: true,
        scroll_forward_supported: false,
        kitty_unknown: false,
        clicked: CharOffset::Elsewhere,
    }
}

fn world() -> World {
    let mut world = World::new();
    assert!(world.reader_push(w("fish"), ReaderConfig::default()));
    world
}

#[test]
fn a_buffer_that_is_set_is_read_back() {
    let mut world = world();
    world.commandline_set_buffer(Some(w("hello")), Some(2));
    let state = world.commandline_get_state(true);
    assert_eq!(state.text, w("hello"));
    assert_eq!(state.cursor_pos, 2);
    assert_eq!(state.history, Some(w("fish")));
    assert!(world.current_data().unwrap().flags.get(Flag::ResetLoopState));
    world.commandline_set_buffer(None, None);
    assert_eq!(world.commandline_get_state(true).cursor_pos, 5);
    world.commandline_set_buffer(Some(w("x")), Some(99));
    assert_eq!(world.commandline_get_state(true).cursor_pos, 1);
    world.commandline_set_buffer(Some(w("")), None);
    assert_eq!(world.commandline_get_state(true).text, w(""));
}

#[test]
fn a_readonly_command_line_stays() {
    let mut world = world();
    world.commandline_set_buffer(Some(w("hello")), None);
    world.parser.readonly_commandline = true;
    world.commandline_set_buffer(Some(w("bye")), None);
    world.commandline_set_search_field(w("bye"), None);
    assert_eq!(
        world.reader_execute_readline_cmd(ReadlineCmd::KillLine, screen(), terminal()),
        None
    );
    assert_eq!(world.commandline_get_state(true).text, w("hello"));
}

#[test]
fn the_snapshot_reflects_the_reader() {
    let mut world = world();
    assert_eq!(world.commandline_get_state(false).history, None);
    let data = world.current_data().unwrap();
    data.insert_string(CMD, &w("abc"));
    data.begin_selection();
    data.update_buff_pos(CMD, Some(1));
    data.pager.search_field_shown = true;
    assert_eq!(world.commandline_get_state(false).text, w(""));
    let state = world.commandline_get_state(true);
    assert_eq!(state.text, w("abc"));
    assert_eq!(state.selection, Some(1..3));
    assert_eq!(state.search_field, Some((w(""), 0)));
    assert!(!state.pager_mode);
    assert!(state.pager_fully_disclosed);
    assert!(!state.search_mode);
    let copy: CommandlineState = state.clone();
    assert_eq!(copy.text, state.text);
    assert_eq!(CommandlineState::default().cursor_pos, 0);

    // A search counts where the pager is visible.
    let data = world.current_data().unwrap();
    data.history_search.reset_to_mode(w("a"), SearchMode::Line, 0);
    assert!(!world.commandline_get_state(true).search_mode);
    let item = Completion {
        completion: w("a"),
        description: w(""),
        flags: CompleteFlags::empty(),
        rank: 0,
        exact_or_prefix: true,
    };
    world.current_data().unwrap().pager.completions.push(item);
    assert!(world.commandline_get_state(true).search_mode);
}

#[test]
fn the_search_field_can_be_set() {
    let mut world = world();
    world.current_data().unwrap().pager.search_field_shown = true;
    world.commandline_get_state(true);
    world.commandline_set_search_field(w("needle"), Some(3));
    let field = &world.current_data().unwrap().pager.search_field_line;
    assert_eq!(field.text, w("needle"));
    assert_eq!(field.position, 3);
}

#[test]
fn nested_readers_return() {
    let mut world = world();
    world.commandline_set_buffer(Some(w("outer")), None);
    let generation = world.read_generation_count();
    assert!(!world.reader_push(w(""), ReaderConfig::default()));
    assert_eq!(world.commandline_get_state(true).text, w(""));
    assert!(world.read_generation_count() > generation);
    world.commandline_set_buffer(Some(w("inner")), None);
    let generation = world.read_generation_count();
    assert!(!world.reader_pop());
    assert_eq!(world.read_generation_count(), generation);
    assert_eq!(world.commandline_get_state(true).text, w("outer"));
    assert!(matches!(
        world.current_data().unwrap().actions.last(),
        Some(Action::ResetAbandoningLine)
    ));
    assert!(world.reader_pop());
    assert!(world.current_data().is_none());
    assert_eq!(world.commandline_get_state(true).text, w(""));
    assert_eq!(world.read_generation_count(), generation);
}

#[test]
fn the_first_reader_takes_over_the_snapshot() {
    let mut world = World::new();
    world.commandline_set_buffer(Some(w("typed early")), Some(5));
    world.reader_push(w("fish"), ReaderConfig::default());
    let data = world.current_data().unwrap();
    assert_eq!(data.command_line.text, w("typed early"));
    assert_eq!(data.command_line.position, 5);
}

#[test]
fn interrupts_are_reported_once() {
    let mut world = world();
    assert_eq!(world.reader_test_and_clear_interrupted(), 0);
    world.reader_handle_sigint();
    assert_eq!(world.reader_test_and_clear_interrupted(), libc::SIGINT);
    assert_eq!(world.reader_test_and_clear_interrupted(), 0);
    world.reader_handle_sigint();
    world.reader_reset_interrupted();
    assert_eq!(world.reader_reading_interrupted(), 0);
    world.reader_handle_sigint();
    assert_eq!(world.reader_reading_interrupted(), libc::SIGINT);
    world.current_data().unwrap().conf.exit_on_interrupt = true;
    assert!(world.reader_in_interactive_read());
    world.reader_handle_sigint();
    assert_eq!(world.reader_reading_interrupted(), libc::SIGINT);
    assert!(world.current_data().unwrap().flags.get(Flag::ExitLoopRequested));
    assert_eq!(world.reader_reading_interrupted(), 0);
}

#[test]
fn a_hangup_forces_the_exit() {
    let mut world = world();
    assert!(!world.check_exit_loop_maybe_warning(true));
    assert!(!world.fish_is_unwinding_for_exit());
    world.reader_sighup();
    assert!(world.fish_is_unwinding_for_exit());
    assert!(world.check_exit_loop_maybe_warning(true));
    assert!(!world.begin_round(true));
    assert!(world.redirect_tty_after_sighup());
    assert!(!world.redirect_tty_after_sighup());
    world.reader_pop();
    assert!(world.check_exit_loop_maybe_warning(false));
    assert!(world.begin_exit());
    assert_eq!(world.exit_phase, ExitPhase::RunningHandlers);
    assert!(!world.fish_is_unwinding_for_exit());
    world.exit_handlers_ran();
    assert!(world.fish_is_unwinding_for_exit());
}

#[test]
fn rounds_are_counted() {
    let mut world = world();
    assert!(world.begin_round(false));
    assert_eq!(world.reader_run_count(), 1);
    assert_eq!(world.take_command(None), None);
    assert_eq!(world.take_command(Some(w(""))), None);
    world.commandline_set_buffer(Some(w("ls")), None);
    assert_eq!(world.take_command(Some(w("ls"))), Some(w("ls")));
    assert_eq!(world.commandline_get_state(true).text, w(""));
    world.command_ran(true);
    assert_eq!(world.reader_status_count(), 0);
    world.command_ran(false);
    assert_eq!(world.reader_status_count(), 1);
    assert!(world.end_round(false));
    world.run_count = u64::MAX;
    assert!(world.begin_round(false));
    assert_eq!(world.reader_run_count(), 0);
}

#[test]
fn exiting_from_a_command() {
    let mut world = world();
    world.parser.exit_current_script = true;
    world.command_ran(false);
    assert!(!world.parser.exit_current_script);
    // There are jobs: warn first.
    assert!(world.end_round(true));
    assert!(world.current_data().unwrap().flags.get(Flag::DidWarnForBgJobs));
    // Another command: the warning is forgotten.
    world.command_ran(false);
    assert!(world.end_round(true));
    assert!(!world.current_data().unwrap().flags.get(Flag::DidWarnForBgJobs));
    world.parser.exit_current_script = true;
    world.command_ran(false);
    assert!(!world.end_round(false));
    world.parser.exit_current_script = true;
    world.leave_script();
    assert!(!world.parser.exit_current_script);
}

#[test]
fn nested_readers_exit_without_warning() {
    let mut world = world();
    world.reader_push(w("fish"), ReaderConfig::default());
    world.current_data().unwrap().flags.set(Flag::ExitLoopRequested, true);
    assert!(world.check_exit_loop_maybe_warning(true));
}

#[test]
fn settings_of_the_current_reader() {
    let mut world = World::new();
    world.reader_change_cursor_end_mode(CursorEndMode::Inclusive);
    world.reader_set_transient_prompt(None);
    world.reader_schedule_prompt_repaint();
    assert_eq!(world.reader_change_history(&w("x")), None);
    world.reader_push(w("fish"), ReaderConfig::default());
    assert_eq!(world.reader_change_history(&w("other")), Some(w("fish")));
    assert_eq!(world.commandline_get_state(true).history, Some(w("other")));
    world.reader_set_autosuggestion_enabled(Some(&w("0")));
    assert!(world.current_data().unwrap().actions.is_empty());
    world.reader_set_autosuggestion_enabled(None);
    let data = world.current_data().unwrap();
    assert!(data.conf.autosuggest_ok);
    assert!(matches!(data.take_actions()[..], [Action::QueueReadline(ReadlineCmd::Repaint)]));
    world.reader_schedule_prompt_repaint();
    assert!(world.current_data().unwrap().actions.is_empty());
    world.current_data().unwrap().flags.set(Flag::ForceExecPromptAndRepaint, false);
    world.reader_schedule_prompt_repaint();
    assert_eq!(world.current_data().unwrap().actions.len(), 1);
    world.reader_set_transient_prompt(Some(&w("1")));
    assert!(world.current_data().unwrap().conf.transient_prompt);
    assert!(check_bool_var(Some(&w("yes")), false));
    assert!(!check_bool_var(Some(&w("0")), true));
    assert!(check_bool_var(None, true));
}

#[test]
fn cursor_modes_move_the_cursor() {
    let mut world = world();
    let data = world.current_data().unwrap();
    data.insert_string(CMD, &w("abc"));
    data.begin_selection();
    world.reader_change_cursor_end_mode(CursorEndMode::Inclusive);
    assert_eq!(world.current_data().unwrap().command_line.position, 2);
    world.reader_change_cursor_selection_mode(CursorSelectionMode::Inclusive);
    assert_eq!(world.current_data().unwrap().get_selection(), Some(2..3));
}

#[test]
fn suggestions_that_show() {
    let mut world = world();
    assert!(!world.reader_showing_suggestion(true));
    let data = world.current_data().unwrap();
    data.insert_string(CMD, &w("ls"));
    data.autosuggestion.text = w("ls ");
    data.autosuggestion.search_string_range = 0..2;
    assert!(!world.reader_showing_suggestion(true));
    world.current_data().unwrap().autosuggestion.text = w("ls -l");
    assert!(world.reader_showing_suggestion(true));
    assert!(!world.reader_showing_suggestion(false));
}

#[test]
fn scripts_run_commands() {
    let mut world = world();
    world.commandline_set_buffer(Some(w("abc")), Some(1));
    let c = ReadlineCmd::KillLine;
    assert_eq!(world.reader_execute_readline_cmd(c, screen(), terminal()), Some(c));
    assert!(world.current_data().unwrap().rls.is_some());
    let mut world = self::world();
    let c = ReadlineCmd::Repaint;
    assert_eq!(world.reader_execute_readline_cmd(c, screen(), terminal()), None);
    assert!(matches!(
        world.current_data().unwrap().take_actions()[..],
        [Action::QueueReadline(ReadlineCmd::Repaint)]
    ));
    // What follows a repaint is put off, too.
    let c = ReadlineCmd::KillLine;
    assert_eq!(world.reader_execute_readline_cmd(c, screen(), terminal()), None);
    assert_eq!(world.current_data().unwrap().actions.len(), 1);
}

#[test]
fn reading_a_line() {
    let mut world = world();
    world.reader_readline(
        Some(2),
        TerminalKind {
            is_dumb: false,
            in_midnight_commander: false,
            in_dvtm: false,
            stdout_is_tty: false,
            via_dcs: false,
        },
    );
    let mut reader = world.take_reader();
    assert_eq!(reader.data.rls.as_ref().unwrap().nchars, Some(2));
    reader.data.insert_string(CMD, &w("xy"));
    assert!(reader.data.begin_event(screen()));
    assert_eq!(reader.data.finish_readline(false), Some(w("xy")));
    world.put_reader(reader);
    assert_eq!(world.commandline_get_state(true).text, w("xy"));
}

#[test]
fn interactive_readers() {
    let conf = interactive_config(None, None, false);
    assert!(conf.complete_ok && conf.highlight_ok && conf.syntax_check_ok && conf.expand_abbrev_ok);
    assert!(conf.autosuggest_ok && !conf.transient_prompt && !conf.exit_on_interrupt);
    assert_eq!(conf.event, w("fish_prompt"));
    assert_eq!(conf.left_prompt_cmd, w("fish_prompt"));
    assert_eq!(conf.right_prompt_cmd, w("fish_right_prompt"));
    assert_eq!(conf.inputfd, libc::STDIN_FILENO);
    let conf = interactive_config(Some(&w("0")), Some(&w("1")), true);
    assert!(!conf.autosuggest_ok && conf.transient_prompt);
    assert_eq!(conf.left_prompt_cmd, w("fish_breakpoint_prompt"));
    assert_eq!(conf.right_prompt_cmd, w(""));
}

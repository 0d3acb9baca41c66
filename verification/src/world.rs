//! The readers of the shell, one within the other, and what they share.

use crate::action::{Action, ActionView};
use crate::command::ReadlineCmd;
use crate::data::{
    fresh, initial_line, AutosuggestionUpdate, ConfigView, CursorEndMode, CursorSelectionMode,
    DataView, EditableLineTag, ReaderConfig, ReaderData,
};
use crate::event::{ParserState, Reader, ReaderView, TerminalKind, TerminalState};
use crate::finish::ExitState;
use crate::flags::Flag;
use crate::host::sigint;
use crate::paint::ScreenState;
use crate::prompt::{debug_prompt_function, left_prompt_function, right_prompt_function};
use crate::state::{CommandlineState, StateView};
use crate::text::{copy_text, line_at_cursor, line_range, part, subtext, text_eq, wide, WString};
use vstd::prelude::*;

verus! {

/// A description of where the shell is in the process of exiting.
#[derive(Clone, Copy, PartialEq, Eq, Structural, Debug)]
pub enum ExitPhase {
    /// The shell is not exiting.
    NotExiting,
    /// The shell intends to exit, and is running handlers like 'fish_exit'.
    RunningHandlers,
    /// The shell is finished running handlers and no more script may be run.
    FinishedHandlers,
}

/// The readers of the shell, and what they share.
pub struct World {
    /// The stack of current interactive reading contexts.
    pub readers: Vec<ReaderData>,
    pub parser: ParserState,
    /// A snapshot of the state of the current reader, for scripts.
    pub snapshot: CommandlineState,
    /// How many commands were read.
    pub run_count: u64,
    /// How many commands produced a status.
    pub status_count: u64,
    /// The signal that interrupted us, or 0.
    pub interrupted: i32,
    /// If set, the terminal has gone away. This latches to true.
    pub sighup_received: bool,
    /// The terminal was redirected since it has gone away.
    pub tty_redirected: bool,
    pub exit_phase: ExitPhase,
    /// The generation that the next reader begins with, while there is none.
    pub generation: u32,
}

pub struct WorldView {
    pub readers: Seq<DataView>,
    pub parser: ParserState,
    pub snapshot: StateView,
    pub run_count: u64,
    pub status_count: u64,
    pub interrupted: i32,
    pub sighup: bool,
    pub tty_redirected: bool,
    pub exit_phase: ExitPhase,
    pub generation: u32,
}

pub open spec fn data_views(s: Seq<ReaderData>) -> Seq<DataView> {
    s.map_values(|d: ReaderData| d@)
}

impl View for World {
    type V = WorldView;

    open spec fn view(&self) -> WorldView {
        WorldView {
            readers: data_views(self.readers@),
            parser: self.parser,
            snapshot: self.snapshot@,
            run_count: self.run_count,
            status_count: self.status_count,
            interrupted: self.interrupted,
            sighup: self.sighup_received,
            tty_redirected: self.tty_redirected,
            exit_phase: self.exit_phase,
            generation: self.generation,
        }
    }
}

/// Whether a variable says yes: it does unless it is 0.
pub open spec fn says_yes(value: Option<Seq<char>>, default: bool) -> bool {
    match value {
        Some(v) => v != "0"@,
        None => default,
    }
}

pub open spec fn opt_str(t: Option<&[char]>) -> Option<Seq<char>> {
    match t {
        Some(t) => Some(t@),
        None => None,
    }
}

/// Whether a variable says yes.
pub fn check_bool_var(value: Option<&[char]>, default: bool) -> (r: bool)
    ensures
        r == says_yes(opt_str(value), default),
{
    match value {
        Some(v) => {
            let no = wide("0");
            !text_eq(v, &no)
        },
        None => default,
    }
}

/// A count one up. It wraps around.
pub open spec fn counted(n: u64) -> u64 {
    if n == u64::MAX {
        0
    } else {
        (n + 1) as u64
    }
}

fn count(n: u64) -> (r: u64)
    ensures
        r == counted(n),
{
    if n == u64::MAX {
        0
    } else {
        n + 1
    }
}

/// The configuration of a reader that reads commands interactively.
pub open spec fn interactive(
    autosuggestion: Option<Seq<char>>,
    transient_prompt: Option<Seq<char>>,
    debugging: bool,
) -> ConfigView {
    ConfigView {
        event: "fish_prompt"@,
        complete_ok: true,
        highlight_ok: true,
        syntax_check_ok: true,
        expand_abbrev_ok: true,
        autosuggest_ok: says_yes(autosuggestion, true),
        transient_prompt: says_yes(transient_prompt, false),
        left_prompt_cmd: if debugging {
            debug_prompt_function()
        } else {
            left_prompt_function()
        },
        right_prompt_cmd: if debugging {
            Seq::empty()
        } else {
            right_prompt_function()
        },
        ..ConfigView::default()
    }
}

/// The configuration of a reader that reads commands interactively, given the variables that enable
/// autosuggestions and the transient prompt. `debugging` is whether we are at a breakpoint and there
/// is a prompt for that.
pub fn interactive_config(
    autosuggestion: Option<&[char]>,
    transient_prompt: Option<&[char]>,
    debugging: bool,
) -> (r: ReaderConfig)
    ensures
        r@ == interactive(opt_str(autosuggestion), opt_str(transient_prompt), debugging),
{
    let mut conf = ReaderConfig::default();
    conf.event = wide("fish_prompt");
    conf.complete_ok = true;
    conf.highlight_ok = true;
    conf.syntax_check_ok = true;
    conf.expand_abbrev_ok = true;
    conf.autosuggest_ok = check_bool_var(autosuggestion, true);
    conf.transient_prompt = check_bool_var(transient_prompt, false);
    if debugging {
        conf.left_prompt_cmd = wide("fish_breakpoint_prompt");
        conf.right_prompt_cmd = Vec::new();
    } else {
        conf.left_prompt_cmd = wide("fish_prompt");
        conf.right_prompt_cmd = wide("fish_right_prompt");
    }
    conf
}

impl DataView {
    pub open spec fn selection_mode_changed(self, mode: CursorSelectionMode) -> DataView {
        let next = DataView { selection_mode: mode, ..self };
        if self.selection_mode == mode || self.selection is None {
            next
        } else {
            next.moved(EditableLineTag::Commandline, None)
        }
    }

    pub open spec fn end_mode_changed(self, mode: CursorEndMode) -> DataView {
        let next = DataView { end_mode: mode, ..self };
        if self.end_mode == mode || self.selection is None {
            next
        } else {
            next.moved(EditableLineTag::Commandline, None)
        }
    }

    /// Autosuggestions switched on or off. That has the prompt repainted.
    pub open spec fn autosuggestions_set(self, on: bool) -> DataView {
        if self.conf.autosuggest_ok == on {
            self
        } else {
            DataView { conf: ConfigView { autosuggest_ok: on, ..self.conf }, ..self }.with_flag(
                Flag::ForceExecPromptAndRepaint,
                true,
            ).queued(ActionView::QueueReadline(ReadlineCmd::Repaint))
        }
    }

    /// An autosuggestion is shown that is more than a single space.
    pub open spec fn shows_suggestion(self) -> bool {
        let s = self.autosuggestion.text;
        let line = self.command_line;
        let is_single_space = s.len() > 0 && s.last() == ' ' && part(
            line.text,
            line_range(line.text, line.position),
        ) == s.drop_last();
        s.len() > 0 && !is_single_space
    }

    /// A command taken out of the command line.
    pub open spec fn command_taken(self) -> DataView {
        self.cleared(EditableLineTag::Commandline).moved(EditableLineTag::Commandline, None)
    }
}

impl WorldView {
    pub open spec fn start() -> WorldView {
        WorldView {
            readers: Seq::empty(),
            parser: ParserState {
                exit_current_script: false,
                readonly_commandline: false,
                queried: false,
                blocking_query: None,
            },
            snapshot: StateView::blank(),
            run_count: 0,
            status_count: 0,
            interrupted: 0,
            sighup: false,
            tty_redirected: false,
            exit_phase: ExitPhase::NotExiting,
            generation: 0,
        }
    }

    pub open spec fn wf(self) -> bool {
        &&& forall|i: int|
            #![trigger self.readers[i]]
            0 <= i < self.readers.len() ==> self.readers[i].wf()
        &&& self.snapshot.wf()
    }

    pub open spec fn top(self) -> DataView {
        self.readers.last()
    }

    pub open spec fn with_top(self, data: DataView) -> WorldView {
        WorldView { readers: self.readers.drop_last().push(data), ..self }
    }

    /// The current reader with the state of the interpreter.
    pub open spec fn reader(self) -> ReaderView {
        ReaderView { data: self.top(), parser: self.parser }
    }

    pub open spec fn with_reader(self, r: ReaderView) -> WorldView {
        WorldView { parser: r.parser, ..self.with_top(r.data) }
    }

    /// The generation of the command line.
    pub open spec fn generation_count(self) -> u32 {
        if self.readers.len() > 0 {
            self.top().generation
        } else {
            self.generation
        }
    }

    /// A reader pushed. The first one takes over the snapshot.
    pub open spec fn pushed(self, history_name: Seq<char>, conf: ConfigView) -> WorldView {
        let line = initial_line(
            if self.readers.len() == 0 {
                Some((self.snapshot.text, self.snapshot.cursor_pos))
            } else {
                None
            },
        );
        let data = fresh(history_name, conf, line, self.generation_count()).changed(
            EditableLineTag::Commandline,
            AutosuggestionUpdate::Remove,
        );
        WorldView { readers: self.readers.push(data), ..self }
    }

    /// The current reader popped. The one below goes on on a fresh line.
    pub open spec fn popped(self) -> WorldView {
        let rest = WorldView { readers: self.readers.drop_last(), ..self };
        if rest.readers.len() > 0 {
            rest.with_top(
                DataView { generation: self.top().generation, ..rest.top() }.queued(
                    ActionView::ResetAbandoningLine,
                ),
            )
        } else {
            WorldView {
                generation: self.top().generation,
                snapshot: StateView::blank(),
                ..rest
            }
        }
    }

    /// What is known for deciding whether to exit.
    pub open spec fn exit_state(self, has_jobs: bool) -> ExitState {
        ExitState { sighup: self.sighup, top_level: self.readers.len() <= 1, has_jobs }
    }

    pub open spec fn exits(self, has_jobs: bool) -> bool {
        if self.readers.len() > 0 {
            self.top().exits(self.exit_state(has_jobs))
        } else {
            self.sighup
        }
    }

    pub open spec fn exit_checked(self, has_jobs: bool) -> WorldView {
        if self.readers.len() > 0 {
            self.with_top(self.top().exit_checked(self.exit_state(has_jobs)))
        } else {
            self
        }
    }

    /// The snapshot changed by a script, and the change carried over to the current reader.
    pub open spec fn state_set(self, s: StateView) -> WorldView {
        let noted = WorldView { snapshot: s, ..self };
        if self.readers.len() > 0 {
            noted.with_top(self.top().state_applied(s))
        } else {
            noted
        }
    }

    /// The snapshot brought up to date.
    pub open spec fn synced(self) -> WorldView {
        if self.readers.len() > 0 {
            WorldView { snapshot: self.top().state(), ..self }
        } else {
            self
        }
    }

    /// The interrupt key pressed.
    pub open spec fn interrupted_by_key(self) -> WorldView {
        WorldView { interrupted: 2, ..self }
    }

    pub open spec fn interrupt_cleared(self) -> WorldView {
        WorldView { interrupted: 0, ..self }
    }

    pub open spec fn unwinding(self) -> bool {
        match self.exit_phase {
            ExitPhase::NotExiting => self.sighup,
            ExitPhase::RunningHandlers => false,
            ExitPhase::FinishedHandlers => true,
        }
    }

    /// A command has run.
    pub open spec fn command_ran(self, no_status: bool) -> WorldView {
        let counted_up = WorldView {
            status_count: if no_status {
                self.status_count
            } else {
                counted(self.status_count)
            },
            ..self
        };
        counted_up.with_reader(counted_up.reader().exit_noted())
    }

    /// It was checked, after a command, whether to exit. Whoever was warned before and ran another
    /// command is warned anew the next time.
    pub open spec fn exit_checked_after_command(self, has_jobs: bool) -> WorldView {
        let next = self.exit_checked(has_jobs);
        if !self.exits(has_jobs) && self.top().is(Flag::DidWarnForBgJobs) {
            next.with_top(next.top().with_flag(Flag::DidWarnForBgJobs, false))
        } else {
            next
        }
    }
}

impl ReaderData {
    fn set_selection_mode(&mut self, mode: CursorSelectionMode)
        requires
            old(self)@.wf(),
        ensures
            final(self)@ == old(self)@.selection_mode_changed(mode),
            final(self)@.wf(),
    {
        if self.cursor_selection_mode == mode {
            return;
        }
        let invalidates_selection = self.selection.is_some();
        self.cursor_selection_mode = mode;
        if invalidates_selection {
            self.update_buff_pos(EditableLineTag::Commandline, None);
        }
    }

    fn set_end_mode(&mut self, mode: CursorEndMode)
        requires
            old(self)@.wf(),
        ensures
            final(self)@ == old(self)@.end_mode_changed(mode),
            final(self)@.wf(),
    {
        if self.cursor_end_mode == mode {
            return;
        }
        let invalidates_end = self.selection.is_some();
        self.cursor_end_mode = mode;
        if invalidates_end {
            self.update_buff_pos(EditableLineTag::Commandline, None);
        }
    }

    fn set_autosuggestions(&mut self, enable: bool)
        requires
            old(self)@.wf(),
        ensures
            final(self)@ == old(self)@.autosuggestions_set(enable),
            final(self)@.wf(),
    {
        if self.conf.autosuggest_ok != enable {
            self.conf.autosuggest_ok = enable;
            self.flags.set(Flag::ForceExecPromptAndRepaint, true);
            self.queue(Action::QueueReadline(ReadlineCmd::Repaint));
        }
    }

    fn is_showing_suggestion(&self) -> (r: bool)
        requires
            self@.wf(),
        ensures
            r == self@.shows_suggestion(),
    {
        let suggestion = &self.autosuggestion.text;
        let n = suggestion.len();
        if n == 0 {
            return false;
        }
        if suggestion[n - 1] != ' ' {
            return true;
        }
        let line = line_at_cursor(&self.command_line.text, self.command_line.position);
        let start = subtext(suggestion, 0, n - 1);
        assert(start@ =~= suggestion@.drop_last());
        !text_eq(&line, &start)
    }

    fn take_command(&mut self)
        requires
            old(self)@.wf(),
        ensures
            final(self)@ == old(self)@.command_taken(),
            final(self)@.wf(),
    {
        self.clear(EditableLineTag::Commandline);
        self.update_buff_pos(EditableLineTag::Commandline, None);
    }
}

/// The views of a stack without its top.
proof fn lemma_popped(s: Seq<ReaderData>)
    requires
        s.len() > 0,
    ensures
        data_views(s.drop_last()) == data_views(s).drop_last(),
        data_views(s).last() == s.last()@,
{
    assert(data_views(s.drop_last()) =~= data_views(s).drop_last());
}

impl World {
    pub fn new() -> (r: World)
        ensures
            r@ == WorldView::start(),
            r@.wf(),
    {
        let r = World {
            readers: Vec::new(),
            parser: ParserState {
                exit_current_script: false,
                readonly_commandline: false,
                queried: false,
                blocking_query: None,
            },
            snapshot: CommandlineState::new(),
            run_count: 0,
            status_count: 0,
            interrupted: 0,
            sighup_received: false,
            tty_redirected: false,
            exit_phase: ExitPhase::NotExiting,
            generation: 0,
        };
        assert(r@.readers =~= Seq::empty());
        r
    }

    fn pop_data(&mut self) -> (r: ReaderData)
        requires
            old(self)@.wf(),
            old(self)@.readers.len() > 0,
        ensures
            r@ == old(self)@.top(),
            r@.wf(),
            final(self)@ == (WorldView {
                readers: old(self)@.readers.drop_last(),
                ..old(self)@
            }),
            final(self)@.wf(),
    {
        let ghost before = self.readers@;
        let r = self.readers.pop().unwrap();
        proof {
            lemma_popped(before);
            assert(self.readers@ =~= before.drop_last());
        }
        r
    }

    fn push_data(&mut self, data: ReaderData)
        requires
            old(self)@.wf(),
            data@.wf(),
        ensures
            final(self)@ == (WorldView {
                readers: old(self)@.readers.push(data@),
                ..old(self)@
            }),
            final(self)@.wf(),
    {
        let ghost before = self.readers@;
        self.readers.push(data);
        assert(data_views(before.push(data)) =~= data_views(before).push(data@));
    }

    /// Take the current reader out, to have it handle events. Until it is put back the one below it
    /// is the current one.
    pub fn take_reader(&mut self) -> (r: Reader)
        requires
            old(self)@.wf(),
            old(self)@.readers.len() > 0,
        ensures
            r@ == old(self)@.reader(),
            r@.wf(),
            final(self)@ == (WorldView {
                readers: old(self)@.readers.drop_last(),
                ..old(self)@
            }),
            final(self)@.wf(),
    {
        let data = self.pop_data();
        Reader { data, parser: self.parser }
    }

    /// Put a reader back.
    pub fn put_reader(&mut self, r: Reader)
        requires
            old(self)@.wf(),
            r@.wf(),
        ensures
            final(self)@ == (WorldView {
                readers: old(self)@.readers.push(r@.data),
                parser: r@.parser,
                ..old(self)@
            }),
            final(self)@.wf(),
    {
        self.parser = r.parser;
        self.push_data(r.data);
    }

    /// Whether any reader is one that exits when interrupted.
    pub fn reader_in_interactive_read(&self) -> (r: bool)
        ensures
            r == exists|i: int|
                0 <= i < self@.readers.len() && (#[trigger] self@.readers[i]).conf.exit_on_interrupt,
    {
        let mut i: usize = self.readers.len();
        while i > 0
            invariant
                0 <= i <= self.readers@.len(),
                forall|j: int|
                    #![trigger self@.readers[j]]
                    i <= j < self.readers@.len() ==> !self@.readers[j].conf.exit_on_interrupt,
            decreases i,
        {
            i -= 1;
            if self.readers[i].conf.exit_on_interrupt {
                assert(self@.readers[i as int].conf.exit_on_interrupt);
                return true;
            }
            assert(self@.readers[i as int] == self.readers@[i as int]@);
        }
        false
    }

    /// Access the top level reader data.
    pub fn current_data(&mut self) -> (r: Option<&mut ReaderData>)
        ensures
            match r {
                Some(d) => {
                    &&& old(self)@.readers.len() > 0
                    &&& (*d)@ == old(self)@.top()
                    &&& final(self)@ == old(self)@.with_top((*final(d))@)
                },
                None => old(self)@.readers.len() == 0 && *final(self) == *old(self),
            },
    {
        let n = self.readers.len();
        if n == 0 {
            None
        } else {
            proof {
                let s = self.readers@;
                assert forall|d: ReaderData|
                    #[trigger] data_views(s.update(n - 1, d)) == data_views(s).drop_last().push(
                        d@,
                    ) by {
                    assert(data_views(s.update(n - 1, d)) =~= data_views(s).drop_last().push(d@));
                }
            }
            Some(&mut self.readers[n - 1])
        }
    }

    /// Add a new reader to the reader stack. Return whether it is the only one: if so, what is
    /// needed for interactive use is to be set up.
    /// If `history_name` is empty, then save history in-memory only; do not write it to disk.
    pub fn reader_push(&mut self, history_name: WString, conf: ReaderConfig) -> (is_top_level: bool)
        requires
            old(self)@.wf(),
        ensures
            is_top_level == (old(self)@.readers.len() == 0),
            final(self)@ == old(self)@.pushed(history_name@, conf@),
            final(self)@.wf(),
    {
        let is_top_level = self.readers.len() == 0;
        let snapshot = if is_top_level {
            Some((copy_text(&self.snapshot.text), self.snapshot.cursor_pos))
        } else {
            None
        };
        let generation = self.read_generation_count();
        let mut data = ReaderData::new(history_name, conf, snapshot, generation);
        data.command_line_changed(
            EditableLineTag::Commandline,
            AutosuggestionUpdate::Remove,
        );
        self.push_data(data);
        is_top_level
    }

    /// Return to previous reader environment. Return whether there is none: if so, what was set up
    /// for interactive use is to be taken down.
    pub fn reader_pop(&mut self) -> (was_last: bool)
        requires
            old(self)@.wf(),
            old(self)@.readers.len() > 0,
        ensures
            was_last == (old(self)@.readers.len() == 1),
            final(self)@ == old(self)@.popped(),
            final(self)@.wf(),
    {
        let popped = self.pop_data();
        if self.readers.len() > 0 {
            let mut data = self.pop_data();
            data.generation = popped.generation;
            data.queue(Action::ResetAbandoningLine);
            self.push_data(data);
            false
        } else {
            self.generation = popped.generation;
            self.snapshot = CommandlineState::new();
            true
        }
    }

    /// Change the history for the current command reading context. Return the name of the history
    /// used until now, which is to be saved.
    pub fn reader_change_history(&mut self, name: &[char]) -> (r: Option<WString>)
        requires
            old(self)@.wf(),
        ensures
            if old(self)@.readers.len() > 0 {
                &&& r matches Some(before) && before@ == old(self)@.top().history_name
                &&& final(self)@ == (WorldView {
                    snapshot: StateView { history: Some(name@), ..old(self)@.snapshot },
                    ..old(self)@.with_top(DataView { history_name: name@, ..old(self)@.top() })
                })
            } else {
                r is None && final(self)@ == old(self)@
            },
            final(self)@.wf(),
    {
        // We don't need to _change_ if we're not initialized yet.
        if self.readers.len() == 0 {
            return None;
        }
        let mut data = self.pop_data();
        let mut before = copy_text(name);
        std::mem::swap(&mut before, &mut data.history_name);
        self.push_data(data);
        self.snapshot.history = Some(copy_text(name));
        Some(before)
    }

    pub fn reader_change_cursor_selection_mode(&mut self, selection_mode: CursorSelectionMode)
        requires
            old(self)@.wf(),
        ensures
            final(self)@ == if old(self)@.readers.len() > 0 {
                old(self)@.with_top(old(self)@.top().selection_mode_changed(selection_mode))
            } else {
                old(self)@
            },
            final(self)@.wf(),
    {
        // We don't need to _change_ if we're not initialized yet.
        if self.readers.len() > 0 {
            let mut data = self.pop_data();
            data.set_selection_mode(selection_mode);
            self.push_data(data);
        }
    }

    pub fn reader_change_cursor_end_mode(&mut self, end_mode: CursorEndMode)
        requires
            old(self)@.wf(),
        ensures
            final(self)@ == if old(self)@.readers.len() > 0 {
                old(self)@.with_top(old(self)@.top().end_mode_changed(end_mode))
            } else {
                old(self)@
            },
            final(self)@.wf(),
    {
        // We don't need to _change_ if we're not initialized yet.
        if self.readers.len() > 0 {
            let mut data = self.pop_data();
            data.set_end_mode(end_mode);
            self.push_data(data);
        }
    }

    /// Enable or disable autosuggestions based on the value of the associated variable.
    pub fn reader_set_autosuggestion_enabled(&mut self, value: Option<&[char]>)
        requires
            old(self)@.wf(),
        ensures
            final(self)@ == if old(self)@.readers.len() > 0 {
                old(self)@.with_top(
                    old(self)@.top().autosuggestions_set(says_yes(opt_str(value), true)),
                )
            } else {
                old(self)@
            },
            final(self)@.wf(),
    {
        // We don't need to _change_ if we're not initialized yet.
        if self.readers.len() > 0 {
            let enable = check_bool_var(value, true);
            let mut data = self.pop_data();
            data.set_autosuggestions(enable);
            self.push_data(data);
        }
    }

    /// Enable or disable transient prompt based on the value of the associated variable.
    pub fn reader_set_transient_prompt(&mut self, value: Option<&[char]>)
        requires
            old(self)@.wf(),
        ensures
            final(self)@ == if old(self)@.readers.len() > 0 {
                old(self)@.with_top(
                    DataView {
                        conf: ConfigView {
                            transient_prompt: says_yes(opt_str(value), false),
                            ..old(self)@.top().conf
                        },
                        ..old(self)@.top()
                    },
                )
            } else {
                old(self)@
            },
            final(self)@.wf(),
    {
        // We don't need to _change_ if we're not initialized yet.
        if self.readers.len() > 0 {
            let mut data = self.pop_data();
            data.conf.transient_prompt = check_bool_var(value, false);
            self.push_data(data);
        }
    }

    /// Tell the reader that it needs to re-exec the prompt and repaint.
    /// This may be called in response to e.g. a color variable change.
    pub fn reader_schedule_prompt_repaint(&mut self)
        requires
            old(self)@.wf(),
        ensures
            final(self)@ == if old(self)@.readers.len() > 0 {
                old(self)@.with_top(old(self)@.top().repaint_scheduled())
            } else {
                old(self)@
            },
            final(self)@.wf(),
    {
        if self.readers.len() > 0 {
            let mut data = self.pop_data();
            data.schedule_prompt_repaint();
            self.push_data(data);
        }
    }

    /// Begin a command that a script asks for, unless scripts may not change the command line now.
    /// Return it if it is to be run: then the caller goes on with the current reader's
    /// `handle_readline_command`.
    pub fn reader_execute_readline_cmd(
        &mut self,
        c: ReadlineCmd,
        screen: ScreenState,
        t: TerminalState,
    ) -> (r: Option<ReadlineCmd>)
        requires
            old(self)@.wf(),
        ensures
            final(self)@ == if old(self)@.readers.len() > 0
                && !old(self)@.parser.readonly_commandline {
                old(self)@.with_reader(old(self)@.reader().script_command_begun(c, screen, t))
            } else {
                old(self)@
            },
            r == if old(self)@.readers.len() > 0 && !old(self)@.parser.readonly_commandline
                && old(self)@.reader().runs_script_command(c, screen) {
                Some(c)
            } else {
                None
            },
            final(self)@.wf(),
    {
        if self.parser.readonly_commandline || self.readers.len() == 0 {
            return None;
        }
        let mut reader = self.take_reader();
        let r = reader.begin_script_command(c, screen, t);
        self.put_reader(reader);
        r
    }

    /// Whether an autosuggestion is shown that is more than a single space.
    pub fn reader_showing_suggestion(&self, is_interactive_session: bool) -> (r: bool)
        requires
            self@.wf(),
        ensures
            r == (is_interactive_session && self@.readers.len() > 0
                && self@.top().shows_suggestion()),
    {
        let n = self.readers.len();
        if !is_interactive_session || n == 0 {
            return false;
        }
        assert(self@.readers[n - 1] == self.readers@[n - 1]@);
        self.readers[n - 1].is_showing_suggestion()
    }

    /// Return the value of the interrupted flag, which is set by the sigint handler, and clear it if
    /// it was set. If the current reader is interruptible, mark the reader as asked to exit.
    pub fn reader_reading_interrupted(&mut self) -> (r: i32)
        requires
            old(self)@.wf(),
            old(self)@.readers.len() > 0,
        ensures
            r == old(self)@.interrupted,
            final(self)@ == if old(self)@.interrupted != 0
                && old(self)@.top().conf.exit_on_interrupt {
                old(self)@.interrupt_cleared().with_top(
                    old(self)@.top().with_flag(Flag::ExitLoopRequested, true),
                )
            } else {
                old(self)@.interrupt_cleared()
            },
            final(self)@.wf(),
    {
        let res = self.reader_test_and_clear_interrupted();
        if res == 0 {
            return 0;
        }
        let n = self.readers.len();
        assert(self@.readers[n - 1] == self.readers@[n - 1]@);
        if self.readers[n - 1].conf.exit_on_interrupt {
            let mut data = self.pop_data();
            data.flags.set(Flag::ExitLoopRequested, true);
            self.push_data(data);
        }
        res
    }

    /// Begin to read one line of input. Before calling this function, reader_push() must have been
    /// called in order to set up a valid reader environment. If nchars is given, reading ends after
    /// that many characters even if a full line has not yet been read. Note: there may be more than
    /// nchars if a single keypress resulted in multiple characters being inserted into the
    /// commandline.
    pub fn reader_readline(&mut self, nchars: Option<usize>, k: TerminalKind)
        requires
            old(self)@.wf(),
            old(self)@.readers.len() > 0,
        ensures
            final(self)@ == old(self)@.with_reader(old(self)@.reader().readline_begun(nchars, k)),
            final(self)@.wf(),
    {
        let mut reader = self.take_reader();
        reader.begin_readline(nchars, k);
        self.put_reader(reader);
    }

    /// Get the command line state, brought up to date if `sync` is set.
    pub fn commandline_get_state(&mut self, sync: bool) -> (r: CommandlineState)
        requires
            old(self)@.wf(),
        ensures
            r@ == final(self)@.snapshot,
            final(self)@ == if sync {
                old(self)@.synced()
            } else {
                old(self)@
            },
            final(self)@.wf(),
    {
        let n = self.readers.len();
        if sync && n > 0 {
            assert(self@.readers[n - 1] == self.readers@[n - 1]@);
            self.snapshot = self.readers[n - 1].update_commandline_state();
        }
        self.snapshot.clone()
    }

    fn apply_snapshot(&mut self)
        requires
            old(self)@.wf(),
        ensures
            final(self)@ == old(self)@.state_set(old(self)@.snapshot),
            final(self)@.wf(),
    {
        if self.readers.len() > 0 {
            let mut data = self.pop_data();
            data.apply_commandline_state_changes(&self.snapshot);
            self.push_data(data);
        }
    }

    /// Set the command line text and position.
    pub fn commandline_set_buffer(&mut self, text: Option<WString>, cursor_pos: Option<usize>)
        requires
            old(self)@.wf(),
        ensures
            final(self)@ == if old(self)@.parser.readonly_commandline {
                old(self)@
            } else {
                old(self)@.state_set(
                    old(self)@.snapshot.with_buffer(
                        match text {
                            Some(text) => Some(text@),
                            None => None,
                        },
                        cursor_pos,
                    ),
                )
            },
            final(self)@.wf(),
    {
        if self.parser.readonly_commandline {
            return;
        }
        self.snapshot.set_buffer(text, cursor_pos);
        self.apply_snapshot();
    }

    /// Set the text and the cursor of the search field, which must be shown.
    pub fn commandline_set_search_field(&mut self, text: WString, cursor_pos: Option<usize>)
        requires
            old(self)@.wf(),
            old(self)@.parser.readonly_commandline || old(self)@.snapshot.search_field is Some,
        ensures
            final(self)@ == if old(self)@.parser.readonly_commandline {
                old(self)@
            } else {
                old(self)@.state_set(old(self)@.snapshot.with_search_field(text@, cursor_pos))
            },
            final(self)@.wf(),
    {
        if self.parser.readonly_commandline {
            return;
        }
        self.snapshot.set_search_field(text, cursor_pos);
        self.apply_snapshot();
    }

    /// Return the current interactive reads loop count. Useful for determining how many commands
    /// have been executed between invocations of code.
    pub fn reader_run_count(&self) -> (r: u64)
        ensures
            r == self@.run_count,
    {
        self.run_count
    }

    /// Returns the current "generation" of interactive status. Useful for determining whether the
    /// previous command produced a status.
    /// This is not incremented if the command being run produces no status,
    /// (e.g. background job, or variable assignment).
    pub fn reader_status_count(&self) -> (r: u64)
        ensures
            r == self@.status_count,
    {
        self.status_count
    }

    /// Helper to get the generation count
    pub fn read_generation_count(&self) -> (r: u32)
        ensures
            r == self@.generation_count(),
    {
        let n = self.readers.len();
        if n > 0 {
            assert(self@.readers[n - 1] == self.readers@[n - 1]@);
            self.readers[n - 1].generation
        } else {
            self.generation
        }
    }

    /// The readers interrupt signal handler. Cancels all currently running blocks.
    pub fn reader_handle_sigint(&mut self)
        ensures
            final(self)@ == old(self)@.interrupted_by_key(),
    {
        self.interrupted = sigint();
    }

    /// Clear the interrupted flag unconditionally without handling anything. The flag could have
    /// been set e.g. when an interrupt arrived just as we were ending an earlier reading but before
    /// the reader was popped.
    pub fn reader_reset_interrupted(&mut self)
        ensures
            final(self)@ == old(self)@.interrupt_cleared(),
    {
        self.interrupted = 0;
    }

    /// Return the value of the interrupted flag, which is set by the sigint handler, and clear it if
    /// it was set.
    pub fn reader_test_and_clear_interrupted(&mut self) -> (r: i32)
        ensures
            r == old(self)@.interrupted,
            final(self)@ == old(self)@.interrupt_cleared(),
    {
        let res = self.interrupted;
        if res != 0 {
            self.interrupted = 0;
        }
        res
    }

    /// Mark that the terminal has gone away and we must (soon) exit.
    pub fn reader_sighup(&mut self)
        ensures
            final(self)@ == (WorldView { sighup: true, ..old(self)@ }),
    {
        self.sighup_received = true;
    }

    /// Whether the terminal is to be redirected now, so that no script reads from it or writes to it
    /// any more. It is redirected only once.
    pub fn redirect_tty_after_sighup(&mut self) -> (r: bool)
        requires
            old(self)@.sighup,
        ensures
            r == !old(self)@.tty_redirected,
            final(self)@ == (WorldView { tty_redirected: true, ..old(self)@ }),
    {
        let first = !self.tty_redirected;
        self.tty_redirected = true;
        first
    }

    /// Return whether the shell is currently unwinding the stack in preparation to exit.
    pub fn fish_is_unwinding_for_exit(&self) -> (r: bool)
        ensures
            r == self@.unwinding(),
    {
        match self.exit_phase {
            ExitPhase::NotExiting => {
                // Cancel if the terminal has gone away.
                self.sighup_received
            },
            ExitPhase::RunningHandlers => {
                // We intend to exit but we want to allow these handlers to run.
                false
            },
            ExitPhase::FinishedHandlers => {
                // Done running exit handlers, time to exit.
                true
            },
        }
    }

    /// What is known for deciding whether to exit.
    pub fn get_exit_state(&self, has_jobs: bool) -> (r: ExitState)
        ensures
            r == self@.exit_state(has_jobs),
    {
        ExitState {
            sighup: self.sighup_received,
            top_level: self.readers.len() <= 1,
            has_jobs,
        }
    }

    /// Check if we should exit the reader loop. Return true if we should exit. `has_jobs` is whether
    /// there are background jobs that the user would want to know of.
    pub fn check_exit_loop_maybe_warning(&mut self, has_jobs: bool) -> (r: bool)
        requires
            old(self)@.wf(),
        ensures
            r == old(self)@.exits(has_jobs),
            final(self)@ == old(self)@.exit_checked(has_jobs),
            final(self)@.wf(),
    {
        let e = self.get_exit_state(has_jobs);
        if self.readers.len() == 0 {
            return self.sighup_received;
        }
        let mut data = self.pop_data();
        let r = data.check_exit_loop(e);
        self.push_data(data);
        r
    }

    /// Begin a round of reading and executing a command. Return false if we should exit instead.
    pub fn begin_round(&mut self, has_jobs: bool) -> (r: bool)
        requires
            old(self)@.wf(),
        ensures
            r == !old(self)@.exits(has_jobs),
            final(self)@ == if r {
                WorldView {
                    run_count: counted(old(self)@.run_count),
                    ..old(self)@.exit_checked(has_jobs)
                }
            } else {
                old(self)@.exit_checked(has_jobs)
            },
            final(self)@.wf(),
    {
        if self.check_exit_loop_maybe_warning(has_jobs) {
            return false;
        }
        self.run_count = count(self.run_count);
        true
    }

    /// Take over a command that was read. Return it if there is anything to execute.
    pub fn take_command(&mut self, command: Option<WString>) -> (r: Option<WString>)
        requires
            old(self)@.wf(),
            old(self)@.readers.len() > 0,
        ensures
            (match command {
                Some(text) if text@.len() > 0 => {
                    &&& r == command
                    &&& final(self)@ == old(self)@.with_top(old(self)@.top().command_taken())
                },
                _ => r is None && final(self)@ == old(self)@,
            }),
            final(self)@.wf(),
    {
        match command {
            Some(text) => {
                if text.len() == 0 {
                    return None;
                }
                let mut data = self.pop_data();
                data.take_command();
                self.push_data(data);
                Some(text)
            },
            None => None,
        }
    }

    /// Note that a command has run. If it asked for an exit, process that now.
    pub fn command_ran(&mut self, no_status: bool)
        requires
            old(self)@.wf(),
            old(self)@.readers.len() > 0,
        ensures
            final(self)@ == old(self)@.command_ran(no_status),
            final(self)@.wf(),
    {
        if !no_status {
            self.status_count = count(self.status_count);
        }
        let mut reader = self.take_reader();
        reader.note_exit();
        self.put_reader(reader);
    }

    /// End a round. Return false if we should exit.
    pub fn end_round(&mut self, has_jobs: bool) -> (r: bool)
        requires
            old(self)@.wf(),
            old(self)@.readers.len() > 0,
        ensures
            r == !old(self)@.exits(has_jobs),
            final(self)@ == old(self)@.exit_checked_after_command(has_jobs),
            final(self)@.wf(),
    {
        let n = self.readers.len();
        assert(self@.readers[n - 1] == self.readers@[n - 1]@);
        let already_warned = self.readers[n - 1].flags.get(Flag::DidWarnForBgJobs);
        if self.check_exit_loop_maybe_warning(has_jobs) {
            return false;
        }
        if already_warned {
            // We had previously warned the user and they ran another command.
            // Reset the warning.
            let mut data = self.pop_data();
            data.flags.set(Flag::DidWarnForBgJobs, false);
            self.push_data(data);
        }
        true
    }

    /// Begin to exit, if no reader is left. Return whether that is so: then the handlers of the exit
    /// are to be run.
    pub fn begin_exit(&mut self) -> (r: bool)
        ensures
            r == (old(self)@.readers.len() == 0),
            final(self)@ == if r {
                WorldView { exit_phase: ExitPhase::RunningHandlers, ..old(self)@ }
            } else {
                old(self)@
            },
    {
        if self.readers.len() == 0 {
            self.exit_phase = ExitPhase::RunningHandlers;
            true
        } else {
            false
        }
    }

    /// Note that the handlers of the exit have run. No more script is executed.
    pub fn exit_handlers_ran(&mut self)
        ensures
            final(self)@ == (WorldView { exit_phase: ExitPhase::FinishedHandlers, ..old(self)@ }),
    {
        self.exit_phase = ExitPhase::FinishedHandlers;
    }

    /// Leave a script that was read. If the exit command was called in a script, only exit the
    /// script, not the program.
    pub fn leave_script(&mut self)
        ensures
            final(self)@ == (WorldView {
                parser: ParserState { exit_current_script: false, ..old(self)@.parser },
                ..old(self)@
            }),
    {
        self.parser.exit_current_script = false;
    }
}

} // verus!

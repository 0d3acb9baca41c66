//! The state of the interactive reader.

use crate::action::{actions, Action, ActionView};
use crate::command::ReadlineCmd;
use crate::completion::{completions, Completion, CompletionView};
use crate::flags::{switched, Flag, Flags};
use crate::layout::{LayoutData, LayoutView, SelectionData};
use crate::line::{Edit, EditableLine, LineView};
use crate::pager::{Pager, PagerView};
use crate::search::{ReaderHistorySearch, SearchView};
use crate::suggestion::{opt_suggestion, Autosuggestion, SuggestionView};
use crate::text::{opt_extent, WString};
use std::ops::Range;
use vstd::prelude::*;

verus! {

/// Configuration that we provide to a reader.
pub struct ReaderConfig {
    /// Left prompt command, typically fish_prompt.
    pub left_prompt_cmd: WString,
    /// Right prompt command, typically fish_right_prompt.
    pub right_prompt_cmd: WString,
    /// Name of the event to trigger once we're set up.
    pub event: WString,
    /// Whether tab completion is OK.
    pub complete_ok: bool,
    /// Whether to perform syntax highlighting.
    pub highlight_ok: bool,
    /// Whether to perform syntax checking before returning.
    pub syntax_check_ok: bool,
    /// Whether to allow autosuggestions.
    pub autosuggest_ok: bool,
    /// Whether to reexecute prompt function before final rendering.
    pub transient_prompt: bool,
    /// Whether to expand abbreviations.
    pub expand_abbrev_ok: bool,
    /// Whether to exit on interrupt (^C).
    pub exit_on_interrupt: bool,
    /// If set, do not show what is typed.
    pub in_silent_mode: bool,
    /// The fd for stdin, default to actual stdin.
    pub inputfd: i32,
}

pub struct ConfigView {
    pub left_prompt_cmd: Seq<char>,
    pub right_prompt_cmd: Seq<char>,
    pub event: Seq<char>,
    pub complete_ok: bool,
    pub highlight_ok: bool,
    pub syntax_check_ok: bool,
    pub autosuggest_ok: bool,
    pub transient_prompt: bool,
    pub expand_abbrev_ok: bool,
    pub exit_on_interrupt: bool,
    pub in_silent_mode: bool,
    pub inputfd: i32,
}

impl View for ReaderConfig {
    type V = ConfigView;

    open spec fn view(&self) -> ConfigView {
        ConfigView {
            left_prompt_cmd: self.left_prompt_cmd@,
            right_prompt_cmd: self.right_prompt_cmd@,
            event: self.event@,
            complete_ok: self.complete_ok,
            highlight_ok: self.highlight_ok,
            syntax_check_ok: self.syntax_check_ok,
            autosuggest_ok: self.autosuggest_ok,
            transient_prompt: self.transient_prompt,
            expand_abbrev_ok: self.expand_abbrev_ok,
            exit_on_interrupt: self.exit_on_interrupt,
            in_silent_mode: self.in_silent_mode,
            inputfd: self.inputfd,
        }
    }
}

impl ConfigView {
    pub open spec fn default() -> ConfigView {
        ConfigView {
            left_prompt_cmd: Seq::empty(),
            right_prompt_cmd: Seq::empty(),
            event: Seq::empty(),
            complete_ok: false,
            highlight_ok: false,
            syntax_check_ok: false,
            autosuggest_ok: false,
            transient_prompt: false,
            expand_abbrev_ok: false,
            exit_on_interrupt: false,
            in_silent_mode: false,
            inputfd: 0,
        }
    }
}

impl Default for ReaderConfig {
    fn default() -> (r: ReaderConfig)
        ensures
            r@ == ConfigView::default(),
    {
        ReaderConfig {
            left_prompt_cmd: Vec::new(),
            right_prompt_cmd: Vec::new(),
            event: Vec::new(),
            complete_ok: false,
            highlight_ok: false,
            syntax_check_ok: false,
            autosuggest_ok: false,
            transient_prompt: false,
            expand_abbrev_ok: false,
            exit_on_interrupt: false,
            in_silent_mode: false,
            inputfd: 0,
        }
    }
}

/// Strategy for determining how the selection behaves.
#[derive(Clone, Copy, PartialEq, Eq, Structural, Debug)]
pub enum CursorSelectionMode {
    /// The character at/after the cursor is excluded.
    /// This is most useful with a line cursor shape.
    Exclusive,
    /// The character at/after the cursor is included.
    /// This is most useful with a block or underscore cursor shape.
    Inclusive,
}

/// Whether the cursor can stand behind the last character.
#[derive(Clone, Copy, PartialEq, Eq, Structural, Debug)]
pub enum CursorEndMode {
    Exclusive,
    Inclusive,
}

/// A mode for killing text.
#[derive(Clone, Copy, PartialEq, Eq, Structural, Debug)]
pub enum Kill {
    /// In this mode, the new string is appended to the current contents of the kill buffer.
    Append,
    /// In this mode, the new string is prepended to the current contents of the kill buffer.
    Prepend,
}

#[derive(Clone, Copy, PartialEq, Eq, Structural, Debug)]
pub enum JumpDirection {
    Forward,
    Backward,
}

#[derive(Clone, Copy, PartialEq, Eq, Structural, Debug)]
pub enum JumpPrecision {
    Till,
    To,
}

#[derive(Clone, Copy, PartialEq, Eq, Structural, Debug)]
pub enum EditableLineTag {
    Commandline,
    SearchField,
}

/// What the most recent modification of the command line was done by, if it is undone when another
/// such modification is made.
#[derive(Clone, Copy, PartialEq, Eq, Structural, Debug)]
pub enum TransientEdit {
    Pager,
    HistorySearch,
}

/// What a change of the command line does to the autosuggestion.
#[derive(Clone, Copy, PartialEq, Eq, Structural, Debug)]
pub enum AutosuggestionUpdate {
    Preserve,
    Remove,
    RemoveAndSave,
    Restore,
}

/// The state used in a readline loop.
pub struct ReadlineLoopState {
    /// The last command that was executed.
    pub last_cmd: Option<ReadlineCmd>,
    /// If the last command was a yank, the length of yanking that occurred.
    pub yank_len: usize,
    /// If the last "complete" readline command has inserted text into the command line.
    pub complete_did_insert: bool,
    /// If the last "complete" readline command came down to a single completion.
    pub complete_chose_one: bool,
    /// List of completions.
    pub comp: Vec<Completion>,
    /// Whether the loop has finished, due to reaching the character limit or through executing a
    /// command.
    pub finished: bool,
    /// Maximum number of characters to read.
    pub nchars: Option<usize>,
}

#[verifier::ext_equal]
pub struct LoopView {
    pub last_cmd: Option<ReadlineCmd>,
    pub yank_len: int,
    pub complete_did_insert: bool,
    pub complete_chose_one: bool,
    pub comp: Seq<CompletionView>,
    pub finished: bool,
    pub nchars: Option<usize>,
}

impl View for ReadlineLoopState {
    type V = LoopView;

    open spec fn view(&self) -> LoopView {
        LoopView {
            last_cmd: self.last_cmd,
            yank_len: self.yank_len as int,
            complete_did_insert: self.complete_did_insert,
            complete_chose_one: self.complete_chose_one,
            comp: completions(self.comp@),
            finished: self.finished,
            nchars: self.nchars,
        }
    }
}

impl LoopView {
    pub open spec fn start() -> LoopView {
        LoopView {
            last_cmd: None,
            yank_len: 0,
            complete_did_insert: true,
            complete_chose_one: true,
            comp: Seq::empty(),
            finished: false,
            nchars: None,
        }
    }
}

impl ReadlineLoopState {
    pub fn new() -> (r: ReadlineLoopState)
        ensures
            r@ == LoopView::start(),
    {
        let r = ReadlineLoopState {
            last_cmd: None,
            yank_len: 0,
            complete_did_insert: true,
            complete_chose_one: true,
            comp: Vec::new(),
            finished: false,
            nchars: None,
        };
        assert(r@.comp =~= Seq::empty());
        r
    }
}

pub open spec fn opt_loop(r: Option<ReadlineLoopState>) -> Option<LoopView> {
    match r {
        Some(r) => Some(r@),
        None => None,
    }
}

/// A struct describing the state of the interactive reader. These states can be stacked, in case
/// reader_readline() calls are nested. This happens when the 'read' builtin is used.
pub struct ReaderData {
    /// Configuration for the reader.
    pub conf: ReaderConfig,
    /// String containing the whole current commandline.
    pub command_line: EditableLine,
    /// Whether the most recent modification to the command line was done by either history search
    /// or a pager selection change. When this is true and another transient change is made, the
    /// old transient change will be removed from the undo history.
    pub command_line_transient_edit: Option<TransientEdit>,
    /// The most recent layout data sent to the screen.
    pub rendered_layout: LayoutData,
    /// The current autosuggestion.
    pub autosuggestion: Autosuggestion,
    /// A previously valid autosuggestion.
    pub saved_autosuggestion: Option<Autosuggestion>,
    /// Current pager.
    pub pager: Pager,
    pub flags: Flags,
    /// The name of the history.
    pub history_name: WString,
    /// The history search.
    pub history_search: ReaderHistorySearch,
    /// In-pager history search.
    pub history_pager: Option<Range<usize>>,
    /// The cursor selection mode.
    pub cursor_selection_mode: CursorSelectionMode,
    pub cursor_end_mode: CursorEndMode,
    /// The selection data. If this is not none, then we have an active selection.
    pub selection: Option<SelectionData>,
    pub left_prompt_buff: WString,
    pub mode_prompt_buff: WString,
    /// The output of the last evaluation of the right prompt command.
    pub right_prompt_buff: WString,
    /// When navigating the pager, we modify the command line.
    /// This is the saved command line before modification.
    pub cycle_command_line: WString,
    pub cycle_cursor_pos: usize,
    /// The current contents of the top item in the kill ring.
    pub kill_item: WString,
    /// The target character of the last jump command.
    pub last_jump_target: Option<char>,
    pub last_jump_direction: JumpDirection,
    pub last_jump_precision: JumpPrecision,
    /// The text of the most recent asynchronous highlight and autosuggestion requests.
    /// If these differs from the text of the command line, then we must kick off a new request.
    pub in_flight_highlight_request: WString,
    pub in_flight_autosuggest_request: WString,
    pub rls: Option<ReadlineLoopState>,
    /// Any time the contents of a buffer changes, we update the generation count. This allows for
    /// background threads to notice it and skip doing work that they would otherwise have to do.
    pub generation: u32,
    /// What the shell has to carry out, in this order.
    pub actions: Vec<Action>,
}

pub struct DataView {
    pub conf: ConfigView,
    pub command_line: LineView,
    pub transient_edit: Option<TransientEdit>,
    pub rendered: LayoutView,
    pub autosuggestion: SuggestionView,
    pub saved: Option<SuggestionView>,
    pub pager: PagerView,
    pub flags: Set<Flag>,
    pub history_name: Seq<char>,
    pub search: SearchView,
    pub history_pager: Option<Range<int>>,
    pub selection_mode: CursorSelectionMode,
    pub end_mode: CursorEndMode,
    pub selection: Option<SelectionData>,
    pub left_prompt: Seq<char>,
    pub mode_prompt: Seq<char>,
    pub right_prompt: Seq<char>,
    pub cycle_command_line: Seq<char>,
    pub cycle_cursor_pos: int,
    pub kill_item: Seq<char>,
    pub jump_target: Option<char>,
    pub jump_direction: JumpDirection,
    pub jump_precision: JumpPrecision,
    pub in_flight_highlight: Seq<char>,
    pub in_flight_autosuggest: Seq<char>,
    pub rls: Option<LoopView>,
    pub generation: u32,
    pub actions: Seq<ActionView>,
}

impl View for ReaderData {
    type V = DataView;

    open spec fn view(&self) -> DataView {
        DataView {
            conf: self.conf@,
            command_line: self.command_line@,
            transient_edit: self.command_line_transient_edit,
            rendered: self.rendered_layout@,
            autosuggestion: self.autosuggestion@,
            saved: opt_suggestion(self.saved_autosuggestion),
            pager: self.pager@,
            flags: self.flags@,
            history_name: self.history_name@,
            search: self.history_search@,
            history_pager: opt_extent(self.history_pager),
            selection_mode: self.cursor_selection_mode,
            end_mode: self.cursor_end_mode,
            selection: self.selection,
            left_prompt: self.left_prompt_buff@,
            mode_prompt: self.mode_prompt_buff@,
            right_prompt: self.right_prompt_buff@,
            cycle_command_line: self.cycle_command_line@,
            cycle_cursor_pos: self.cycle_cursor_pos as int,
            kill_item: self.kill_item@,
            jump_target: self.last_jump_target,
            jump_direction: self.last_jump_direction,
            jump_precision: self.last_jump_precision,
            in_flight_highlight: self.in_flight_highlight_request@,
            in_flight_autosuggest: self.in_flight_autosuggest_request@,
            rls: opt_loop(self.rls),
            generation: self.generation,
            actions: actions(self.actions@),
        }
    }
}

impl DataView {
    /// What holds between any two calls: the lines are in order, an autosuggestion continues the
    /// command line, and the cursors that are remembered lie in their texts.
    pub open spec fn wf(self) -> bool {
        &&& self.command_line.wf()
        &&& self.pager.search_field.wf()
        &&& self.search.wf()
        &&& self.autosuggestion.text.len() > 0 ==> self.autosuggestion.continues(
            self.command_line.text,
        )
        &&& self.saved matches Some(s) ==> s.continues(self.command_line.text)
        &&& self.history_pager matches Some(r) ==> 0 <= r.start < r.end
        &&& 0 <= self.cycle_cursor_pos <= self.cycle_command_line.len()
        &&& self.selection matches Some(s) ==> s.begin <= isize::MAX
    }

    pub open spec fn queued(self, a: ActionView) -> DataView {
        DataView { actions: self.actions.push(a), ..self }
    }

    pub open spec fn is(self, f: Flag) -> bool {
        self.flags.contains(f)
    }

    pub open spec fn with_flag(self, f: Flag, on: bool) -> DataView {
        DataView { flags: switched(self.flags, f, on), ..self }
    }

    /// The user moves in the list of completions or in the history pager.
    pub open spec fn navigating(self) -> bool {
        self.pager.navigating() || self.history_pager is Some
    }

    pub open spec fn active_tag(self) -> EditableLineTag {
        if self.navigating() && self.pager.search_field_shown {
            EditableLineTag::SearchField
        } else {
            EditableLineTag::Commandline
        }
    }

    pub open spec fn line(self, elt: EditableLineTag) -> LineView {
        match elt {
            EditableLineTag::Commandline => self.command_line,
            EditableLineTag::SearchField => self.pager.search_field,
        }
    }

    pub open spec fn active_line(self) -> LineView {
        self.line(self.active_tag())
    }

    pub open spec fn with_line(self, elt: EditableLineTag, line: LineView) -> DataView {
        match elt {
            EditableLineTag::Commandline => DataView { command_line: line, ..self },
            EditableLineTag::SearchField => DataView {
                pager: PagerView { search_field: line, ..self.pager },
                ..self
            },
        }
    }
}

/// The initial state of a reader with the given history and configuration.
pub open spec fn fresh(
    history: Seq<char>,
    conf: ConfigView,
    command_line: LineView,
    generation: u32,
) -> DataView {
    DataView {
        conf,
        command_line,
        transient_edit: None,
        rendered: LayoutView::blank(),
        autosuggestion: SuggestionView::none(),
        saved: None,
        pager: PagerView::empty(),
        flags: Set::empty().insert(Flag::FirstPrompt),
        history_name: history,
        search: SearchView::inactive(),
        history_pager: None,
        selection_mode: CursorSelectionMode::Exclusive,
        end_mode: CursorEndMode::Exclusive,
        selection: None,
        left_prompt: Seq::empty(),
        mode_prompt: Seq::empty(),
        right_prompt: Seq::empty(),
        cycle_command_line: Seq::empty(),
        cycle_cursor_pos: 0,
        kill_item: Seq::empty(),
        jump_target: None,
        jump_direction: JumpDirection::Forward,
        jump_precision: JumpPrecision::To,
        in_flight_highlight: Seq::empty(),
        in_flight_autosuggest: Seq::empty(),
        rls: None,
        generation,
        actions: Seq::empty(),
    }
}

/// The command line that a reader begins with: that of the snapshot, for a top-level reader.
pub open spec fn initial_line(snapshot: Option<(Seq<char>, int)>) -> LineView {
    match snapshot {
        Some((text, cursor)) => LineView::empty().pushed(
            Range { start: 0, end: 0 },
            text,
            false,
        ).moved_to(cursor),
        None => LineView::empty(),
    }
}

impl ReaderData {
    /// A new reader. A top-level reader takes over the text and cursor of the snapshot.
    pub fn new(
        history_name: WString,
        conf: ReaderConfig,
        snapshot: Option<(WString, usize)>,
        generation: u32,
    ) -> (r: ReaderData)
        requires
            snapshot matches Some((text, cursor)) ==> cursor <= text@.len(),
        ensures
            r@ == fresh(
                history_name@,
                conf@,
                initial_line(
                    match snapshot {
                        Some((text, cursor)) => Some((text@, cursor as int)),
                        None => None,
                    },
                ),
                generation,
            ),
            r@.wf(),
    {
        let mut command_line = EditableLine::new();
        if let Some((text, cursor)) = snapshot {
            let ghost all = text@;
            command_line.push_edit(Edit::new(0..0, text), false);
            assert(command_line@.text =~= all);
            command_line.set_position(cursor);
        }
        let mut flags = Flags::new();
        flags.set(Flag::FirstPrompt, true);
        let r = ReaderData {
            conf,
            command_line,
            command_line_transient_edit: None,
            rendered_layout: LayoutData::new(),
            autosuggestion: Autosuggestion::new(),
            saved_autosuggestion: None,
            pager: Pager::new(),
            flags,
            history_name,
            history_search: ReaderHistorySearch::new(),
            history_pager: None,
            cursor_selection_mode: CursorSelectionMode::Exclusive,
            cursor_end_mode: CursorEndMode::Exclusive,
            selection: None,
            left_prompt_buff: Vec::new(),
            mode_prompt_buff: Vec::new(),
            right_prompt_buff: Vec::new(),
            cycle_command_line: Vec::new(),
            cycle_cursor_pos: 0,
            kill_item: Vec::new(),
            last_jump_target: None,
            last_jump_direction: JumpDirection::Forward,
            last_jump_precision: JumpPrecision::To,
            in_flight_highlight_request: Vec::new(),
            in_flight_autosuggest_request: Vec::new(),
            rls: None,
            generation,
            actions: Vec::new(),
        };
        assert(r@.actions =~= Seq::empty());
        r
    }

    /// Ask the shell to do something.
    pub fn queue(&mut self, a: Action)
        ensures
            final(self)@ == old(self)@.queued(a@),
    {
        let ghost before = self.actions@;
        self.actions.push(a);
        assert(actions(before.push(a)) =~= actions(before).push(a@));
    }

    /// What the shell has to carry out. The caller does so, in this order.
    pub fn take_actions(&mut self) -> (r: Vec<Action>)
        ensures
            actions(r@) == old(self)@.actions,
            final(self)@ == (DataView { actions: Seq::empty(), ..old(self)@ }),
    {
        let mut r: Vec<Action> = Vec::new();
        std::mem::swap(&mut r, &mut self.actions);
        assert(self@.actions =~= Seq::empty());
        r
    }

    /// We repaint our prompt if the tty is reported as having changed. But don't react to tty
    /// changes that we initiated, because of commands or on-variable events.
    pub fn save_screen_state(&mut self)
        ensures
            final(self)@ == old(self)@.queued(ActionView::SaveScreenState),
    {
        self.queue(Action::SaveScreenState);
    }

    pub fn is_navigating_pager_contents(&self) -> (r: bool)
        ensures
            r == self@.navigating(),
    {
        self.pager.is_navigating_contents() || self.history_pager.is_some()
    }

    pub fn edit_line(&self, elt: EditableLineTag) -> (r: &EditableLine)
        ensures
            r@ == self@.line(elt),
    {
        match elt {
            EditableLineTag::Commandline => &self.command_line,
            EditableLineTag::SearchField => &self.pager.search_field_line,
        }
    }

    /// The line that is currently being edited. Typically the command line, but may be the search
    /// field.
    pub fn active_edit_line_tag(&self) -> (r: EditableLineTag)
        ensures
            r == self@.active_tag(),
    {
        if self.is_navigating_pager_contents() && self.pager.search_field_shown {
            return EditableLineTag::SearchField;
        }
        EditableLineTag::Commandline
    }

    pub fn active_edit_line(&self) -> (r: (EditableLineTag, &EditableLine))
        ensures
            r.0 == self@.active_tag(),
            r.1@ == self@.active_line(),
    {
        let elt = self.active_edit_line_tag();
        (elt, self.edit_line(elt))
    }
}

} // verus!

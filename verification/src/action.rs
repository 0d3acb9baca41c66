//! What the reader asks the shell to do.

use crate::command::ReadlineCmd;
use crate::layout::{PaintRequest, PaintView};
use crate::pager::SelectionMotion;
use crate::search::SearchDirection;
use crate::text::WString;
use vstd::prelude::*;

verus! {

/// Why the history pager is filled.
#[derive(Clone, Copy, PartialEq, Eq, Structural, Debug)]
pub enum HistoryPagerInvocation {
    Anew,
    Advance,
    Refresh,
}

/// How long an item of the history is kept.
#[derive(Clone, Copy, PartialEq, Eq, Structural, Debug)]
pub enum PersistenceMode {
    /// Written to disk.
    Disk,
    /// Kept in memory only.
    Memory,
    /// Kept until the next command.
    Ephemeral,
}

/// What follows after the prompts were executed.
#[derive(Clone, Copy, PartialEq, Eq, Structural, Debug)]
pub enum AfterPrompt {
    Nothing,
    /// Repaint if only the mode prompt matters, else execute all prompts.
    RepaintMode,
    /// Repaint.
    Repaint,
}

/// What the syntax check says of a command line.
#[derive(Clone, Copy, PartialEq, Eq, Structural, Debug)]
pub enum SyntaxTest {
    Valid,
    Incomplete,
    Erroneous,
}

/// A search of the history in the background, whose result fills the pager.
#[derive(Clone, Copy, PartialEq, Eq, Structural, Debug)]
pub struct HistoryPagerRequest {
    pub why: HistoryPagerInvocation,
    pub motion: Option<SelectionMotion>,
    pub direction: SearchDirection,
    /// The index in the history at which the search begins.
    pub index: usize,
    /// The completion that is to be selected afterwards.
    pub old_pager_index: Option<usize>,
}

/// Something for the shell to carry out. Actions are queued in the order in which they are to
/// happen.
pub enum Action {
    /// Add a new item to the kill ring.
    KillAdd(WString),
    /// Replace an item of the kill ring.
    KillReplace { old: WString, new: WString },
    /// Run the handlers of `fish_cancel`.
    FireCancel,
    /// Run the handlers of `fish_posterror` for a command line.
    FirePostError(WString),
    /// Run the handlers of `fish_focus_in`.
    FireFocusIn,
    /// Run the handlers of `fish_focus_out`.
    FireFocusOut,
    /// Set the last status to that of a successful command, or of a failed one.
    SetLastStatus { ok: bool },
    /// Report whether the input function did something.
    FunctionStatus(bool),
    /// Put an event into the input queue.
    QueueReadline(ReadlineCmd),
    /// Run a command that belongs to a key binding.
    EvalBind(WString),
    /// Run the scripts of a key binding.
    RunInputCommand(WString),
    /// Paint a layout.
    Paint(PaintRequest),
    /// Forget what is on the screen line, and repaint the prompt.
    ResetLine,
    /// Go on on a fresh screen line.
    ResetAbandoningLine,
    /// Remember the state of the tty, so that our own writing does not cause a repaint.
    SaveScreenState,
    /// Prepare the screen for the final rendering of a prompt.
    MultilinePromptHack,
    /// Scroll the lines above the given row out of view.
    PushToScrollback(usize),
    /// Clear the screen.
    ClearScreen,
    /// Clear the screen below the cursor.
    ClearToEnd,
    /// Print `^C` and a newline behind the command line.
    PrintCancelMark,
    /// Tell the terminal not to report the mouse.
    DisableMouseTracking,
    /// Ask the terminal for the position of the cursor.
    QueryCursorPosition,
    /// Ask the terminal what it can do.
    QueryCapabilities { via_dcs: bool },
    /// Note that the terminal does not support the kitty keyboard protocol.
    NoteKittyUnsupported,
    /// Let a flash be seen.
    Sleep { milliseconds: u64 },
    /// Note the time of the last flash.
    NoteFlash,
    /// Remove an item from the history, and save it.
    RemoveFromHistory(WString),
    /// Remove the items that are kept until the next command.
    RemoveEphemeralItems,
    /// Add an item to the history.
    AddToHistory(WString),
    /// Execute the prompts, and report what they printed by `prompt_executed`.
    ExecPrompt { full_prompt: bool, final_prompt: bool, next: AfterPrompt },
    /// Tell the scripts that run whether they run for a repaint.
    SetRepainting(bool),
    /// Run the handlers of an event.
    FireEvent(WString),
    /// Write a newline behind the command line.
    WriteNewline,
    /// Put the cursor at the beginning of the screen line.
    WriteCarriageReturn,
    /// Print the syntax errors of a command line.
    ReportSyntaxErrors(WString),
    /// Look for an abbreviation at a position of the command line. With the outcome of the syntax
    /// check it is for execution, and reported by `abbreviation_expanded_for_execution`; without, by
    /// `abbreviation_expanded`.
    ExpandAbbreviation { cursor: usize, execution: Option<SyntaxTest> },
    /// Compute completions: go on with `begin_completion`.
    ComputeCompletions { and_search: bool },
    /// The completions or the search field changed: work out which completion is selected, and
    /// report it by `pager_refiltered`.
    RefilterPager,
    /// Select the completion at an index, and report it by `pager_refiltered`.
    SelectCompletion(Option<usize>),
    /// Select another completion, and report it by `selection_moved`.
    MoveSelection { motion: SelectionMotion, force: bool },
    /// The history pager is filled: go on with `show_history_pager`.
    ShowHistoryPager,
    /// Search the history in the background.
    FillHistoryPager(HistoryPagerRequest),
    /// Compute an autosuggestion in the background.
    Autosuggest { command_line: WString, position: usize },
    /// Compute the syntax highlighting in the background.
    Highlight { command_line: WString, position: usize },
    /// Print a warning about background jobs.
    WarnAboutJobs,
    /// The input has ended: exit soon.
    Hangup,
}

pub enum ActionView {
    KillAdd(Seq<char>),
    KillReplace { old: Seq<char>, new: Seq<char> },
    FireCancel,
    FirePostError(Seq<char>),
    FireFocusIn,
    FireFocusOut,
    SetLastStatus { ok: bool },
    FunctionStatus(bool),
    QueueReadline(ReadlineCmd),
    EvalBind(Seq<char>),
    RunInputCommand(Seq<char>),
    Paint(PaintView),
    ResetLine,
    ResetAbandoningLine,
    SaveScreenState,
    MultilinePromptHack,
    PushToScrollback(usize),
    ClearScreen,
    ClearToEnd,
    PrintCancelMark,
    DisableMouseTracking,
    QueryCursorPosition,
    QueryCapabilities { via_dcs: bool },
    NoteKittyUnsupported,
    Sleep { milliseconds: u64 },
    NoteFlash,
    RemoveFromHistory(Seq<char>),
    RemoveEphemeralItems,
    AddToHistory(Seq<char>),
    ExecPrompt { full_prompt: bool, final_prompt: bool, next: AfterPrompt },
    SetRepainting(bool),
    FireEvent(Seq<char>),
    WriteNewline,
    WriteCarriageReturn,
    ReportSyntaxErrors(Seq<char>),
    ExpandAbbreviation { cursor: usize, execution: Option<SyntaxTest> },
    ComputeCompletions { and_search: bool },
    RefilterPager,
    SelectCompletion(Option<usize>),
    MoveSelection { motion: SelectionMotion, force: bool },
    ShowHistoryPager,
    FillHistoryPager(HistoryPagerRequest),
    Autosuggest { command_line: Seq<char>, position: int },
    Highlight { command_line: Seq<char>, position: int },
    WarnAboutJobs,
    Hangup,
}

impl View for Action {
    type V = ActionView;

    open spec fn view(&self) -> ActionView {
        match self {
            Action::KillAdd(text) => ActionView::KillAdd(text@),
            Action::KillReplace { old: o, new } => ActionView::KillReplace { old: o@, new: new@ },
            Action::FireCancel => ActionView::FireCancel,
            Action::FirePostError(text) => ActionView::FirePostError(text@),
            Action::FireFocusIn => ActionView::FireFocusIn,
            Action::FireFocusOut => ActionView::FireFocusOut,
            Action::SetLastStatus { ok } => ActionView::SetLastStatus { ok: *ok },
            Action::FunctionStatus(ok) => ActionView::FunctionStatus(*ok),
            Action::QueueReadline(c) => ActionView::QueueReadline(*c),
            Action::EvalBind(text) => ActionView::EvalBind(text@),
            Action::RunInputCommand(text) => ActionView::RunInputCommand(text@),
            Action::Paint(p) => ActionView::Paint(p@),
            Action::ResetLine => ActionView::ResetLine,
            Action::ResetAbandoningLine => ActionView::ResetAbandoningLine,
            Action::SaveScreenState => ActionView::SaveScreenState,
            Action::MultilinePromptHack => ActionView::MultilinePromptHack,
            Action::PushToScrollback(y) => ActionView::PushToScrollback(*y),
            Action::ClearScreen => ActionView::ClearScreen,
            Action::ClearToEnd => ActionView::ClearToEnd,
            Action::PrintCancelMark => ActionView::PrintCancelMark,
            Action::DisableMouseTracking => ActionView::DisableMouseTracking,
            Action::QueryCursorPosition => ActionView::QueryCursorPosition,
            Action::QueryCapabilities { via_dcs } => ActionView::QueryCapabilities {
                via_dcs: *via_dcs,
            },
            Action::NoteKittyUnsupported => ActionView::NoteKittyUnsupported,
            Action::Sleep { milliseconds } => ActionView::Sleep { milliseconds: *milliseconds },
            Action::NoteFlash => ActionView::NoteFlash,
            Action::RemoveFromHistory(text) => ActionView::RemoveFromHistory(text@),
            Action::RemoveEphemeralItems => ActionView::RemoveEphemeralItems,
            Action::AddToHistory(text) => ActionView::AddToHistory(text@),
            Action::ExecPrompt { full_prompt, final_prompt, next } => ActionView::ExecPrompt {
                full_prompt: *full_prompt,
                final_prompt: *final_prompt,
                next: *next,
            },
            Action::SetRepainting(on) => ActionView::SetRepainting(*on),
            Action::FireEvent(name) => ActionView::FireEvent(name@),
            Action::WriteNewline => ActionView::WriteNewline,
            Action::WriteCarriageReturn => ActionView::WriteCarriageReturn,
            Action::ReportSyntaxErrors(text) => ActionView::ReportSyntaxErrors(text@),
            Action::ExpandAbbreviation { cursor, execution } => ActionView::ExpandAbbreviation {
                cursor: *cursor,
                execution: *execution,
            },
            Action::ComputeCompletions { and_search } => ActionView::ComputeCompletions {
                and_search: *and_search,
            },
            Action::RefilterPager => ActionView::RefilterPager,
            Action::SelectCompletion(index) => ActionView::SelectCompletion(*index),
            Action::ShowHistoryPager => ActionView::ShowHistoryPager,
            Action::MoveSelection { motion, force } => ActionView::MoveSelection {
                motion: *motion,
                force: *force,
            },
            Action::FillHistoryPager(r) => ActionView::FillHistoryPager(*r),
            Action::Autosuggest { command_line, position } => ActionView::Autosuggest {
                command_line: command_line@,
                position: *position as int,
            },
            Action::Highlight { command_line, position } => ActionView::Highlight {
                command_line: command_line@,
                position: *position as int,
            },
            Action::WarnAboutJobs => ActionView::WarnAboutJobs,
            Action::Hangup => ActionView::Hangup,
        }
    }
}

pub open spec fn actions(s: Seq<Action>) -> Seq<ActionView> {
    s.map_values(|a: Action| a@)
}

} // verus!

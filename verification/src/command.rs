//! The commands that keys can be bound to, and the events that the reader handles.

use crate::text::WString;
use vstd::prelude::*;

verus! {

/// What a key binding can ask of the reader.
#[derive(Clone, Copy, PartialEq, Eq, Structural, Debug)]
pub enum ReadlineCmd {
    BeginningOfLine,
    EndOfLine,
    BeginningOfBuffer,
    EndOfBuffer,
    CancelCommandline,
    ClearCommandline,
    Cancel,
    Complete,
    CompleteAndSearch,
    RepaintMode,
    ForceRepaint,
    Repaint,
    PagerToggleSearch,
    KillLine,
    BackwardKillLine,
    KillWholeLine,
    KillInnerLine,
    Yank,
    YankPop,
    BackwardDeleteChar,
    Exit,
    DeleteOrExit,
    DeleteChar,
    Execute,
    HistoryPrefixSearchBackward,
    HistoryPrefixSearchForward,
    HistorySearchBackward,
    HistorySearchForward,
    HistoryTokenSearchBackward,
    HistoryTokenSearchForward,
    HistoryLastTokenSearchBackward,
    HistoryLastTokenSearchForward,
    HistoryPager,
    HistoryDelete,
    HistoryPagerDelete,
    BackwardChar,
    BackwardCharPassive,
    ForwardChar,
    ForwardSingleChar,
    ForwardCharPassive,
    BackwardKillWord,
    BackwardKillPathComponent,
    BackwardKillBigword,
    KillWord,
    KillBigword,
    BackwardKillToken,
    BackwardToken,
    KillToken,
    ForwardToken,
    BackwardWord,
    BackwardBigword,
    PrevdOrBackwardWord,
    ForwardWord,
    ForwardBigword,
    NextdOrForwardWord,
    BeginningOfHistory,
    EndOfHistory,
    UpLine,
    DownLine,
    SuppressAutosuggestion,
    AcceptAutosuggestion,
    TransposeChars,
    TransposeWords,
    TogglecaseChar,
    TogglecaseSelection,
    UpcaseSelection,
    DowncaseSelection,
    UpcaseWord,
    DowncaseWord,
    CapitalizeWord,
    BeginSelection,
    EndSelection,
    SwapSelectionStartStop,
    KillSelection,
    InsertLineOver,
    InsertLineUnder,
    ForwardJump,
    BackwardJump,
    ForwardJumpTill,
    BackwardJumpTill,
    JumpToMatchingBracket,
    JumpTillMatchingBracket,
    RepeatJump,
    ReverseRepeatJump,
    ExpandAbbr,
    Undo,
    Redo,
    BeginUndoGroup,
    EndUndoGroup,
    ClearScreenAndRepaint,
    ScrollbackPush,
    SelfInsert,
    SelfInsertNotFirst,
    FuncAnd,
    FuncOr,
}

/// Whether a character is inserted at the very beginning of the line.
#[derive(Clone, Copy, PartialEq, Eq, Structural, Debug)]
pub enum CharInputStyle {
    Normal,
    NotFirst,
}

/// A key press, with the character that it stands for, if any.
#[derive(Clone, Copy, PartialEq, Eq, Structural, Debug)]
pub struct KeyEvent {
    pub input_style: CharInputStyle,
    pub codepoint_text: Option<char>,
}

/// A cell of the terminal, counted from the top left.
#[derive(Clone, Copy, PartialEq, Eq, Structural, Debug)]
pub struct ViewportPosition {
    pub x: usize,
    pub y: usize,
}

#[derive(Clone, Copy, PartialEq, Eq, Structural, Debug)]
pub enum ImplicitEvent {
    Eof,
    CheckExit,
    FocusIn,
    FocusOut,
    DisableMouseTracking,
    MouseLeft(ViewportPosition),
}

/// Why the cursor position was asked for.
#[derive(Clone, Copy, PartialEq, Eq, Structural, Debug)]
pub enum CursorPositionQuery {
    MouseLeft(ViewportPosition),
    ScrollbackPush,
}

/// A query that the terminal has not answered yet.
#[derive(Clone, Copy, PartialEq, Eq, Structural, Debug)]
pub enum TerminalQuery {
    PrimaryDeviceAttribute,
    CursorPositionReport(CursorPositionQuery),
}

#[derive(Clone, Copy, PartialEq, Eq, Structural, Debug)]
pub enum QueryResponseEvent {
    PrimaryDeviceAttribute,
    CursorPositionReport(ViewportPosition),
}

pub enum CharEvent {
    Readline(ReadlineCmd),
    Command(WString),
    Key(KeyEvent),
    Implicit(ImplicitEvent),
    QueryResponse(QueryResponseEvent),
}

/// These commands always end paging.
pub open spec fn always_ends_paging(c: ReadlineCmd) -> bool {
    is_history_search(c) || c == ReadlineCmd::AcceptAutosuggestion || c == ReadlineCmd::DeleteOrExit
        || c == ReadlineCmd::CancelCommandline || c == ReadlineCmd::ClearCommandline || c
        == ReadlineCmd::Cancel
}

/// These commands operate on the search field if that is where the focus is.
pub open spec fn edits_focused_line(c: ReadlineCmd) -> bool {
    match c {
        ReadlineCmd::BeginningOfLine | ReadlineCmd::EndOfLine | ReadlineCmd::BeginningOfBuffer
        | ReadlineCmd::EndOfBuffer => true,
        ReadlineCmd::ForwardWord | ReadlineCmd::BackwardWord | ReadlineCmd::ForwardBigword
        | ReadlineCmd::BackwardBigword | ReadlineCmd::ForwardToken | ReadlineCmd::BackwardToken
        | ReadlineCmd::NextdOrForwardWord | ReadlineCmd::PrevdOrBackwardWord => true,
        ReadlineCmd::DeleteChar | ReadlineCmd::BackwardDeleteChar => true,
        ReadlineCmd::KillLine | ReadlineCmd::BackwardKillLine | ReadlineCmd::KillWholeLine
        | ReadlineCmd::KillInnerLine | ReadlineCmd::KillWord | ReadlineCmd::KillBigword
        | ReadlineCmd::KillToken | ReadlineCmd::BackwardKillWord
        | ReadlineCmd::BackwardKillPathComponent | ReadlineCmd::BackwardKillBigword
        | ReadlineCmd::BackwardKillToken | ReadlineCmd::Yank | ReadlineCmd::YankPop => true,
        ReadlineCmd::SelfInsert | ReadlineCmd::SelfInsertNotFirst => true,
        ReadlineCmd::TransposeChars | ReadlineCmd::TransposeWords | ReadlineCmd::UpcaseWord
        | ReadlineCmd::DowncaseWord | ReadlineCmd::CapitalizeWord => true,
        ReadlineCmd::Undo | ReadlineCmd::Redo => true,
        _ => false,
    }
}

pub open spec fn ends_paging(c: ReadlineCmd, focused_on_search_field: bool) -> bool {
    always_ends_paging(c) || (edits_focused_line(c) && !focused_on_search_field)
}

/// The commands that search the history for the command line or a token of it.
pub open spec fn is_history_search(c: ReadlineCmd) -> bool {
    match c {
        ReadlineCmd::HistoryPrefixSearchBackward | ReadlineCmd::HistoryPrefixSearchForward
        | ReadlineCmd::HistorySearchBackward | ReadlineCmd::HistorySearchForward
        | ReadlineCmd::HistoryTokenSearchBackward | ReadlineCmd::HistoryTokenSearchForward
        | ReadlineCmd::HistoryLastTokenSearchBackward
        | ReadlineCmd::HistoryLastTokenSearchForward => true,
        _ => false,
    }
}

/// A history search goes on through the commands that move in it or repaint.
pub open spec fn ends_history_search(c: ReadlineCmd) -> bool {
    !is_history_search(c) && c != ReadlineCmd::HistoryDelete && c != ReadlineCmd::HistoryPagerDelete
        && c != ReadlineCmd::BeginningOfHistory && c != ReadlineCmd::EndOfHistory && c
        != ReadlineCmd::Repaint && c != ReadlineCmd::ForceRepaint
}

pub open spec fn is_repaint(c: ReadlineCmd) -> bool {
    c == ReadlineCmd::ClearScreenAndRepaint || c == ReadlineCmd::RepaintMode || c
        == ReadlineCmd::Repaint || c == ReadlineCmd::ForceRepaint
}

/// Indicates if the given command ends paging.
pub fn command_ends_paging(c: ReadlineCmd, focused_on_search_field: bool) -> (r: bool)
    ensures
        r == ends_paging(c, focused_on_search_field),
{
    match c {
        ReadlineCmd::HistoryPrefixSearchBackward
        | ReadlineCmd::HistoryPrefixSearchForward
        | ReadlineCmd::HistorySearchBackward
        | ReadlineCmd::HistorySearchForward
        | ReadlineCmd::HistoryTokenSearchBackward
        | ReadlineCmd::HistoryTokenSearchForward
        | ReadlineCmd::HistoryLastTokenSearchBackward
        | ReadlineCmd::HistoryLastTokenSearchForward
        | ReadlineCmd::AcceptAutosuggestion
        | ReadlineCmd::DeleteOrExit
        | ReadlineCmd::CancelCommandline
        | ReadlineCmd::ClearCommandline
        | ReadlineCmd::Cancel => true,
        ReadlineCmd::BeginningOfLine
        | ReadlineCmd::EndOfLine
        | ReadlineCmd::ForwardWord
        | ReadlineCmd::BackwardWord
        | ReadlineCmd::ForwardBigword
        | ReadlineCmd::BackwardBigword
        | ReadlineCmd::ForwardToken
        | ReadlineCmd::BackwardToken
        | ReadlineCmd::NextdOrForwardWord
        | ReadlineCmd::PrevdOrBackwardWord
        | ReadlineCmd::DeleteChar
        | ReadlineCmd::BackwardDeleteChar
        | ReadlineCmd::KillLine
        | ReadlineCmd::Yank
        | ReadlineCmd::YankPop
        | ReadlineCmd::BackwardKillLine
        | ReadlineCmd::KillWholeLine
        | ReadlineCmd::KillInnerLine
        | ReadlineCmd::KillWord
        | ReadlineCmd::KillBigword
        | ReadlineCmd::KillToken
        | ReadlineCmd::BackwardKillWord
        | ReadlineCmd::BackwardKillPathComponent
        | ReadlineCmd::BackwardKillBigword
        | ReadlineCmd::BackwardKillToken
        | ReadlineCmd::SelfInsert
        | ReadlineCmd::SelfInsertNotFirst
        | ReadlineCmd::TransposeChars
        | ReadlineCmd::TransposeWords
        | ReadlineCmd::UpcaseWord
        | ReadlineCmd::DowncaseWord
        | ReadlineCmd::CapitalizeWord
        | ReadlineCmd::BeginningOfBuffer
        | ReadlineCmd::EndOfBuffer
        | ReadlineCmd::Undo
        | ReadlineCmd::Redo => !focused_on_search_field,
        // Executing does end paging, but it executes only where it was not paging, so that it is
        // handled specially. The other commands never end paging.
        _ => false,
    }
}

/// Indicates if the given command ends the history search.
pub fn command_ends_history_search(c: ReadlineCmd) -> (r: bool)
    ensures
        r == ends_history_search(c),
{
    !matches!(
        c,
        ReadlineCmd::HistoryPrefixSearchBackward
            | ReadlineCmd::HistoryPrefixSearchForward
            | ReadlineCmd::HistorySearchBackward
            | ReadlineCmd::HistorySearchForward
            | ReadlineCmd::HistoryTokenSearchBackward
            | ReadlineCmd::HistoryTokenSearchForward
            | ReadlineCmd::HistoryLastTokenSearchBackward
            | ReadlineCmd::HistoryLastTokenSearchForward
            | ReadlineCmd::HistoryDelete
            | ReadlineCmd::HistoryPagerDelete
            | ReadlineCmd::BeginningOfHistory
            | ReadlineCmd::EndOfHistory
            | ReadlineCmd::Repaint
            | ReadlineCmd::ForceRepaint
    )
}

} // verus!

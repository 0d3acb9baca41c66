//! Running the commands that keys are bound to.

use crate::action::{Action, ActionView, SyntaxTest};
use crate::command::ReadlineCmd;
use crate::cursor::{AutosuggestionPortion, LexedToken, TokenExtent, TokenView};
use crate::data::{DataView, EditableLineTag, JumpDirection, JumpPrecision, ReaderData};
use crate::finish::ExitState;
use crate::flags::Flag;
use crate::motion::{MoveWordDir, MoveWordStyle};
use crate::paint::ScreenState;
use crate::recall::{
    get_history_pager_prefix, history_pager_prefix, SearchAnswers, SearchAnswersView,
};
use crate::rewrite::CaseChange;
use crate::search::{found, MatchView, SearchDirection, SearchMatch, SearchMode};
use crate::text::{inside, WString};
use vstd::prelude::*;

verus! {

/// For each style, and each character in the direction of a motion by a word, whether the character
/// belongs to the word.
pub struct WordAnswers {
    pub punctuation: Vec<bool>,
    pub path_components: Vec<bool>,
    pub whitespace: Vec<bool>,
}

#[verifier::ext_equal]
pub struct WordAnswersView {
    pub punctuation: Seq<bool>,
    pub path_components: Seq<bool>,
    pub whitespace: Seq<bool>,
}

impl View for WordAnswers {
    type V = WordAnswersView;

    open spec fn view(&self) -> WordAnswersView {
        WordAnswersView {
            punctuation: self.punctuation@,
            path_components: self.path_components@,
            whitespace: self.whitespace@,
        }
    }
}

impl WordAnswersView {
    pub open spec fn of(self, style: MoveWordStyle) -> Seq<bool> {
        match style {
            MoveWordStyle::Punctuation => self.punctuation,
            MoveWordStyle::PathComponents => self.path_components,
            MoveWordStyle::Whitespace => self.whitespace,
        }
    }
}

impl WordAnswers {
    pub fn of(&self, style: MoveWordStyle) -> (r: &Vec<bool>)
        ensures
            r@ == self@.of(style),
    {
        match style {
            MoveWordStyle::Punctuation => &self.punctuation,
            MoveWordStyle::PathComponents => &self.path_components,
            MoveWordStyle::Whitespace => &self.whitespace,
        }
    }
}

/// What a command takes for a word. The "bigword" functions differ only in that they move to the
/// next whitespace, not punctuation.
pub open spec fn word_style(c: ReadlineCmd) -> Option<MoveWordStyle> {
    match c {
        ReadlineCmd::BackwardKillPathComponent => Some(MoveWordStyle::PathComponents),
        ReadlineCmd::BackwardKillBigword | ReadlineCmd::KillBigword | ReadlineCmd::BackwardBigword
        | ReadlineCmd::ForwardBigword => Some(MoveWordStyle::Whitespace),
        ReadlineCmd::BackwardKillWord | ReadlineCmd::KillWord | ReadlineCmd::BackwardWord
        | ReadlineCmd::PrevdOrBackwardWord | ReadlineCmd::ForwardWord
        | ReadlineCmd::NextdOrForwardWord | ReadlineCmd::UpcaseWord | ReadlineCmd::DowncaseWord
        | ReadlineCmd::CapitalizeWord => Some(MoveWordStyle::Punctuation),
        _ => None,
    }
}

/// What a command takes for a word, if it deals with words.
pub fn move_word_style(c: ReadlineCmd) -> (r: Option<MoveWordStyle>)
    ensures
        r == word_style(c),
{
    match c {
        ReadlineCmd::BackwardKillPathComponent => Some(MoveWordStyle::PathComponents),
        ReadlineCmd::BackwardKillBigword | ReadlineCmd::KillBigword | ReadlineCmd::BackwardBigword
        | ReadlineCmd::ForwardBigword => Some(MoveWordStyle::Whitespace),
        ReadlineCmd::BackwardKillWord | ReadlineCmd::KillWord | ReadlineCmd::BackwardWord
        | ReadlineCmd::PrevdOrBackwardWord | ReadlineCmd::ForwardWord
        | ReadlineCmd::NextdOrForwardWord | ReadlineCmd::UpcaseWord | ReadlineCmd::DowncaseWord
        | ReadlineCmd::CapitalizeWord => Some(MoveWordStyle::Punctuation),
        _ => None,
    }
}

/// What the shell knows around the reader, as far as a command asks for it.
pub struct Surroundings {
    pub screen: ScreenState,
    pub exit: ExitState,
    /// The width of each character of the active line.
    pub widths: Vec<i32>,
    /// The word in the direction of a motion by a word.
    pub words: WordAnswers,
    /// The tokens at the cursor of the active line; for transposing words, at the next word.
    pub token: TokenExtent,
    /// For transposing words, the tokens at the end of the earlier token.
    pub retry_token: TokenExtent,
    /// Where the command substitution at the cursor begins, and its tokens.
    pub cmdsub_start: usize,
    pub tokens: Vec<LexedToken>,
    /// The selection in the pager is in the first row and the first column.
    pub selection_at_top: bool,
    /// The indentation of each character of the active line.
    pub indents: Vec<i32>,
    pub search: SearchAnswers,
    /// The results of the history search that were not found yet.
    pub older: Vec<SearchMatch>,
    pub history_size: usize,
    /// The terminal can show more than single bytes.
    pub multibyte: bool,
    /// What the history pager searches for, with its wildcards escaped.
    pub needle: WString,
    /// The item of the kill ring to insert.
    pub yank: WString,
    /// The character to jump to.
    pub jump_target: Option<char>,
    /// The last token of the command line is a comment.
    pub ends_in_comment: bool,
    /// What the syntax check says of the command line.
    pub syntax: SyntaxTest,
}

#[verifier::ext_equal]
pub struct SurroundingsView {
    pub screen: ScreenState,
    pub exit: ExitState,
    pub widths: Seq<i32>,
    pub words: WordAnswersView,
    pub token: TokenView,
    pub retry_token: TokenView,
    pub cmdsub_start: int,
    pub tokens: Seq<LexedToken>,
    pub selection_at_top: bool,
    pub indents: Seq<i32>,
    pub search: SearchAnswersView,
    pub older: Seq<MatchView>,
    pub history_size: int,
    pub multibyte: bool,
    pub needle: Seq<char>,
    pub yank: Seq<char>,
    pub jump_target: Option<char>,
    pub ends_in_comment: bool,
    pub syntax: SyntaxTest,
}

impl View for Surroundings {
    type V = SurroundingsView;

    open spec fn view(&self) -> SurroundingsView {
        SurroundingsView {
            screen: self.screen,
            exit: self.exit,
            widths: self.widths@,
            words: self.words@,
            token: self.token@,
            retry_token: self.retry_token@,
            cmdsub_start: self.cmdsub_start as int,
            tokens: self.tokens@,
            selection_at_top: self.selection_at_top,
            indents: self.indents@,
            search: self.search@,
            older: found(self.older@),
            history_size: self.history_size as int,
            multibyte: self.multibyte,
            needle: self.needle@,
            yank: self.yank@,
            jump_target: self.jump_target,
            ends_in_comment: self.ends_in_comment,
            syntax: self.syntax,
        }
    }
}

impl SurroundingsView {
    /// The word that a command deals with.
    pub open spec fn word(self, c: ReadlineCmd) -> Seq<bool> {
        match word_style(c) {
            Some(style) => self.words.of(style),
            None => Seq::empty(),
        }
    }
}

impl Surroundings {
    /// The word that a command deals with.
    pub fn word(&self, c: ReadlineCmd) -> (r: &[bool])
        ensures
            r@ == self@.word(c),
    {
        match move_word_style(c) {
            Some(style) => self.words.of(style).as_slice(),
            None => &[],
        }
    }
}

/// What a command has to do with.
#[derive(Clone, Copy, PartialEq, Eq, Structural, Debug)]
pub enum CommandGroup {
    /// Moving the cursor.
    Motion,
    /// Killing text and bringing it back.
    Kill,
    /// Changing the text otherwise, or the selection.
    Rewrite,
    /// The history and the autosuggestion.
    History,
    /// Ending the editing, completing, repainting.
    Control,
    /// Scrolling what is above the prompt out of view.
    Scrollback,
    /// Nothing: the input has dealt with it already.
    Inert,
}

pub open spec fn group_of(c: ReadlineCmd) -> CommandGroup {
    match c {
        ReadlineCmd::BeginningOfLine | ReadlineCmd::EndOfLine | ReadlineCmd::BeginningOfBuffer
        | ReadlineCmd::EndOfBuffer | ReadlineCmd::BackwardChar
        | ReadlineCmd::BackwardCharPassive | ReadlineCmd::ForwardChar
        | ReadlineCmd::ForwardSingleChar | ReadlineCmd::ForwardCharPassive
        | ReadlineCmd::BackwardToken | ReadlineCmd::ForwardToken | ReadlineCmd::BackwardWord
        | ReadlineCmd::BackwardBigword | ReadlineCmd::PrevdOrBackwardWord
        | ReadlineCmd::ForwardWord | ReadlineCmd::ForwardBigword
        | ReadlineCmd::NextdOrForwardWord | ReadlineCmd::UpLine | ReadlineCmd::DownLine
        | ReadlineCmd::ForwardJump | ReadlineCmd::BackwardJump | ReadlineCmd::ForwardJumpTill
        | ReadlineCmd::BackwardJumpTill | ReadlineCmd::JumpToMatchingBracket
        | ReadlineCmd::JumpTillMatchingBracket | ReadlineCmd::RepeatJump
        | ReadlineCmd::ReverseRepeatJump => CommandGroup::Motion,
        ReadlineCmd::KillLine | ReadlineCmd::BackwardKillLine | ReadlineCmd::KillWholeLine
        | ReadlineCmd::KillInnerLine | ReadlineCmd::Yank | ReadlineCmd::YankPop
        | ReadlineCmd::BackwardKillWord | ReadlineCmd::BackwardKillPathComponent
        | ReadlineCmd::BackwardKillBigword | ReadlineCmd::KillWord | ReadlineCmd::KillBigword
        | ReadlineCmd::BackwardKillToken | ReadlineCmd::KillToken | ReadlineCmd::KillSelection => CommandGroup::Kill,
        ReadlineCmd::BackwardDeleteChar | ReadlineCmd::TransposeChars
        | ReadlineCmd::TransposeWords | ReadlineCmd::TogglecaseChar
        | ReadlineCmd::TogglecaseSelection | ReadlineCmd::UpcaseSelection
        | ReadlineCmd::DowncaseSelection | ReadlineCmd::UpcaseWord | ReadlineCmd::DowncaseWord
        | ReadlineCmd::CapitalizeWord | ReadlineCmd::BeginSelection | ReadlineCmd::EndSelection
        | ReadlineCmd::SwapSelectionStartStop | ReadlineCmd::InsertLineOver
        | ReadlineCmd::InsertLineUnder | ReadlineCmd::Undo | ReadlineCmd::Redo
        | ReadlineCmd::BeginUndoGroup | ReadlineCmd::EndUndoGroup => CommandGroup::Rewrite,
        ReadlineCmd::HistoryPrefixSearchBackward | ReadlineCmd::HistoryPrefixSearchForward
        | ReadlineCmd::HistorySearchBackward | ReadlineCmd::HistorySearchForward
        | ReadlineCmd::HistoryTokenSearchBackward | ReadlineCmd::HistoryTokenSearchForward
        | ReadlineCmd::HistoryLastTokenSearchBackward
        | ReadlineCmd::HistoryLastTokenSearchForward | ReadlineCmd::HistoryPager
        | ReadlineCmd::HistoryDelete | ReadlineCmd::HistoryPagerDelete
        | ReadlineCmd::BeginningOfHistory | ReadlineCmd::EndOfHistory
        | ReadlineCmd::PagerToggleSearch | ReadlineCmd::SuppressAutosuggestion
        | ReadlineCmd::AcceptAutosuggestion => CommandGroup::History,
        ReadlineCmd::CancelCommandline | ReadlineCmd::ClearCommandline | ReadlineCmd::Cancel
        | ReadlineCmd::RepaintMode | ReadlineCmd::ForceRepaint | ReadlineCmd::Repaint
        | ReadlineCmd::ClearScreenAndRepaint | ReadlineCmd::Complete
        | ReadlineCmd::CompleteAndSearch | ReadlineCmd::Exit | ReadlineCmd::DeleteOrExit
        | ReadlineCmd::DeleteChar | ReadlineCmd::Execute | ReadlineCmd::ExpandAbbr => CommandGroup::Control,
        ReadlineCmd::ScrollbackPush => CommandGroup::Scrollback,
        ReadlineCmd::SelfInsert | ReadlineCmd::SelfInsertNotFirst | ReadlineCmd::FuncAnd
        | ReadlineCmd::FuncOr => CommandGroup::Inert,
    }
}

pub fn command_group(c: ReadlineCmd) -> (r: CommandGroup)
    ensures
        r == group_of(c),
{
    match c {
        ReadlineCmd::BeginningOfLine | ReadlineCmd::EndOfLine | ReadlineCmd::BeginningOfBuffer
        | ReadlineCmd::EndOfBuffer | ReadlineCmd::BackwardChar
        | ReadlineCmd::BackwardCharPassive | ReadlineCmd::ForwardChar
        | ReadlineCmd::ForwardSingleChar | ReadlineCmd::ForwardCharPassive
        | ReadlineCmd::BackwardToken | ReadlineCmd::ForwardToken | ReadlineCmd::BackwardWord
        | ReadlineCmd::BackwardBigword | ReadlineCmd::PrevdOrBackwardWord
        | ReadlineCmd::ForwardWord | ReadlineCmd::ForwardBigword
        | ReadlineCmd::NextdOrForwardWord | ReadlineCmd::UpLine | ReadlineCmd::DownLine
        | ReadlineCmd::ForwardJump | ReadlineCmd::BackwardJump | ReadlineCmd::ForwardJumpTill
        | ReadlineCmd::BackwardJumpTill | ReadlineCmd::JumpToMatchingBracket
        | ReadlineCmd::JumpTillMatchingBracket | ReadlineCmd::RepeatJump
        | ReadlineCmd::ReverseRepeatJump => CommandGroup::Motion,
        ReadlineCmd::KillLine | ReadlineCmd::BackwardKillLine | ReadlineCmd::KillWholeLine
        | ReadlineCmd::KillInnerLine | ReadlineCmd::Yank | ReadlineCmd::YankPop
        | ReadlineCmd::BackwardKillWord | ReadlineCmd::BackwardKillPathComponent
        | ReadlineCmd::BackwardKillBigword | ReadlineCmd::KillWord | ReadlineCmd::KillBigword
        | ReadlineCmd::BackwardKillToken | ReadlineCmd::KillToken | ReadlineCmd::KillSelection => CommandGroup::Kill,
        ReadlineCmd::BackwardDeleteChar | ReadlineCmd::TransposeChars
        | ReadlineCmd::TransposeWords | ReadlineCmd::TogglecaseChar
        | ReadlineCmd::TogglecaseSelection | ReadlineCmd::UpcaseSelection
        | ReadlineCmd::DowncaseSelection | ReadlineCmd::UpcaseWord | ReadlineCmd::DowncaseWord
        | ReadlineCmd::CapitalizeWord | ReadlineCmd::BeginSelection | ReadlineCmd::EndSelection
        | ReadlineCmd::SwapSelectionStartStop | ReadlineCmd::InsertLineOver
        | ReadlineCmd::InsertLineUnder | ReadlineCmd::Undo | ReadlineCmd::Redo
        | ReadlineCmd::BeginUndoGroup | ReadlineCmd::EndUndoGroup => CommandGroup::Rewrite,
        ReadlineCmd::HistoryPrefixSearchBackward | ReadlineCmd::HistoryPrefixSearchForward
        | ReadlineCmd::HistorySearchBackward | ReadlineCmd::HistorySearchForward
        | ReadlineCmd::HistoryTokenSearchBackward | ReadlineCmd::HistoryTokenSearchForward
        | ReadlineCmd::HistoryLastTokenSearchBackward
        | ReadlineCmd::HistoryLastTokenSearchForward | ReadlineCmd::HistoryPager
        | ReadlineCmd::HistoryDelete | ReadlineCmd::HistoryPagerDelete
        | ReadlineCmd::BeginningOfHistory | ReadlineCmd::EndOfHistory
        | ReadlineCmd::PagerToggleSearch | ReadlineCmd::SuppressAutosuggestion
        | ReadlineCmd::AcceptAutosuggestion => CommandGroup::History,
        ReadlineCmd::CancelCommandline | ReadlineCmd::ClearCommandline | ReadlineCmd::Cancel
        | ReadlineCmd::RepaintMode | ReadlineCmd::ForceRepaint | ReadlineCmd::Repaint
        | ReadlineCmd::ClearScreenAndRepaint | ReadlineCmd::Complete
        | ReadlineCmd::CompleteAndSearch | ReadlineCmd::Exit | ReadlineCmd::DeleteOrExit
        | ReadlineCmd::DeleteChar | ReadlineCmd::Execute | ReadlineCmd::ExpandAbbr => CommandGroup::Control,
        ReadlineCmd::ScrollbackPush => CommandGroup::Scrollback,
        ReadlineCmd::SelfInsert | ReadlineCmd::SelfInsertNotFirst | ReadlineCmd::FuncAnd
        | ReadlineCmd::FuncOr => CommandGroup::Inert,
    }
}

/// The kind of search that a command does.
pub open spec fn search_mode(c: ReadlineCmd) -> SearchMode {
    match c {
        ReadlineCmd::HistoryTokenSearchBackward
        | ReadlineCmd::HistoryTokenSearchForward => SearchMode::Token,
        ReadlineCmd::HistoryLastTokenSearchBackward
        | ReadlineCmd::HistoryLastTokenSearchForward => SearchMode::LastToken,
        ReadlineCmd::HistoryPrefixSearchBackward
        | ReadlineCmd::HistoryPrefixSearchForward => SearchMode::Prefix,
        ReadlineCmd::HistorySearchBackward | ReadlineCmd::HistorySearchForward => SearchMode::Line,
        _ => SearchMode::Inactive,
    }
}

pub open spec fn search_direction(c: ReadlineCmd) -> SearchDirection {
    match c {
        ReadlineCmd::HistorySearchBackward | ReadlineCmd::HistoryTokenSearchBackward
        | ReadlineCmd::HistoryLastTokenSearchBackward
        | ReadlineCmd::HistoryPrefixSearchBackward => SearchDirection::Backward,
        _ => SearchDirection::Forward,
    }
}

pub open spec fn jump_direction(c: ReadlineCmd) -> JumpDirection {
    match c {
        ReadlineCmd::ForwardJump | ReadlineCmd::ForwardJumpTill => JumpDirection::Forward,
        _ => JumpDirection::Backward,
    }
}

pub open spec fn jump_precision(c: ReadlineCmd) -> JumpPrecision {
    match c {
        ReadlineCmd::ForwardJumpTill | ReadlineCmd::BackwardJumpTill
        | ReadlineCmd::JumpTillMatchingBracket => JumpPrecision::Till,
        _ => JumpPrecision::To,
    }
}

/// The kills of words backwards go into one item of the kill ring, whatever the kind of word.
pub open spec fn kills_word_backwards(c: Option<ReadlineCmd>) -> bool {
    c == Some(ReadlineCmd::BackwardKillWord) || c == Some(ReadlineCmd::BackwardKillPathComponent)
        || c == Some(ReadlineCmd::BackwardKillBigword)
}

impl DataView {
    /// The commands that move the cursor.
    #[verifier::opaque]
    pub open spec fn cursor_command(self, c: ReadlineCmd, env: SurroundingsView) -> DataView {
        match c {
            ReadlineCmd::BeginningOfLine => self.at_line_beginning(),
            ReadlineCmd::EndOfLine => self.at_line_finish(),
            ReadlineCmd::BeginningOfBuffer => self.moved(EditableLineTag::Commandline, Some(0)),
            ReadlineCmd::EndOfBuffer => self.moved(
                EditableLineTag::Commandline,
                Some(self.command_line.text.len() as int),
            ),
            ReadlineCmd::BackwardChar => self.one_char_back(),
            ReadlineCmd::BackwardCharPassive => self.one_char_back_passively(),
            ReadlineCmd::ForwardChar => self.one_char_forward(AutosuggestionPortion::All),
            ReadlineCmd::ForwardSingleChar => self.one_char_forward(
                AutosuggestionPortion::Count(1),
            ),
            ReadlineCmd::ForwardCharPassive => self.one_char_forward_passively(),
            ReadlineCmd::BackwardToken => self.one_token_back(env.token),
            ReadlineCmd::ForwardToken => self.one_token_forward(env.cmdsub_start, env.tokens),
            ReadlineCmd::BackwardWord | ReadlineCmd::BackwardBigword => self.one_word_back(
                env.word(c),
            ),
            ReadlineCmd::PrevdOrBackwardWord => if self.command_line.text.len() == 0 {
                self.directory_changed("prevd"@)
            } else {
                self.one_word_back(env.word(c))
            },
            ReadlineCmd::ForwardWord | ReadlineCmd::ForwardBigword => self.one_word_forward(
                env.word(c),
            ),
            ReadlineCmd::NextdOrForwardWord => if self.command_line.text.len() == 0 {
                self.directory_changed("nextd"@)
            } else {
                self.one_word_forward(env.word(c))
            },
            ReadlineCmd::UpLine => self.one_line_moved(true, env.selection_at_top, env.indents),
            ReadlineCmd::DownLine => self.one_line_moved(false, env.selection_at_top, env.indents),
            ReadlineCmd::ForwardJump | ReadlineCmd::BackwardJump | ReadlineCmd::ForwardJumpTill
            | ReadlineCmd::BackwardJumpTill => match env.jump_target {
                Some(target) => self.jump_reported(
                    jump_direction(c),
                    jump_precision(c),
                    target,
                    false,
                ),
                None => self,
            },
            ReadlineCmd::JumpToMatchingBracket
            | ReadlineCmd::JumpTillMatchingBracket => self.bracket_jumped(jump_precision(c)),
            ReadlineCmd::RepeatJump => self.jump_repeated(false),
            ReadlineCmd::ReverseRepeatJump => self.jump_repeated(true),
            _ => self,
        }
    }

    pub open spec fn cursor_command_fits(self, c: ReadlineCmd, env: SurroundingsView) -> bool {
        let suggestion_ok = self.at_suggestion() ==> self.at_line_with_suggestion();
        match c {
            ReadlineCmd::EndOfLine | ReadlineCmd::ForwardChar | ReadlineCmd::ForwardSingleChar
            | ReadlineCmd::ForwardWord | ReadlineCmd::ForwardBigword
            | ReadlineCmd::NextdOrForwardWord => suggestion_ok,
            ReadlineCmd::BackwardToken => env.token.inside(self.active_line().text.len() as int),
            ReadlineCmd::ForwardToken => {
                &&& suggestion_ok
                &&& forall|i: int|
                    #![trigger env.tokens[i]]
                    0 <= i < env.tokens.len() ==> env.cmdsub_start + env.tokens[i].end
                        <= self.shown_len(self.at_suggestion())
            },
            ReadlineCmd::UpLine | ReadlineCmd::DownLine => !self.navigating()
                && self.pager.is_empty() ==> env.indents.len() == self.active_line().text.len(),
            _ => true,
        }
    }

    /// The commands that kill text and bring it back.
    #[verifier::opaque]
    pub open spec fn kill_command(self, c: ReadlineCmd, env: SurroundingsView) -> DataView {
        match c {
            ReadlineCmd::KillLine => self.line_killed(),
            ReadlineCmd::BackwardKillLine => self.line_killed_backwards(),
            ReadlineCmd::KillWholeLine => self.whole_line_killed(true),
            ReadlineCmd::KillInnerLine => self.whole_line_killed(false),
            ReadlineCmd::Yank => self.yanked(env.yank),
            ReadlineCmd::YankPop => self.yank_popped(env.yank),
            ReadlineCmd::BackwardKillWord | ReadlineCmd::BackwardKillPathComponent
            | ReadlineCmd::BackwardKillBigword => self.word_moved(
                self.active_tag(),
                MoveWordDir::Left,
                true,
                env.word(c),
                !kills_word_backwards(self.last_cmd()),
            ),
            ReadlineCmd::KillWord | ReadlineCmd::KillBigword => self.word_moved(
                self.active_tag(),
                MoveWordDir::Right,
                true,
                env.word(c),
                self.last_cmd() != Some(c),
            ),
            ReadlineCmd::BackwardKillToken => self.token_killed_backwards(env.token),
            ReadlineCmd::KillToken => self.token_killed(env.cmdsub_start, env.tokens),
            ReadlineCmd::KillSelection => self.selection_killed(),
            _ => self,
        }
    }

    pub open spec fn kill_command_fits(self, c: ReadlineCmd, env: SurroundingsView) -> bool {
        let n = self.active_line().text.len() as int;
        match c {
            ReadlineCmd::YankPop => self.rls.unwrap().yank_len != 0 ==> inside(
                self.yank_range(),
                n,
            ),
            ReadlineCmd::BackwardKillToken => {
                &&& env.token.inside(n)
                &&& self.token_back(env.token) matches Some(p) ==> p <= self.active_line().position
            },
            ReadlineCmd::KillToken => forall|i: int|
                #![trigger env.tokens[i]]
                0 <= i < env.tokens.len() ==> env.cmdsub_start + env.tokens[i].end <= n,
            ReadlineCmd::KillSelection => self.selected_range() matches Some(r) ==> r.start
                <= r.end,
            _ => true,
        }
    }

    /// The commands that change the text otherwise, and the selection.
    #[verifier::opaque]
    pub open spec fn text_command(self, c: ReadlineCmd, env: SurroundingsView) -> DataView {
        match c {
            ReadlineCmd::BackwardDeleteChar => self.char_deleted(true, env.widths),
            ReadlineCmd::TransposeChars => self.chars_transposed(),
            ReadlineCmd::TransposeWords => self.words_transposed(env.token, env.retry_token),
            ReadlineCmd::TogglecaseChar => self.char_toggled(),
            ReadlineCmd::TogglecaseSelection => self.selection_recased(CaseChange::Toggle),
            ReadlineCmd::UpcaseSelection => self.selection_recased(CaseChange::Upper),
            ReadlineCmd::DowncaseSelection => self.selection_recased(CaseChange::Lower),
            ReadlineCmd::UpcaseWord => self.word_recased(CaseChange::Upper, env.word(c)),
            ReadlineCmd::DowncaseWord => self.word_recased(CaseChange::Lower, env.word(c)),
            ReadlineCmd::CapitalizeWord => self.word_recased(CaseChange::Capitalize, env.word(c)),
            ReadlineCmd::BeginSelection => self.selection_begun(),
            ReadlineCmd::EndSelection => DataView { selection: None, ..self },
            ReadlineCmd::SwapSelectionStartStop => self.selection_swapped(),
            ReadlineCmd::InsertLineOver => self.line_opened_above(),
            ReadlineCmd::InsertLineUnder => self.line_opened_below(),
            ReadlineCmd::Undo => self.undone_or_redone(true, env.screen),
            ReadlineCmd::Redo => self.undone_or_redone(false, env.screen),
            ReadlineCmd::BeginUndoGroup => self.with_line(
                self.active_tag(),
                self.active_line().group_begun(),
            ),
            ReadlineCmd::EndUndoGroup => self.with_line(
                self.active_tag(),
                self.active_line().group_ended(),
            ),
            _ => self,
        }
    }

    pub open spec fn text_command_fits(self, c: ReadlineCmd, env: SurroundingsView) -> bool {
        let n = self.active_line().text.len() as int;
        match c {
            ReadlineCmd::BackwardDeleteChar => env.widths.len() == n,
            ReadlineCmd::TransposeWords => {
                &&& env.token.inside(n)
                &&& env.retry_token.inside(n)
                &&& env.token.token.start > env.token.previous.start ==> env.token.previous.end
                    <= env.token.token.start
                &&& env.retry_token.token.start > env.retry_token.previous.start
                    ==> env.retry_token.previous.end <= env.retry_token.token.start
            },
            ReadlineCmd::TogglecaseSelection | ReadlineCmd::UpcaseSelection
            | ReadlineCmd::DowncaseSelection => self.selection_applies(),
            ReadlineCmd::SwapSelectionStartStop => self.selection matches Some(s) ==> s.begin <= n,
            ReadlineCmd::BeginUndoGroup => self.active_line().group_depth < usize::MAX,
            _ => true,
        }
    }

    /// The commands that deal with the history and the suggestion.
    #[verifier::opaque]
    pub open spec fn history_command(self, c: ReadlineCmd, env: SurroundingsView) -> DataView {
        match c {
            ReadlineCmd::HistoryPager => self.history_pager_opened(
                env.history_size,
                history_pager_prefix(env.multibyte),
                env.needle,
                env.screen,
            ),
            ReadlineCmd::HistoryDelete
            | ReadlineCmd::HistoryPagerDelete => self.history_item_deleted(
                env.search.next,
                env.search.result_token,
                env.screen,
            ),
            ReadlineCmd::BeginningOfHistory => self.history_end_reached(
                true,
                env.older,
                env.search.result_token,
            ),
            ReadlineCmd::EndOfHistory => self.history_end_reached(
                false,
                env.older,
                env.search.result_token,
            ),
            ReadlineCmd::PagerToggleSearch => self.pager_search_toggled(env.screen),
            ReadlineCmd::SuppressAutosuggestion => self.suggestion_suppressed(),
            ReadlineCmd::AcceptAutosuggestion => self.suggestion_accepted_reported(),
            _ => self.history_searched(search_mode(c), search_direction(c), env.search, env.screen),
        }
    }

    pub open spec fn history_command_fits(self, c: ReadlineCmd, env: SurroundingsView) -> bool {
        match c {
            ReadlineCmd::HistoryPager | ReadlineCmd::PagerToggleSearch
            | ReadlineCmd::SuppressAutosuggestion | ReadlineCmd::AcceptAutosuggestion => true,
            ReadlineCmd::HistoryDelete | ReadlineCmd::HistoryPagerDelete => {
                &&& env.search.next matches Some(m) ==> m.ordered()
                &&& !self.search.at_present() ==> (DataView {
                    search: self.search.deleted(env.search.next),
                    ..self
                }).result_fits(env.search.result_token)
            },
            ReadlineCmd::BeginningOfHistory | ReadlineCmd::EndOfHistory => {
                &&& forall|i: int|
                    #![trigger env.older[i]]
                    0 <= i < env.older.len() ==> env.older[i].ordered()
                &&& !self.navigating() && self.search.active() ==> (DataView {
                    search: if c == ReadlineCmd::BeginningOfHistory {
                        self.search.at_oldest(env.older)
                    } else {
                        self.search.at_newest()
                    },
                    ..self
                }).result_fits(env.search.result_token)
            },
            _ => self.searchable(search_mode(c), search_direction(c), env.search),
        }
    }

    /// The suggestion cleared, and none made until something is typed. Report if there was one.
    pub open spec fn suggestion_suppressed(self) -> DataView {
        let had = self.at_line_with_suggestion();
        DataView {
            autosuggestion: self.autosuggestion.cleared(),
            ..self.with_flag(Flag::SuppressAutosuggestion, true)
        }.queued(ActionView::FunctionStatus(had))
    }

    pub open spec fn suggestion_accepted_reported(self) -> DataView {
        if self.at_line_with_suggestion() {
            self.suggestion_accepted(AutosuggestionPortion::All, Seq::empty()).queued(
                ActionView::FunctionStatus(true),
            )
        } else {
            self.queued(ActionView::FunctionStatus(false))
        }
    }

    /// The commands that end the editing, complete, or repaint.
    #[verifier::opaque]
    pub open spec fn control_command(self, c: ReadlineCmd, env: SurroundingsView) -> DataView {
        match c {
            ReadlineCmd::CancelCommandline => self.cancelled(true, env.screen),
            ReadlineCmd::ClearCommandline => self.cancelled(false, env.screen),
            ReadlineCmd::Cancel => self.completion_cancelled(),
            ReadlineCmd::RepaintMode => self.repaint_begun(true),
            ReadlineCmd::ForceRepaint | ReadlineCmd::Repaint => self.repaint_begun(false),
            ReadlineCmd::ClearScreenAndRepaint => self.screen_cleared(env.screen),
            ReadlineCmd::Complete => self.completion_asked(false),
            ReadlineCmd::CompleteAndSearch => self.completion_asked(true),
            ReadlineCmd::Exit => self.exiting(env.exit),
            ReadlineCmd::DeleteOrExit => self.deleted_or_exiting(true, env.widths, env.exit),
            ReadlineCmd::DeleteChar => self.deleted_or_exiting(false, env.widths, env.exit),
            ReadlineCmd::Execute => self.executed(env.ends_in_comment, env.syntax),
            ReadlineCmd::ExpandAbbr => self.abbreviation_sought(),
            _ => self,
        }
    }

    pub open spec fn control_command_fits(self, c: ReadlineCmd, env: SurroundingsView) -> bool {
        match c {
            ReadlineCmd::DeleteOrExit | ReadlineCmd::DeleteChar => env.widths.len()
                == self.active_line().text.len(),
            _ => true,
        }
    }

    /// Completions asked for, or cycled through if they were just listed.
    pub open spec fn completion_asked(self, and_search: bool) -> DataView {
        if !self.conf.complete_ok {
            self
        } else if self.cycles_completions() {
            self.completion_cycled(!and_search)
        } else {
            self.queued(ActionView::ComputeCompletions { and_search })
        }
    }
}

impl ReaderData {
    /// Run a command that moves the cursor.
    pub(crate) fn run_cursor_command(&mut self, c: ReadlineCmd, env: &Surroundings)
        requires
            old(self)@.wf(),
            old(self)@.cursor_command_fits(c, env@),
        ensures
            final(self)@ == old(self)@.cursor_command(c, env@),
            final(self)@.wf(),
    {
        reveal(DataView::cursor_command);
        match c {
            ReadlineCmd::BeginningOfLine => self.beginning_of_line(),
            ReadlineCmd::EndOfLine => self.end_of_line(),
            ReadlineCmd::BeginningOfBuffer => {
                self.update_buff_pos(EditableLineTag::Commandline, Some(0));
            },
            ReadlineCmd::EndOfBuffer => {
                let n = self.command_line.len();
                self.update_buff_pos(EditableLineTag::Commandline, Some(n));
            },
            ReadlineCmd::BackwardChar => self.backward_char(),
            ReadlineCmd::BackwardCharPassive => self.backward_char_passive(),
            ReadlineCmd::ForwardChar => self.forward_char(AutosuggestionPortion::All),
            ReadlineCmd::ForwardSingleChar => self.forward_char(AutosuggestionPortion::Count(1)),
            ReadlineCmd::ForwardCharPassive => self.forward_char_passive(),
            ReadlineCmd::BackwardToken => self.backward_token_cmd(&env.token),
            ReadlineCmd::ForwardToken => self.forward_token_cmd(env.cmdsub_start, &env.tokens),
            ReadlineCmd::BackwardWord | ReadlineCmd::BackwardBigword => self.backward_word(
                env.word(c),
            ),
            ReadlineCmd::PrevdOrBackwardWord => self.prevd_or_backward_word(env.word(c)),
            ReadlineCmd::ForwardWord | ReadlineCmd::ForwardBigword => self.forward_word(env.word(c)),
            ReadlineCmd::NextdOrForwardWord => self.nextd_or_forward_word(env.word(c)),
            ReadlineCmd::UpLine => self.up_or_down_line(true, env.selection_at_top, &env.indents),
            ReadlineCmd::DownLine => self.up_or_down_line(
                false,
                env.selection_at_top,
                &env.indents,
            ),
            ReadlineCmd::ForwardJump => self.jump_if_asked(
                JumpDirection::Forward,
                JumpPrecision::To,
                env.jump_target,
            ),
            ReadlineCmd::BackwardJump => self.jump_if_asked(
                JumpDirection::Backward,
                JumpPrecision::To,
                env.jump_target,
            ),
            ReadlineCmd::ForwardJumpTill => self.jump_if_asked(
                JumpDirection::Forward,
                JumpPrecision::Till,
                env.jump_target,
            ),
            ReadlineCmd::BackwardJumpTill => self.jump_if_asked(
                JumpDirection::Backward,
                JumpPrecision::Till,
                env.jump_target,
            ),
            ReadlineCmd::JumpToMatchingBracket => self.jump_to_bracket(JumpPrecision::To),
            ReadlineCmd::JumpTillMatchingBracket => self.jump_to_bracket(JumpPrecision::Till),
            ReadlineCmd::RepeatJump => self.repeat_jump(false),
            ReadlineCmd::ReverseRepeatJump => self.repeat_jump(true),
            _ => {},
        }
    }

    fn jump_if_asked(
        &mut self,
        direction: JumpDirection,
        precision: JumpPrecision,
        target: Option<char>,
    )
        requires
            old(self)@.wf(),
        ensures
            final(self)@ == match target {
                Some(target) => old(self)@.jump_reported(direction, precision, target, false),
                None => old(self)@,
            },
            final(self)@.wf(),
    {
        if let Some(target) = target {
            self.jump_to_char(direction, precision, target);
        }
    }

    /// Run a command that kills text or brings it back.
    pub(crate) fn run_kill_command(&mut self, c: ReadlineCmd, env: Surroundings)
        requires
            old(self)@.wf(),
            old(self)@.rls is Some,
            old(self)@.kill_command_fits(c, env@),
        ensures
            final(self)@ == old(self)@.kill_command(c, env@),
            final(self)@.wf(),
    {
        reveal(DataView::kill_command);
        match c {
            ReadlineCmd::KillLine => self.kill_line(),
            ReadlineCmd::BackwardKillLine => self.backward_kill_line(),
            ReadlineCmd::KillWholeLine => self.kill_whole_line(true),
            ReadlineCmd::KillInnerLine => self.kill_whole_line(false),
            ReadlineCmd::Yank => self.yank(&env.yank),
            ReadlineCmd::YankPop => self.yank_pop(env.yank),
            ReadlineCmd::BackwardKillWord
            | ReadlineCmd::BackwardKillPathComponent
            | ReadlineCmd::BackwardKillBigword => {
                // Is this the same killring item as the last kill?
                let last = self.last_command();
                let newv = !(last == Some(ReadlineCmd::BackwardKillWord) || last == Some(
                    ReadlineCmd::BackwardKillPathComponent,
                ) || last == Some(ReadlineCmd::BackwardKillBigword));
                let elt = self.active_edit_line_tag();
                self.move_word(elt, MoveWordDir::Left, true, env.word(c), newv);
            },
            ReadlineCmd::KillWord | ReadlineCmd::KillBigword => {
                let newv = self.last_command() != Some(c);
                let elt = self.active_edit_line_tag();
                self.move_word(elt, MoveWordDir::Right, true, env.word(c), newv);
            },
            ReadlineCmd::BackwardKillToken => self.backward_kill_token(&env.token),
            ReadlineCmd::KillToken => self.kill_token(env.cmdsub_start, &env.tokens),
            ReadlineCmd::KillSelection => self.kill_selection(),
            _ => {},
        }
    }

    /// Run a command that changes the text or the selection.
    pub(crate) fn run_text_command(&mut self, c: ReadlineCmd, env: &Surroundings)
        requires
            old(self)@.wf(),
            old(self)@.text_command_fits(c, env@),
        ensures
            final(self)@ == old(self)@.text_command(c, env@),
            final(self)@.wf(),
    {
        reveal(DataView::text_command);
        match c {
            ReadlineCmd::BackwardDeleteChar => self.delete_char(true, &env.widths),
            ReadlineCmd::TransposeChars => self.transpose_chars(),
            ReadlineCmd::TransposeWords => self.transpose_words(&env.token, &env.retry_token),
            ReadlineCmd::TogglecaseChar => self.togglecase_char(),
            ReadlineCmd::TogglecaseSelection => self.change_case_of_selection(CaseChange::Toggle),
            ReadlineCmd::UpcaseSelection => self.change_case_of_selection(CaseChange::Upper),
            ReadlineCmd::DowncaseSelection => self.change_case_of_selection(CaseChange::Lower),
            ReadlineCmd::UpcaseWord => self.change_case_of_word(CaseChange::Upper, env.word(c)),
            ReadlineCmd::DowncaseWord => self.change_case_of_word(CaseChange::Lower, env.word(c)),
            ReadlineCmd::CapitalizeWord => self.change_case_of_word(
                CaseChange::Capitalize,
                env.word(c),
            ),
            ReadlineCmd::BeginSelection => self.begin_selection(),
            ReadlineCmd::EndSelection => {
                self.selection = None;
            },
            ReadlineCmd::SwapSelectionStartStop => self.swap_selection_start_stop(),
            ReadlineCmd::InsertLineOver => self.insert_line_over(),
            ReadlineCmd::InsertLineUnder => self.insert_line_under(),
            ReadlineCmd::Undo => self.undo_or_redo(true, env.screen),
            ReadlineCmd::Redo => self.undo_or_redo(false, env.screen),
            ReadlineCmd::BeginUndoGroup => self.begin_undo_group(),
            ReadlineCmd::EndUndoGroup => self.end_undo_group(),
            _ => {},
        }
    }

    fn begin_undo_group(&mut self)
        requires
            old(self)@.wf(),
            old(self)@.active_line().group_depth < usize::MAX,
        ensures
            final(self)@ == old(self)@.with_line(
                old(self)@.active_tag(),
                old(self)@.active_line().group_begun(),
            ),
            final(self)@.wf(),
    {
        match self.active_edit_line_tag() {
            EditableLineTag::Commandline => self.command_line.begin_edit_group(),
            EditableLineTag::SearchField => self.pager.search_field_line.begin_edit_group(),
        }
    }

    fn end_undo_group(&mut self)
        requires
            old(self)@.wf(),
        ensures
            final(self)@ == old(self)@.with_line(
                old(self)@.active_tag(),
                old(self)@.active_line().group_ended(),
            ),
            final(self)@.wf(),
    {
        match self.active_edit_line_tag() {
            EditableLineTag::Commandline => self.command_line.end_edit_group(),
            EditableLineTag::SearchField => self.pager.search_field_line.end_edit_group(),
        }
    }

    /// Run a command that deals with the history or the autosuggestion.
    pub(crate) fn run_history_command(&mut self, c: ReadlineCmd, env: Surroundings)
        requires
            old(self)@.wf(),
            old(self)@.history_command_fits(c, env@),
        ensures
            final(self)@ == old(self)@.history_command(c, env@),
            final(self)@.wf(),
    {
        reveal(DataView::history_command);
        match c {
            ReadlineCmd::HistoryPager => {
                let prefix = get_history_pager_prefix(env.multibyte);
                self.open_history_pager(env.history_size, prefix, &env.needle, env.screen);
            },
            ReadlineCmd::HistoryDelete | ReadlineCmd::HistoryPagerDelete => {
                self.delete_history_item(env.search.next, env.search.result_token, env.screen);
            },
            ReadlineCmd::BeginningOfHistory => {
                self.go_to_end_of_history(true, env.older, env.search.result_token);
            },
            ReadlineCmd::EndOfHistory => {
                self.go_to_end_of_history(false, env.older, env.search.result_token);
            },
            ReadlineCmd::PagerToggleSearch => self.toggle_pager_search(env.screen),
            ReadlineCmd::SuppressAutosuggestion => self.clear_autosuggestion(),
            ReadlineCmd::AcceptAutosuggestion => self.accept_whole_autosuggestion(),
            _ => {
                let mode = get_search_mode(c);
                let dir = get_search_direction(c);
                self.search_history(mode, dir, env.search, env.screen);
            },
        }
    }

    fn clear_autosuggestion(&mut self)
        requires
            old(self)@.wf(),
        ensures
            final(self)@ == old(self)@.suggestion_suppressed(),
            final(self)@.wf(),
    {
        self.flags.set(Flag::SuppressAutosuggestion, true);
        let success = self.is_at_line_with_autosuggestion();
        self.autosuggestion.clear();
        // Return true if we had a suggestion to clear.
        self.set_function_status(success);
    }

    fn accept_whole_autosuggestion(&mut self)
        requires
            old(self)@.wf(),
        ensures
            final(self)@ == old(self)@.suggestion_accepted_reported(),
            final(self)@.wf(),
    {
        let success = self.is_at_line_with_autosuggestion();
        if success {
            self.accept_autosuggestion(AutosuggestionPortion::All, &[]);
        }
        self.set_function_status(success);
    }

    /// Run a command that ends the editing, completes, or repaints.
    pub(crate) fn run_control_command(&mut self, c: ReadlineCmd, env: &Surroundings)
        requires
            old(self)@.wf(),
            old(self)@.rls is Some,
            old(self)@.control_command_fits(c, env@),
        ensures
            final(self)@ == old(self)@.control_command(c, env@),
            final(self)@.wf(),
    {
        reveal(DataView::control_command);
        match c {
            ReadlineCmd::CancelCommandline => self.cancel_commandline(true, env.screen),
            ReadlineCmd::ClearCommandline => self.cancel_commandline(false, env.screen),
            ReadlineCmd::Cancel => self.cancel(),
            ReadlineCmd::RepaintMode => self.begin_repaint(true),
            ReadlineCmd::ForceRepaint | ReadlineCmd::Repaint => self.begin_repaint(false),
            ReadlineCmd::ClearScreenAndRepaint => self.clear_screen_and_repaint(env.screen),
            ReadlineCmd::Complete => self.complete(false),
            ReadlineCmd::CompleteAndSearch => self.complete(true),
            ReadlineCmd::Exit => self.exit(env.exit),
            ReadlineCmd::DeleteOrExit => self.delete_or_exit(true, &env.widths, env.exit),
            ReadlineCmd::DeleteChar => self.delete_or_exit(false, &env.widths, env.exit),
            ReadlineCmd::Execute => self.handle_execute(env.ends_in_comment, env.syntax),
            ReadlineCmd::ExpandAbbr => self.expand_abbreviation(),
            _ => {},
        }
    }

    /// Ask for completions. If the user typed complete more than once in a row, cycle through them.
    fn complete(&mut self, and_search: bool)
        requires
            old(self)@.wf(),
            old(self)@.rls is Some,
        ensures
            final(self)@ == old(self)@.completion_asked(and_search),
            final(self)@.wf(),
    {
        if !self.conf.complete_ok {
            return;
        }
        if self.is_cycling_completions() {
            self.cycle_completions(!and_search);
        } else {
            // Either the user hit tab only once, or we had no visible completion list.
            self.queue(Action::ComputeCompletions { and_search });
        }
    }
}

fn get_search_mode(c: ReadlineCmd) -> (r: SearchMode)
    ensures
        r == search_mode(c),
{
    match c {
        ReadlineCmd::HistoryTokenSearchBackward
        | ReadlineCmd::HistoryTokenSearchForward => SearchMode::Token,
        ReadlineCmd::HistoryLastTokenSearchBackward
        | ReadlineCmd::HistoryLastTokenSearchForward => SearchMode::LastToken,
        ReadlineCmd::HistoryPrefixSearchBackward
        | ReadlineCmd::HistoryPrefixSearchForward => SearchMode::Prefix,
        ReadlineCmd::HistorySearchBackward | ReadlineCmd::HistorySearchForward => SearchMode::Line,
        _ => SearchMode::Inactive,
    }
}

fn get_search_direction(c: ReadlineCmd) -> (r: SearchDirection)
    ensures
        r == search_direction(c),
{
    match c {
        ReadlineCmd::HistorySearchBackward
        | ReadlineCmd::HistoryTokenSearchBackward
        | ReadlineCmd::HistoryLastTokenSearchBackward
        | ReadlineCmd::HistoryPrefixSearchBackward => SearchDirection::Backward,
        _ => SearchDirection::Forward,
    }
}

/// Whether the selection in the pager is in the first row and the first column.
pub fn selection_is_at_top(row: Option<usize>, column: Option<usize>) -> (r: bool)
    ensures
        r == ((row is None || row == Some(0usize)) && (column is None || column == Some(0usize))),
{
    if let Some(row) = row {
        if row != 0 {
            return false;
        }
    }
    match column {
        Some(column) => column == 0,
        None => true,
    }
}

} // verus!

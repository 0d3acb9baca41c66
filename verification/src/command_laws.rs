//! Which command does what.

use crate::command::ReadlineCmd;
use crate::cursor::AutosuggestionPortion;
use crate::data::{DataView, EditableLineTag, JumpPrecision};
use crate::event::{ReaderView, TerminalState};
use crate::readline::{group_of, CommandGroup, SurroundingsView};
use crate::rewrite::CaseChange;
use crate::search::{SearchDirection, SearchMode};
use vstd::prelude::*;

verus! {

proof fn lemma_motion_group(
    reader: ReaderView,
    c: ReadlineCmd,
    env: SurroundingsView,
    t: TerminalState,
)
    requires
        group_of(c) == CommandGroup::Motion,
    ensures
        reader.commanded(c, env, t).data == reader.data.cursor_command(c, env),
{
}

proof fn lemma_beginning_of_line(d: DataView, env: SurroundingsView)
    ensures
        d.cursor_command(ReadlineCmd::BeginningOfLine, env) == d.at_line_beginning(),
{
    reveal(DataView::cursor_command);
}

proof fn lemma_end_of_line(d: DataView, env: SurroundingsView)
    ensures
        d.cursor_command(ReadlineCmd::EndOfLine, env) == d.at_line_finish(),
{
    reveal(DataView::cursor_command);
}

proof fn lemma_beginning_of_buffer(d: DataView, env: SurroundingsView)
    ensures
        d.cursor_command(ReadlineCmd::BeginningOfBuffer, env) == d.moved(
            EditableLineTag::Commandline,
            Some(0),
        ),
{
    reveal(DataView::cursor_command);
}

proof fn lemma_end_of_buffer(d: DataView, env: SurroundingsView)
    ensures
        d.cursor_command(ReadlineCmd::EndOfBuffer, env) == d.moved(
            EditableLineTag::Commandline,
            Some(d.command_line.text.len() as int),
        ),
{
    reveal(DataView::cursor_command);
}

proof fn lemma_backward_char(d: DataView, env: SurroundingsView)
    ensures
        d.cursor_command(ReadlineCmd::BackwardChar, env) == d.one_char_back(),
{
    reveal(DataView::cursor_command);
}

proof fn lemma_backward_char_passive(d: DataView, env: SurroundingsView)
    ensures
        d.cursor_command(ReadlineCmd::BackwardCharPassive, env) == d.one_char_back_passively(),
{
    reveal(DataView::cursor_command);
}

proof fn lemma_forward_char(d: DataView, env: SurroundingsView)
    ensures
        d.cursor_command(ReadlineCmd::ForwardChar, env) == d.one_char_forward(
            AutosuggestionPortion::All,
        ),
{
    reveal(DataView::cursor_command);
}

proof fn lemma_forward_single_char(d: DataView, env: SurroundingsView)
    ensures
        d.cursor_command(ReadlineCmd::ForwardSingleChar, env) == d.one_char_forward(
            AutosuggestionPortion::Count(1),
        ),
{
    reveal(DataView::cursor_command);
}

proof fn lemma_forward_char_passive(d: DataView, env: SurroundingsView)
    ensures
        d.cursor_command(ReadlineCmd::ForwardCharPassive, env) == d.one_char_forward_passively(),
{
    reveal(DataView::cursor_command);
}

proof fn lemma_backward_token(d: DataView, env: SurroundingsView)
    ensures
        d.cursor_command(ReadlineCmd::BackwardToken, env) == d.one_token_back(env.token),
{
    reveal(DataView::cursor_command);
}

proof fn lemma_forward_token(d: DataView, env: SurroundingsView)
    ensures
        d.cursor_command(ReadlineCmd::ForwardToken, env) == d.one_token_forward(
            env.cmdsub_start,
            env.tokens,
        ),
{
    reveal(DataView::cursor_command);
}

proof fn lemma_backward_word(d: DataView, env: SurroundingsView)
    ensures
        d.cursor_command(ReadlineCmd::BackwardWord, env) == d.one_word_back(env.words.punctuation),
{
    reveal(DataView::cursor_command);
}

proof fn lemma_backward_bigword(d: DataView, env: SurroundingsView)
    ensures
        d.cursor_command(ReadlineCmd::BackwardBigword, env) == d.one_word_back(
            env.words.whitespace,
        ),
{
    reveal(DataView::cursor_command);
}

proof fn lemma_forward_word(d: DataView, env: SurroundingsView)
    ensures
        d.cursor_command(ReadlineCmd::ForwardWord, env) == d.one_word_forward(
            env.words.punctuation,
        ),
{
    reveal(DataView::cursor_command);
}

proof fn lemma_forward_bigword(d: DataView, env: SurroundingsView)
    ensures
        d.cursor_command(ReadlineCmd::ForwardBigword, env) == d.one_word_forward(
            env.words.whitespace,
        ),
{
    reveal(DataView::cursor_command);
}

proof fn lemma_up_line(d: DataView, env: SurroundingsView)
    ensures
        d.cursor_command(ReadlineCmd::UpLine, env) == d.one_line_moved(
            true,
            env.selection_at_top,
            env.indents,
        ),
{
    reveal(DataView::cursor_command);
}

proof fn lemma_down_line(d: DataView, env: SurroundingsView)
    ensures
        d.cursor_command(ReadlineCmd::DownLine, env) == d.one_line_moved(
            false,
            env.selection_at_top,
            env.indents,
        ),
{
    reveal(DataView::cursor_command);
}

proof fn lemma_jump_to_matching_bracket(d: DataView, env: SurroundingsView)
    ensures
        d.cursor_command(ReadlineCmd::JumpToMatchingBracket, env) == d.bracket_jumped(
            JumpPrecision::To,
        ),
{
    reveal(DataView::cursor_command);
}

proof fn lemma_jump_till_matching_bracket(d: DataView, env: SurroundingsView)
    ensures
        d.cursor_command(ReadlineCmd::JumpTillMatchingBracket, env) == d.bracket_jumped(
            JumpPrecision::Till,
        ),
{
    reveal(DataView::cursor_command);
}

proof fn lemma_repeat_jump(d: DataView, env: SurroundingsView)
    ensures
        d.cursor_command(ReadlineCmd::RepeatJump, env) == d.jump_repeated(false),
{
    reveal(DataView::cursor_command);
}

proof fn lemma_reverse_repeat_jump(d: DataView, env: SurroundingsView)
    ensures
        d.cursor_command(ReadlineCmd::ReverseRepeatJump, env) == d.jump_repeated(true),
{
    reveal(DataView::cursor_command);
}

/// The command `BeginningOfLine` moves the cursor.
pub proof fn law_beginning_of_line_command(
    reader: ReaderView,
    env: SurroundingsView,
    t: TerminalState,
)
    ensures
        reader.commanded(ReadlineCmd::BeginningOfLine, env, t).data
            == reader.data.at_line_beginning(),
{
    lemma_motion_group(reader, ReadlineCmd::BeginningOfLine, env, t);
    lemma_beginning_of_line(reader.data, env);
}

/// The command `EndOfLine` moves the cursor.
pub proof fn law_end_of_line_command(reader: ReaderView, env: SurroundingsView, t: TerminalState)
    ensures
        reader.commanded(ReadlineCmd::EndOfLine, env, t).data == reader.data.at_line_finish(),
{
    lemma_motion_group(reader, ReadlineCmd::EndOfLine, env, t);
    lemma_end_of_line(reader.data, env);
}

/// The command `BeginningOfBuffer` moves the cursor.
pub proof fn law_beginning_of_buffer_command(
    reader: ReaderView,
    env: SurroundingsView,
    t: TerminalState,
)
    ensures
        reader.commanded(ReadlineCmd::BeginningOfBuffer, env, t).data == reader.data.moved(
            EditableLineTag::Commandline,
            Some(0),
        ),
{
    lemma_motion_group(reader, ReadlineCmd::BeginningOfBuffer, env, t);
    lemma_beginning_of_buffer(reader.data, env);
}

/// The command `EndOfBuffer` moves the cursor.
pub proof fn law_end_of_buffer_command(reader: ReaderView, env: SurroundingsView, t: TerminalState)
    ensures
        reader.commanded(ReadlineCmd::EndOfBuffer, env, t).data == reader.data.moved(
            EditableLineTag::Commandline,
            Some(reader.data.command_line.text.len() as int),
        ),
{
    lemma_motion_group(reader, ReadlineCmd::EndOfBuffer, env, t);
    lemma_end_of_buffer(reader.data, env);
}

/// The command `BackwardChar` moves the cursor.
pub proof fn law_backward_char_command(reader: ReaderView, env: SurroundingsView, t: TerminalState)
    ensures
        reader.commanded(ReadlineCmd::BackwardChar, env, t).data == reader.data.one_char_back(),
{
    lemma_motion_group(reader, ReadlineCmd::BackwardChar, env, t);
    lemma_backward_char(reader.data, env);
}

/// The command `BackwardCharPassive` moves the cursor.
pub proof fn law_backward_char_passive_command(
    reader: ReaderView,
    env: SurroundingsView,
    t: TerminalState,
)
    ensures
        reader.commanded(ReadlineCmd::BackwardCharPassive, env, t).data
            == reader.data.one_char_back_passively(),
{
    lemma_motion_group(reader, ReadlineCmd::BackwardCharPassive, env, t);
    lemma_backward_char_passive(reader.data, env);
}

/// The command `ForwardChar` moves the cursor.
pub proof fn law_forward_char_command(reader: ReaderView, env: SurroundingsView, t: TerminalState)
    ensures
        reader.commanded(ReadlineCmd::ForwardChar, env, t).data == reader.data.one_char_forward(
            AutosuggestionPortion::All,
        ),
{
    lemma_motion_group(reader, ReadlineCmd::ForwardChar, env, t);
    lemma_forward_char(reader.data, env);
}

/// The command `ForwardSingleChar` moves the cursor.
pub proof fn law_forward_single_char_command(
    reader: ReaderView,
    env: SurroundingsView,
    t: TerminalState,
)
    ensures
        reader.commanded(ReadlineCmd::ForwardSingleChar, env, t).data
            == reader.data.one_char_forward(AutosuggestionPortion::Count(1)),
{
    lemma_motion_group(reader, ReadlineCmd::ForwardSingleChar, env, t);
    lemma_forward_single_char(reader.data, env);
}

/// The command `ForwardCharPassive` moves the cursor.
pub proof fn law_forward_char_passive_command(
    reader: ReaderView,
    env: SurroundingsView,
    t: TerminalState,
)
    ensures
        reader.commanded(ReadlineCmd::ForwardCharPassive, env, t).data
            == reader.data.one_char_forward_passively(),
{
    lemma_motion_group(reader, ReadlineCmd::ForwardCharPassive, env, t);
    lemma_forward_char_passive(reader.data, env);
}

/// The command `BackwardToken` moves the cursor.
pub proof fn law_backward_token_command(reader: ReaderView, env: SurroundingsView, t: TerminalState)
    ensures
        reader.commanded(ReadlineCmd::BackwardToken, env, t).data == reader.data.one_token_back(
            env.token,
        ),
{
    lemma_motion_group(reader, ReadlineCmd::BackwardToken, env, t);
    lemma_backward_token(reader.data, env);
}

/// The command `ForwardToken` moves the cursor.
pub proof fn law_forward_token_command(reader: ReaderView, env: SurroundingsView, t: TerminalState)
    ensures
        reader.commanded(ReadlineCmd::ForwardToken, env, t).data == reader.data.one_token_forward(
            env.cmdsub_start,
            env.tokens,
        ),
{
    lemma_motion_group(reader, ReadlineCmd::ForwardToken, env, t);
    lemma_forward_token(reader.data, env);
}

/// The command `BackwardWord` moves the cursor.
pub proof fn law_backward_word_command(reader: ReaderView, env: SurroundingsView, t: TerminalState)
    ensures
        reader.commanded(ReadlineCmd::BackwardWord, env, t).data == reader.data.one_word_back(
            env.words.punctuation,
        ),
{
    lemma_motion_group(reader, ReadlineCmd::BackwardWord, env, t);
    lemma_backward_word(reader.data, env);
}

/// The command `BackwardBigword` moves the cursor.
pub proof fn law_backward_bigword_command(
    reader: ReaderView,
    env: SurroundingsView,
    t: TerminalState,
)
    ensures
        reader.commanded(ReadlineCmd::BackwardBigword, env, t).data == reader.data.one_word_back(
            env.words.whitespace,
        ),
{
    lemma_motion_group(reader, ReadlineCmd::BackwardBigword, env, t);
    lemma_backward_bigword(reader.data, env);
}

/// The command `ForwardWord` moves the cursor.
pub proof fn law_forward_word_command(reader: ReaderView, env: SurroundingsView, t: TerminalState)
    ensures
        reader.commanded(ReadlineCmd::ForwardWord, env, t).data == reader.data.one_word_forward(
            env.words.punctuation,
        ),
{
    lemma_motion_group(reader, ReadlineCmd::ForwardWord, env, t);
    lemma_forward_word(reader.data, env);
}

/// The command `ForwardBigword` moves the cursor.
pub proof fn law_forward_bigword_command(
    reader: ReaderView,
    env: SurroundingsView,
    t: TerminalState,
)
    ensures
        reader.commanded(ReadlineCmd::ForwardBigword, env, t).data == reader.data.one_word_forward(
            env.words.whitespace,
        ),
{
    lemma_motion_group(reader, ReadlineCmd::ForwardBigword, env, t);
    lemma_forward_bigword(reader.data, env);
}

/// The command `UpLine` moves the cursor.
pub proof fn law_up_line_command(reader: ReaderView, env: SurroundingsView, t: TerminalState)
    ensures
        reader.commanded(ReadlineCmd::UpLine, env, t).data == reader.data.one_line_moved(
            true,
            env.selection_at_top,
            env.indents,
        ),
{
    lemma_motion_group(reader, ReadlineCmd::UpLine, env, t);
    lemma_up_line(reader.data, env);
}

/// The command `DownLine` moves the cursor.
pub proof fn law_down_line_command(reader: ReaderView, env: SurroundingsView, t: TerminalState)
    ensures
        reader.commanded(ReadlineCmd::DownLine, env, t).data == reader.data.one_line_moved(
            false,
            env.selection_at_top,
            env.indents,
        ),
{
    lemma_motion_group(reader, ReadlineCmd::DownLine, env, t);
    lemma_down_line(reader.data, env);
}

/// The command `JumpToMatchingBracket` moves the cursor.
pub proof fn law_jump_to_matching_bracket_command(
    reader: ReaderView,
    env: SurroundingsView,
    t: TerminalState,
)
    ensures
        reader.commanded(ReadlineCmd::JumpToMatchingBracket, env, t).data
            == reader.data.bracket_jumped(JumpPrecision::To),
{
    lemma_motion_group(reader, ReadlineCmd::JumpToMatchingBracket, env, t);
    lemma_jump_to_matching_bracket(reader.data, env);
}

/// The command `JumpTillMatchingBracket` moves the cursor.
pub proof fn law_jump_till_matching_bracket_command(
    reader: ReaderView,
    env: SurroundingsView,
    t: TerminalState,
)
    ensures
        reader.commanded(ReadlineCmd::JumpTillMatchingBracket, env, t).data
            == reader.data.bracket_jumped(JumpPrecision::Till),
{
    lemma_motion_group(reader, ReadlineCmd::JumpTillMatchingBracket, env, t);
    lemma_jump_till_matching_bracket(reader.data, env);
}

/// The command `RepeatJump` moves the cursor.
pub proof fn law_repeat_jump_command(reader: ReaderView, env: SurroundingsView, t: TerminalState)
    ensures
        reader.commanded(ReadlineCmd::RepeatJump, env, t).data == reader.data.jump_repeated(false),
{
    lemma_motion_group(reader, ReadlineCmd::RepeatJump, env, t);
    lemma_repeat_jump(reader.data, env);
}

/// The command `ReverseRepeatJump` moves the cursor.
pub proof fn law_reverse_repeat_jump_command(
    reader: ReaderView,
    env: SurroundingsView,
    t: TerminalState,
)
    ensures
        reader.commanded(ReadlineCmd::ReverseRepeatJump, env, t).data == reader.data.jump_repeated(
            true,
        ),
{
    lemma_motion_group(reader, ReadlineCmd::ReverseRepeatJump, env, t);
    lemma_reverse_repeat_jump(reader.data, env);
}

proof fn lemma_rewrite_group(
    reader: ReaderView,
    c: ReadlineCmd,
    env: SurroundingsView,
    t: TerminalState,
)
    requires
        group_of(c) == CommandGroup::Rewrite,
    ensures
        reader.commanded(c, env, t).data == reader.data.text_command(c, env),
{
}

proof fn lemma_backward_delete_char(d: DataView, env: SurroundingsView)
    ensures
        d.text_command(ReadlineCmd::BackwardDeleteChar, env) == d.char_deleted(true, env.widths),
{
    reveal(DataView::text_command);
}

proof fn lemma_transpose_chars(d: DataView, env: SurroundingsView)
    ensures
        d.text_command(ReadlineCmd::TransposeChars, env) == d.chars_transposed(),
{
    reveal(DataView::text_command);
}

proof fn lemma_transpose_words(d: DataView, env: SurroundingsView)
    ensures
        d.text_command(ReadlineCmd::TransposeWords, env) == d.words_transposed(
            env.token,
            env.retry_token,
        ),
{
    reveal(DataView::text_command);
}

proof fn lemma_togglecase_char(d: DataView, env: SurroundingsView)
    ensures
        d.text_command(ReadlineCmd::TogglecaseChar, env) == d.char_toggled(),
{
    reveal(DataView::text_command);
}

proof fn lemma_togglecase_selection(d: DataView, env: SurroundingsView)
    ensures
        d.text_command(ReadlineCmd::TogglecaseSelection, env) == d.selection_recased(
            CaseChange::Toggle,
        ),
{
    reveal(DataView::text_command);
}

proof fn lemma_upcase_selection(d: DataView, env: SurroundingsView)
    ensures
        d.text_command(ReadlineCmd::UpcaseSelection, env) == d.selection_recased(CaseChange::Upper),
{
    reveal(DataView::text_command);
}

proof fn lemma_downcase_selection(d: DataView, env: SurroundingsView)
    ensures
        d.text_command(ReadlineCmd::DowncaseSelection, env) == d.selection_recased(
            CaseChange::Lower,
        ),
{
    reveal(DataView::text_command);
}

proof fn lemma_upcase_word(d: DataView, env: SurroundingsView)
    ensures
        d.text_command(ReadlineCmd::UpcaseWord, env) == d.word_recased(
            CaseChange::Upper,
            env.words.punctuation,
        ),
{
    reveal(DataView::text_command);
}

proof fn lemma_downcase_word(d: DataView, env: SurroundingsView)
    ensures
        d.text_command(ReadlineCmd::DowncaseWord, env) == d.word_recased(
            CaseChange::Lower,
            env.words.punctuation,
        ),
{
    reveal(DataView::text_command);
}

proof fn lemma_capitalize_word(d: DataView, env: SurroundingsView)
    ensures
        d.text_command(ReadlineCmd::CapitalizeWord, env) == d.word_recased(
            CaseChange::Capitalize,
            env.words.punctuation,
        ),
{
    reveal(DataView::text_command);
}

proof fn lemma_begin_selection(d: DataView, env: SurroundingsView)
    ensures
        d.text_command(ReadlineCmd::BeginSelection, env) == d.selection_begun(),
{
    reveal(DataView::text_command);
}

proof fn lemma_swap_selection_start_stop(d: DataView, env: SurroundingsView)
    ensures
        d.text_command(ReadlineCmd::SwapSelectionStartStop, env) == d.selection_swapped(),
{
    reveal(DataView::text_command);
}

proof fn lemma_insert_line_over(d: DataView, env: SurroundingsView)
    ensures
        d.text_command(ReadlineCmd::InsertLineOver, env) == d.line_opened_above(),
{
    reveal(DataView::text_command);
}

proof fn lemma_insert_line_under(d: DataView, env: SurroundingsView)
    ensures
        d.text_command(ReadlineCmd::InsertLineUnder, env) == d.line_opened_below(),
{
    reveal(DataView::text_command);
}

proof fn lemma_undo(d: DataView, env: SurroundingsView)
    ensures
        d.text_command(ReadlineCmd::Undo, env) == d.undone_or_redone(true, env.screen),
{
    reveal(DataView::text_command);
}

proof fn lemma_redo(d: DataView, env: SurroundingsView)
    ensures
        d.text_command(ReadlineCmd::Redo, env) == d.undone_or_redone(false, env.screen),
{
    reveal(DataView::text_command);
}

/// The command `BackwardDeleteChar` rewrites, selects or undoes.
pub proof fn law_backward_delete_char_command(
    reader: ReaderView,
    env: SurroundingsView,
    t: TerminalState,
)
    ensures
        reader.commanded(ReadlineCmd::BackwardDeleteChar, env, t).data == reader.data.char_deleted(
            true,
            env.widths,
        ),
{
    lemma_rewrite_group(reader, ReadlineCmd::BackwardDeleteChar, env, t);
    lemma_backward_delete_char(reader.data, env);
}

/// The command `TransposeChars` rewrites, selects or undoes.
pub proof fn law_transpose_chars_command(
    reader: ReaderView,
    env: SurroundingsView,
    t: TerminalState,
)
    ensures
        reader.commanded(ReadlineCmd::TransposeChars, env, t).data
            == reader.data.chars_transposed(),
{
    lemma_rewrite_group(reader, ReadlineCmd::TransposeChars, env, t);
    lemma_transpose_chars(reader.data, env);
}

/// The command `TransposeWords` rewrites, selects or undoes.
pub proof fn law_transpose_words_command(
    reader: ReaderView,
    env: SurroundingsView,
    t: TerminalState,
)
    ensures
        reader.commanded(ReadlineCmd::TransposeWords, env, t).data == reader.data.words_transposed(
            env.token,
            env.retry_token,
        ),
{
    lemma_rewrite_group(reader, ReadlineCmd::TransposeWords, env, t);
    lemma_transpose_words(reader.data, env);
}

/// The command `TogglecaseChar` rewrites, selects or undoes.
pub proof fn law_togglecase_char_command(
    reader: ReaderView,
    env: SurroundingsView,
    t: TerminalState,
)
    ensures
        reader.commanded(ReadlineCmd::TogglecaseChar, env, t).data == reader.data.char_toggled(),
{
    lemma_rewrite_group(reader, ReadlineCmd::TogglecaseChar, env, t);
    lemma_togglecase_char(reader.data, env);
}

/// The command `TogglecaseSelection` rewrites, selects or undoes.
pub proof fn law_togglecase_selection_command(
    reader: ReaderView,
    env: SurroundingsView,
    t: TerminalState,
)
    ensures
        reader.commanded(ReadlineCmd::TogglecaseSelection, env, t).data
            == reader.data.selection_recased(CaseChange::Toggle),
{
    lemma_rewrite_group(reader, ReadlineCmd::TogglecaseSelection, env, t);
    lemma_togglecase_selection(reader.data, env);
}

/// The command `UpcaseSelection` rewrites, selects or undoes.
pub proof fn law_upcase_selection_command(
    reader: ReaderView,
    env: SurroundingsView,
    t: TerminalState,
)
    ensures
        reader.commanded(ReadlineCmd::UpcaseSelection, env, t).data
            == reader.data.selection_recased(CaseChange::Upper),
{
    lemma_rewrite_group(reader, ReadlineCmd::UpcaseSelection, env, t);
    lemma_upcase_selection(reader.data, env);
}

/// The command `DowncaseSelection` rewrites, selects or undoes.
pub proof fn law_downcase_selection_command(
    reader: ReaderView,
    env: SurroundingsView,
    t: TerminalState,
)
    ensures
        reader.commanded(ReadlineCmd::DowncaseSelection, env, t).data
            == reader.data.selection_recased(CaseChange::Lower),
{
    lemma_rewrite_group(reader, ReadlineCmd::DowncaseSelection, env, t);
    lemma_downcase_selection(reader.data, env);
}

/// The command `UpcaseWord` rewrites, selects or undoes.
pub proof fn law_upcase_word_command(reader: ReaderView, env: SurroundingsView, t: TerminalState)
    ensures
        reader.commanded(ReadlineCmd::UpcaseWord, env, t).data == reader.data.word_recased(
            CaseChange::Upper,
            env.words.punctuation,
        ),
{
    lemma_rewrite_group(reader, ReadlineCmd::UpcaseWord, env, t);
    lemma_upcase_word(reader.data, env);
}

/// The command `DowncaseWord` rewrites, selects or undoes.
pub proof fn law_downcase_word_command(reader: ReaderView, env: SurroundingsView, t: TerminalState)
    ensures
        reader.commanded(ReadlineCmd::DowncaseWord, env, t).data == reader.data.word_recased(
            CaseChange::Lower,
            env.words.punctuation,
        ),
{
    lemma_rewrite_group(reader, ReadlineCmd::DowncaseWord, env, t);
    lemma_downcase_word(reader.data, env);
}

/// The command `CapitalizeWord` rewrites, selects or undoes.
pub proof fn law_capitalize_word_command(
    reader: ReaderView,
    env: SurroundingsView,
    t: TerminalState,
)
    ensures
        reader.commanded(ReadlineCmd::CapitalizeWord, env, t).data == reader.data.word_recased(
            CaseChange::Capitalize,
            env.words.punctuation,
        ),
{
    lemma_rewrite_group(reader, ReadlineCmd::CapitalizeWord, env, t);
    lemma_capitalize_word(reader.data, env);
}

/// The command `BeginSelection` rewrites, selects or undoes.
pub proof fn law_begin_selection_command(
    reader: ReaderView,
    env: SurroundingsView,
    t: TerminalState,
)
    ensures
        reader.commanded(ReadlineCmd::BeginSelection, env, t).data == reader.data.selection_begun(),
{
    lemma_rewrite_group(reader, ReadlineCmd::BeginSelection, env, t);
    lemma_begin_selection(reader.data, env);
}

/// The command `SwapSelectionStartStop` rewrites, selects or undoes.
pub proof fn law_swap_selection_start_stop_command(
    reader: ReaderView,
    env: SurroundingsView,
    t: TerminalState,
)
    ensures
        reader.commanded(ReadlineCmd::SwapSelectionStartStop, env, t).data
            == reader.data.selection_swapped(),
{
    lemma_rewrite_group(reader, ReadlineCmd::SwapSelectionStartStop, env, t);
    lemma_swap_selection_start_stop(reader.data, env);
}

/// The command `InsertLineOver` rewrites, selects or undoes.
pub proof fn law_insert_line_over_command(
    reader: ReaderView,
    env: SurroundingsView,
    t: TerminalState,
)
    ensures
        reader.commanded(ReadlineCmd::InsertLineOver, env, t).data
            == reader.data.line_opened_above(),
{
    lemma_rewrite_group(reader, ReadlineCmd::InsertLineOver, env, t);
    lemma_insert_line_over(reader.data, env);
}

/// The command `InsertLineUnder` rewrites, selects or undoes.
pub proof fn law_insert_line_under_command(
    reader: ReaderView,
    env: SurroundingsView,
    t: TerminalState,
)
    ensures
        reader.commanded(ReadlineCmd::InsertLineUnder, env, t).data
            == reader.data.line_opened_below(),
{
    lemma_rewrite_group(reader, ReadlineCmd::InsertLineUnder, env, t);
    lemma_insert_line_under(reader.data, env);
}

/// The command `Undo` rewrites, selects or undoes.
pub proof fn law_undo_command(reader: ReaderView, env: SurroundingsView, t: TerminalState)
    ensures
        reader.commanded(ReadlineCmd::Undo, env, t).data == reader.data.undone_or_redone(
            true,
            env.screen,
        ),
{
    lemma_rewrite_group(reader, ReadlineCmd::Undo, env, t);
    lemma_undo(reader.data, env);
}

/// The command `Redo` rewrites, selects or undoes.
pub proof fn law_redo_command(reader: ReaderView, env: SurroundingsView, t: TerminalState)
    ensures
        reader.commanded(ReadlineCmd::Redo, env, t).data == reader.data.undone_or_redone(
            false,
            env.screen,
        ),
{
    lemma_rewrite_group(reader, ReadlineCmd::Redo, env, t);
    lemma_redo(reader.data, env);
}

proof fn lemma_control_group(
    reader: ReaderView,
    c: ReadlineCmd,
    env: SurroundingsView,
    t: TerminalState,
)
    requires
        group_of(c) == CommandGroup::Control,
    ensures
        reader.commanded(c, env, t).data == reader.data.control_command(c, env),
{
}

proof fn lemma_cancel_commandline(d: DataView, env: SurroundingsView)
    ensures
        d.control_command(ReadlineCmd::CancelCommandline, env) == d.cancelled(true, env.screen),
{
    reveal(DataView::control_command);
}

proof fn lemma_clear_commandline(d: DataView, env: SurroundingsView)
    ensures
        d.control_command(ReadlineCmd::ClearCommandline, env) == d.cancelled(false, env.screen),
{
    reveal(DataView::control_command);
}

proof fn lemma_cancel(d: DataView, env: SurroundingsView)
    ensures
        d.control_command(ReadlineCmd::Cancel, env) == d.completion_cancelled(),
{
    reveal(DataView::control_command);
}

proof fn lemma_complete(d: DataView, env: SurroundingsView)
    ensures
        d.control_command(ReadlineCmd::Complete, env) == d.completion_asked(false),
{
    reveal(DataView::control_command);
}

proof fn lemma_complete_and_search(d: DataView, env: SurroundingsView)
    ensures
        d.control_command(ReadlineCmd::CompleteAndSearch, env) == d.completion_asked(true),
{
    reveal(DataView::control_command);
}

proof fn lemma_exit(d: DataView, env: SurroundingsView)
    ensures
        d.control_command(ReadlineCmd::Exit, env) == d.exiting(env.exit),
{
    reveal(DataView::control_command);
}

proof fn lemma_delete_or_exit(d: DataView, env: SurroundingsView)
    ensures
        d.control_command(ReadlineCmd::DeleteOrExit, env) == d.deleted_or_exiting(
            true,
            env.widths,
            env.exit,
        ),
{
    reveal(DataView::control_command);
}

proof fn lemma_delete_char(d: DataView, env: SurroundingsView)
    ensures
        d.control_command(ReadlineCmd::DeleteChar, env) == d.deleted_or_exiting(
            false,
            env.widths,
            env.exit,
        ),
{
    reveal(DataView::control_command);
}

/// The command `CancelCommandline` controls the loop.
pub proof fn law_cancel_commandline_command(
    reader: ReaderView,
    env: SurroundingsView,
    t: TerminalState,
)
    ensures
        reader.commanded(ReadlineCmd::CancelCommandline, env, t).data == reader.data.cancelled(
            true,
            env.screen,
        ),
{
    lemma_control_group(reader, ReadlineCmd::CancelCommandline, env, t);
    lemma_cancel_commandline(reader.data, env);
}

/// The command `ClearCommandline` controls the loop.
pub proof fn law_clear_commandline_command(
    reader: ReaderView,
    env: SurroundingsView,
    t: TerminalState,
)
    ensures
        reader.commanded(ReadlineCmd::ClearCommandline, env, t).data == reader.data.cancelled(
            false,
            env.screen,
        ),
{
    lemma_control_group(reader, ReadlineCmd::ClearCommandline, env, t);
    lemma_clear_commandline(reader.data, env);
}

/// The command `Cancel` controls the loop.
pub proof fn law_cancel_command(reader: ReaderView, env: SurroundingsView, t: TerminalState)
    ensures
        reader.commanded(ReadlineCmd::Cancel, env, t).data == reader.data.completion_cancelled(),
{
    lemma_control_group(reader, ReadlineCmd::Cancel, env, t);
    lemma_cancel(reader.data, env);
}

/// The command `Complete` controls the loop.
pub proof fn law_complete_command(reader: ReaderView, env: SurroundingsView, t: TerminalState)
    ensures
        reader.commanded(ReadlineCmd::Complete, env, t).data == reader.data.completion_asked(false),
{
    lemma_control_group(reader, ReadlineCmd::Complete, env, t);
    lemma_complete(reader.data, env);
}

/// The command `CompleteAndSearch` controls the loop.
pub proof fn law_complete_and_search_command(
    reader: ReaderView,
    env: SurroundingsView,
    t: TerminalState,
)
    ensures
        reader.commanded(ReadlineCmd::CompleteAndSearch, env, t).data
            == reader.data.completion_asked(true),
{
    lemma_control_group(reader, ReadlineCmd::CompleteAndSearch, env, t);
    lemma_complete_and_search(reader.data, env);
}

/// The command `Exit` controls the loop.
pub proof fn law_exit_command(reader: ReaderView, env: SurroundingsView, t: TerminalState)
    ensures
        reader.commanded(ReadlineCmd::Exit, env, t).data == reader.data.exiting(env.exit),
{
    lemma_control_group(reader, ReadlineCmd::Exit, env, t);
    lemma_exit(reader.data, env);
}

/// The command `DeleteOrExit` controls the loop.
pub proof fn law_delete_or_exit_command(reader: ReaderView, env: SurroundingsView, t: TerminalState)
    ensures
        reader.commanded(ReadlineCmd::DeleteOrExit, env, t).data == reader.data.deleted_or_exiting(
            true,
            env.widths,
            env.exit,
        ),
{
    lemma_control_group(reader, ReadlineCmd::DeleteOrExit, env, t);
    lemma_delete_or_exit(reader.data, env);
}

/// The command `DeleteChar` controls the loop.
pub proof fn law_delete_char_command(reader: ReaderView, env: SurroundingsView, t: TerminalState)
    ensures
        reader.commanded(ReadlineCmd::DeleteChar, env, t).data == reader.data.deleted_or_exiting(
            false,
            env.widths,
            env.exit,
        ),
{
    lemma_control_group(reader, ReadlineCmd::DeleteChar, env, t);
    lemma_delete_char(reader.data, env);
}

proof fn lemma_history_group(
    reader: ReaderView,
    c: ReadlineCmd,
    env: SurroundingsView,
    t: TerminalState,
)
    requires
        group_of(c) == CommandGroup::History,
    ensures
        reader.commanded(c, env, t).data == reader.data.history_command(c, env),
{
}

proof fn lemma_history_delete(d: DataView, env: SurroundingsView)
    ensures
        d.history_command(ReadlineCmd::HistoryDelete, env) == d.history_item_deleted(
            env.search.next,
            env.search.result_token,
            env.screen,
        ),
{
    reveal(DataView::history_command);
}

proof fn lemma_history_pager_delete(d: DataView, env: SurroundingsView)
    ensures
        d.history_command(ReadlineCmd::HistoryPagerDelete, env) == d.history_item_deleted(
            env.search.next,
            env.search.result_token,
            env.screen,
        ),
{
    reveal(DataView::history_command);
}

proof fn lemma_beginning_of_history(d: DataView, env: SurroundingsView)
    ensures
        d.history_command(ReadlineCmd::BeginningOfHistory, env) == d.history_end_reached(
            true,
            env.older,
            env.search.result_token,
        ),
{
    reveal(DataView::history_command);
}

proof fn lemma_end_of_history(d: DataView, env: SurroundingsView)
    ensures
        d.history_command(ReadlineCmd::EndOfHistory, env) == d.history_end_reached(
            false,
            env.older,
            env.search.result_token,
        ),
{
    reveal(DataView::history_command);
}

proof fn lemma_history_search_forward(d: DataView, env: SurroundingsView)
    ensures
        d.history_command(ReadlineCmd::HistorySearchForward, env) == d.history_searched(
            SearchMode::Line,
            SearchDirection::Forward,
            env.search,
            env.screen,
        ),
{
    reveal(DataView::history_command);
}

proof fn lemma_history_prefix_search_forward(d: DataView, env: SurroundingsView)
    ensures
        d.history_command(ReadlineCmd::HistoryPrefixSearchForward, env) == d.history_searched(
            SearchMode::Prefix,
            SearchDirection::Forward,
            env.search,
            env.screen,
        ),
{
    reveal(DataView::history_command);
}

proof fn lemma_history_token_search_forward(d: DataView, env: SurroundingsView)
    ensures
        d.history_command(ReadlineCmd::HistoryTokenSearchForward, env) == d.history_searched(
            SearchMode::Token,
            SearchDirection::Forward,
            env.search,
            env.screen,
        ),
{
    reveal(DataView::history_command);
}

proof fn lemma_history_last_token_search_forward(d: DataView, env: SurroundingsView)
    ensures
        d.history_command(ReadlineCmd::HistoryLastTokenSearchForward, env) == d.history_searched(
            SearchMode::LastToken,
            SearchDirection::Forward,
            env.search,
            env.screen,
        ),
{
    reveal(DataView::history_command);
}

/// The command `HistoryDelete` deals with the history or a suggestion.
pub proof fn law_history_delete_command(reader: ReaderView, env: SurroundingsView, t: TerminalState)
    ensures
        reader.commanded(ReadlineCmd::HistoryDelete, env, t).data
            == reader.data.history_item_deleted(
            env.search.next,
            env.search.result_token,
            env.screen,
        ),
{
    lemma_history_group(reader, ReadlineCmd::HistoryDelete, env, t);
    lemma_history_delete(reader.data, env);
}

/// The command `HistoryPagerDelete` deals with the history or a suggestion.
pub proof fn law_history_pager_delete_command(
    reader: ReaderView,
    env: SurroundingsView,
    t: TerminalState,
)
    ensures
        reader.commanded(ReadlineCmd::HistoryPagerDelete, env, t).data
            == reader.data.history_item_deleted(
            env.search.next,
            env.search.result_token,
            env.screen,
        ),
{
    lemma_history_group(reader, ReadlineCmd::HistoryPagerDelete, env, t);
    lemma_history_pager_delete(reader.data, env);
}

/// The command `BeginningOfHistory` deals with the history or a suggestion.
pub proof fn law_beginning_of_history_command(
    reader: ReaderView,
    env: SurroundingsView,
    t: TerminalState,
)
    ensures
        reader.commanded(ReadlineCmd::BeginningOfHistory, env, t).data
            == reader.data.history_end_reached(true, env.older, env.search.result_token),
{
    lemma_history_group(reader, ReadlineCmd::BeginningOfHistory, env, t);
    lemma_beginning_of_history(reader.data, env);
}

/// The command `EndOfHistory` deals with the history or a suggestion.
pub proof fn law_end_of_history_command(reader: ReaderView, env: SurroundingsView, t: TerminalState)
    ensures
        reader.commanded(ReadlineCmd::EndOfHistory, env, t).data == reader.data.history_end_reached(
            false,
            env.older,
            env.search.result_token,
        ),
{
    lemma_history_group(reader, ReadlineCmd::EndOfHistory, env, t);
    lemma_end_of_history(reader.data, env);
}

/// The command `HistorySearchForward` deals with the history or a suggestion.
pub proof fn law_history_search_forward_command(
    reader: ReaderView,
    env: SurroundingsView,
    t: TerminalState,
)
    ensures
        reader.commanded(ReadlineCmd::HistorySearchForward, env, t).data
            == reader.data.history_searched(
            SearchMode::Line,
            SearchDirection::Forward,
            env.search,
            env.screen,
        ),
{
    lemma_history_group(reader, ReadlineCmd::HistorySearchForward, env, t);
    lemma_history_search_forward(reader.data, env);
}

/// The command `HistoryPrefixSearchForward` deals with the history or a suggestion.
pub proof fn law_history_prefix_search_forward_command(
    reader: ReaderView,
    env: SurroundingsView,
    t: TerminalState,
)
    ensures
        reader.commanded(ReadlineCmd::HistoryPrefixSearchForward, env, t).data
            == reader.data.history_searched(
            SearchMode::Prefix,
            SearchDirection::Forward,
            env.search,
            env.screen,
        ),
{
    lemma_history_group(reader, ReadlineCmd::HistoryPrefixSearchForward, env, t);
    lemma_history_prefix_search_forward(reader.data, env);
}

/// The command `HistoryTokenSearchForward` deals with the history or a suggestion.
pub proof fn law_history_token_search_forward_command(
    reader: ReaderView,
    env: SurroundingsView,
    t: TerminalState,
)
    ensures
        reader.commanded(ReadlineCmd::HistoryTokenSearchForward, env, t).data
            == reader.data.history_searched(
            SearchMode::Token,
            SearchDirection::Forward,
            env.search,
            env.screen,
        ),
{
    lemma_history_group(reader, ReadlineCmd::HistoryTokenSearchForward, env, t);
    lemma_history_token_search_forward(reader.data, env);
}

/// The command `HistoryLastTokenSearchForward` deals with the history or a suggestion.
pub proof fn law_history_last_token_search_forward_command(
    reader: ReaderView,
    env: SurroundingsView,
    t: TerminalState,
)
    ensures
        reader.commanded(ReadlineCmd::HistoryLastTokenSearchForward, env, t).data
            == reader.data.history_searched(
            SearchMode::LastToken,
            SearchDirection::Forward,
            env.search,
            env.screen,
        ),
{
    lemma_history_group(reader, ReadlineCmd::HistoryLastTokenSearchForward, env, t);
    lemma_history_last_token_search_forward(reader.data, env);
}

} // verus!

//! What the commands that move the cursor promise.

use crate::action::ActionView;
use crate::command::ReadlineCmd;
use crate::cursor::{vertical_target, AutosuggestionPortion};
use crate::command_laws::{
    law_backward_bigword_command, law_backward_char_command, law_backward_char_passive_command,
    law_backward_token_command, law_backward_word_command, law_beginning_of_buffer_command,
    law_beginning_of_line_command, law_down_line_command, law_end_of_buffer_command,
    law_end_of_line_command, law_forward_bigword_command, law_forward_char_command,
    law_forward_char_passive_command, law_forward_single_char_command, law_forward_token_command,
    law_forward_word_command, law_up_line_command,
};
use crate::data::{CursorEndMode, DataView, EditableLineTag};
use crate::edit::{lemma_edited, lemma_moved};
use crate::edit_laws::{law_cursor_goes, law_line_is_edited};
use crate::event::{ReaderView, TerminalState};
use crate::kill_laws::{at_least_one, is_next_token, law_leading, law_next_token, leads};
use crate::motion::leading;
use crate::pager::SelectionMotion;
use crate::readline::SurroundingsView;
use crate::suggestion_laws::{bounds_line, law_line_bounds};
use crate::text::{line_end, line_start};
use vstd::prelude::*;

verus! {

/// The cursor of the active line went there, or to the last character where it cannot stand behind
/// it. Nothing else happened to the text.
pub open spec fn has_moved(d: DataView, next: DataView, to: int) -> bool {
    let n = d.active_line().text.len();
    let last = d.end_mode == CursorEndMode::Inclusive && to == n && n > 0;
    &&& next.active_tag() == d.active_tag()
    &&& next.active_line().text == d.active_line().text
    &&& next.active_line().position == if last {
        to - 1
    } else {
        to
    }
    &&& next.kill_item == d.kill_item
    &&& next.autosuggestion == d.autosuggestion
    &&& next.rls == d.rls
}

pub proof fn lemma_has_moved(d: DataView, to: int)
    requires
        d.wf(),
        0 <= to <= d.active_line().text.len(),
    ensures
        has_moved(d, d.moved(d.active_tag(), Some(to)), to),
        d.moved(d.active_tag(), Some(to)).actions == d.actions,
{
    law_cursor_goes(d, d.active_tag(), to);
    lemma_moved(d, d.active_tag(), Some(to));
}

/// The cursor is behind the last character, or on it where it stands on characters.
pub open spec fn stands_at_end(d: DataView) -> bool {
    let line = d.active_line();
    line.position == line.text.len() || d.end_mode == CursorEndMode::Inclusive && line.position
        == line.text.len() - 1
}

/// An autosuggestion goes on from the cursor.
pub open spec fn has_suggestion(d: DataView) -> bool {
    let end = d.autosuggestion.range.end;
    &&& d.active_tag() == EditableLineTag::Commandline
    &&& d.autosuggestion.text.len() > 0
    &&& d.end_mode == CursorEndMode::Exclusive ==> d.command_line.position == end
    &&& d.end_mode == CursorEndMode::Inclusive ==> d.command_line.position == end - 1
}

/// The user moves in a list below the command line.
pub open spec fn moves_in_list(d: DataView) -> bool {
    d.pager.selected_idx is Some || d.history_pager is Some
}

/// The command asks for a motion in the list below, and does nothing else.
pub open spec fn selects(d: DataView, next: DataView, motion: SelectionMotion) -> bool {
    &&& next.actions == d.actions.push(ActionView::MoveSelection { motion, force: false })
    &&& next.command_line == d.command_line
    &&& next.pager == d.pager
}

/// The beginning and the end of a line are those of the line that the cursor is in; those of the
/// buffer are those of the command line. The end of a line with a suggestion behind it is that of the
/// suggestion.
pub proof fn law_cursor_to_ends(reader: ReaderView, env: SurroundingsView, t: TerminalState)
    requires
        reader.data.wf(),
    ensures
        ({
            let d = reader.data;
            let text = d.active_line().text;
            let pos = d.active_line().position;
            let begin = reader.commanded(ReadlineCmd::BeginningOfLine, env, t).data;
            let end = reader.commanded(ReadlineCmd::EndOfLine, env, t).data;
            let first = reader.commanded(ReadlineCmd::BeginningOfBuffer, env, t).data;
            let last = reader.commanded(ReadlineCmd::EndOfBuffer, env, t).data;
            &&& forall|from: int, to: int| #[trigger]
                bounds_line(text, pos, from, to) ==> {
                    &&& from == pos ==> begin == d
                    &&& from < pos ==> has_moved(d, begin, from)
                    &&& !has_suggestion(d) && to > pos && !stands_at_end(d) ==> has_moved(
                        d,
                        end,
                        to,
                    )
                    &&& !has_suggestion(d) && (to == pos || stands_at_end(d)) ==> end == d
                }
            &&& first.command_line.text == d.command_line.text
            &&& first.command_line.position == 0
            &&& last.command_line.text == d.command_line.text
            &&& d.end_mode == CursorEndMode::Exclusive ==> last.command_line.position
                == d.command_line.text.len()
            &&& d.end_mode == CursorEndMode::Inclusive && d.command_line.text.len() > 0
                ==> last.command_line.position == d.command_line.text.len() - 1
        }),
{
    law_beginning_of_line_command(reader, env, t);
    law_end_of_line_command(reader, env, t);
    law_beginning_of_buffer_command(reader, env, t);
    law_end_of_buffer_command(reader, env, t);
    let d = reader.data;
    let text = d.active_line().text;
    let pos = d.active_line().position;
    law_line_bounds(text, pos);
    lemma_has_moved(d, line_start(text, pos));
    lemma_has_moved(d, line_end(text, pos));
    law_cursor_goes(d, EditableLineTag::Commandline, 0);
    law_cursor_goes(d, EditableLineTag::Commandline, d.command_line.text.len() as int);
}

/// Accepting from a suggestion replaces what was typed of it, or adds so many of its characters.
proof fn lemma_accepts(d: DataView, amount: AutosuggestionPortion, word: Seq<bool>)
    requires
        d.wf(),
        d.autosuggestion.text.len() > 0,
    ensures
        ({
            let s = d.autosuggestion;
            let text = d.command_line.text;
            let next = d.suggestion_accepted(amount, word);
            let have = s.range.end - s.range.start;
            let rest = s.text.skip(have);
            let line = next.command_line.text;
            &&& amount is All ==> line == text.take(s.range.start) + s.text + text.skip(s.range.end)
            &&& amount matches AutosuggestionPortion::Count(k) ==> {
                &&& k <= rest.len() ==> line == text.take(s.range.end) + rest.take(k as int)
                    + text.skip(s.range.end)
                &&& k > rest.len() ==> line == text.take(s.range.end) + rest + text.skip(
                    s.range.end,
                )
            }
            &&& amount is Word ==> forall|k: int| #[trigger]
                leads(word, k, rest.len() as int) ==> line == text.take(s.range.end) + rest.take(k)
                    + text.skip(s.range.end)
            &&& next.pager.completions.len() == 0
            &&& next.actions == d.actions
        }),
{
    reveal(DataView::edited);
    let s = d.autosuggestion;
    let text = d.command_line.text;
    let have = s.range.end - s.range.start;
    let rest = s.text.skip(have);
    assert(have <= s.text.len());
    law_leading(word, rest.len() as int);
    let bare = d.pager_cleared();
    assert(bare.command_line == d.command_line);
    assert(bare.actions == d.actions);
    match d.accepted_edit(amount, word) {
        Some((r, with)) => {
            lemma_edited(bare, EditableLineTag::Commandline, r, with, false);
            law_line_is_edited(d.command_line, r, with, false);
            if r.start == r.end {
                assert(with =~= rest.take(with.len() as int));
            }
        },
        None => {
            assert(text =~= text.take(s.range.end) + rest.take(0) + text.skip(s.range.end));
            assert(rest.len() == 0 ==> rest =~= rest.take(0));
        },
    }
    assert(rest.take(rest.len() as int) =~= rest);
}

/// At the end of a line with a suggestion behind it, going forward takes the suggestion into the
/// command line: a character, a word, or all of it.
pub proof fn law_forward_accepts_suggestion(
    reader: ReaderView,
    env: SurroundingsView,
    t: TerminalState,
)
    requires
        reader.data.wf(),
        has_suggestion(reader.data),
        !moves_in_list(reader.data),
    ensures
        ({
            let d = reader.data;
            let s = d.autosuggestion;
            let text = d.command_line.text;
            let rest = s.text.skip(s.range.end - s.range.start);
            let end = s.range.end;
            let all = text.take(s.range.start) + s.text + text.skip(end);
            let last = reader.commanded(ReadlineCmd::EndOfLine, env, t).data.command_line;
            let ahead = reader.commanded(ReadlineCmd::ForwardChar, env, t).data.command_line;
            let one = reader.commanded(ReadlineCmd::ForwardSingleChar, env, t).data.command_line;
            let word = reader.commanded(ReadlineCmd::ForwardWord, env, t).data.command_line;
            let big = reader.commanded(ReadlineCmd::ForwardBigword, env, t).data.command_line;
            let next = reader.commanded(ReadlineCmd::NextdOrForwardWord, env, t).data.command_line;
            &&& last.text == all
            &&& ahead.text == all
            &&& rest.len() > 0 ==> one.text == text.take(end) + rest.take(1) + text.skip(end)
            &&& forall|k: int| #[trigger]
                leads(env.words.punctuation, k, rest.len() as int) ==> word.text == text.take(end)
                    + rest.take(k) + text.skip(end)
            &&& text.len() > 0 ==> next == word
            &&& forall|k: int| #[trigger]
                leads(env.words.whitespace, k, rest.len() as int) ==> big.text == text.take(end)
                    + rest.take(k) + text.skip(end)
        }),
{
    law_beginning_of_line_command(reader, env, t);
    law_end_of_line_command(reader, env, t);
    law_beginning_of_buffer_command(reader, env, t);
    law_end_of_buffer_command(reader, env, t);
    law_backward_char_command(reader, env, t);
    law_backward_char_passive_command(reader, env, t);
    law_forward_char_command(reader, env, t);
    law_forward_single_char_command(reader, env, t);
    law_forward_char_passive_command(reader, env, t);
    law_backward_word_command(reader, env, t);
    law_backward_bigword_command(reader, env, t);
    law_forward_word_command(reader, env, t);
    law_forward_bigword_command(reader, env, t);
    lemma_prevd_or_backward_word_command(reader, env, t);
    lemma_nextd_or_forward_word_command(reader, env, t);
    let d = reader.data;
    lemma_accepts(d, AutosuggestionPortion::All, Seq::empty());
    lemma_accepts(d, AutosuggestionPortion::Count(1), Seq::empty());
    lemma_accepts(d, AutosuggestionPortion::Word, env.words.punctuation);
    lemma_accepts(d, AutosuggestionPortion::Word, env.words.whitespace);
}

/// Going back or forward by a character moves the cursor by one, as far as there is text. In the list
/// below, it moves what is selected there; the passive commands leave the list alone, and move in its
/// search field only.
pub proof fn law_cursor_by_character(reader: ReaderView, env: SurroundingsView, t: TerminalState)
    requires
        reader.data.wf(),
    ensures
        ({
            let d = reader.data;
            let pos = d.active_line().position;
            let back = reader.commanded(ReadlineCmd::BackwardChar, env, t).data;
            let ahead = reader.commanded(ReadlineCmd::ForwardChar, env, t).data;
            let single = reader.commanded(ReadlineCmd::ForwardSingleChar, env, t).data;
            let quiet_back = reader.commanded(ReadlineCmd::BackwardCharPassive, env, t).data;
            let quiet = reader.commanded(ReadlineCmd::ForwardCharPassive, env, t).data;
            let idle = moves_in_list(d) && d.active_tag() == EditableLineTag::Commandline;
            &&& moves_in_list(d) ==> selects(d, back, SelectionMotion::West) && selects(
                d,
                ahead,
                SelectionMotion::East,
            ) && selects(d, single, SelectionMotion::East)
            &&& !moves_in_list(d) && pos > 0 ==> has_moved(d, back, pos - 1)
            &&& !moves_in_list(d) && pos == 0 ==> back == d
            &&& !moves_in_list(d) && !has_suggestion(d) && !stands_at_end(d) ==> has_moved(
                d,
                ahead,
                pos + 1,
            ) && has_moved(d, single, pos + 1)
            &&& !moves_in_list(d) && !has_suggestion(d) && stands_at_end(d) ==> ahead == d
                && single == d
            &&& !idle && pos > 0 ==> has_moved(d, quiet_back, pos - 1)
            &&& !idle && !stands_at_end(d) ==> has_moved(d, quiet, pos + 1)
            &&& idle || pos == 0 ==> quiet_back == d
            &&& idle || stands_at_end(d) ==> quiet == d
        }),
{
    law_backward_char_command(reader, env, t);
    law_backward_char_passive_command(reader, env, t);
    law_forward_char_command(reader, env, t);
    law_forward_single_char_command(reader, env, t);
    law_forward_char_passive_command(reader, env, t);
    let d = reader.data;
    let pos = d.active_line().position;
    if pos > 0 {
        lemma_has_moved(d, pos - 1);
    }
    if pos < d.active_line().text.len() {
        lemma_has_moved(d, pos + 1);
    }
}

proof fn lemma_prevd_or_backward_word_command(reader: ReaderView, env: SurroundingsView, t: TerminalState)
    ensures
        reader.commanded(ReadlineCmd::PrevdOrBackwardWord, env, t).data == if reader.data.command_line.text.len() == 0 {
            reader.data.directory_changed("prevd"@)
        } else {
            reader.data.one_word_back(env.words.punctuation)
        },
{
    reveal(DataView::cursor_command);
}

proof fn lemma_nextd_or_forward_word_command(reader: ReaderView, env: SurroundingsView, t: TerminalState)
    ensures
        reader.commanded(ReadlineCmd::NextdOrForwardWord, env, t).data == if reader.data.command_line.text.len() == 0 {
            reader.data.directory_changed("nextd"@)
        } else {
            reader.data.one_word_forward(env.words.punctuation)
        },
{
    reveal(DataView::cursor_command);
}

/// Going by a word moves the cursor as far as the word goes, and by at least one character. In an
/// empty command line the two commands for directories change the directory instead.
pub proof fn law_cursor_by_word(reader: ReaderView, env: SurroundingsView, t: TerminalState)
    requires
        reader.data.wf(),
    ensures
        ({
            let d = reader.data;
            let n = d.active_line().text.len() as int;
            let pos = d.active_line().position;
            let back = reader.commanded(ReadlineCmd::BackwardWord, env, t).data;
            let ahead = reader.commanded(ReadlineCmd::ForwardWord, env, t).data;
            let big_back = reader.commanded(ReadlineCmd::BackwardBigword, env, t).data;
            let big_ahead = reader.commanded(ReadlineCmd::ForwardBigword, env, t).data;
            let prev = reader.commanded(ReadlineCmd::PrevdOrBackwardWord, env, t).data;
            let next = reader.commanded(ReadlineCmd::NextdOrForwardWord, env, t).data;
            &&& pos == 0 ==> back == d && big_back == d
            &&& pos > 0 ==> forall|k: int| #[trigger]
                leads(env.words.punctuation, k, pos) ==> has_moved(d, back, pos - at_least_one(k))
            &&& pos > 0 ==> forall|k: int| #[trigger]
                leads(env.words.whitespace, k, pos) ==> has_moved(
                    d,
                    big_back,
                    pos - at_least_one(k),
                )
            &&& !has_suggestion(d) && stands_at_end(d) ==> ahead == d && big_ahead == d
            &&& !has_suggestion(d) && !stands_at_end(d) ==> forall|k: int| #[trigger]
                leads(env.words.punctuation, k, n - pos) ==> has_moved(
                    d,
                    ahead,
                    pos + at_least_one(k),
                )
            &&& !has_suggestion(d) && !stands_at_end(d) ==> forall|k: int| #[trigger]
                leads(env.words.whitespace, k, n - pos) ==> has_moved(
                    d,
                    big_ahead,
                    pos + at_least_one(k),
                )
            &&& d.command_line.text.len() > 0 ==> prev == back && next == ahead
            &&& d.command_line.text.len() == 0 ==> prev.actions == d.actions + seq![
                ActionView::EvalBind("prevd"@),
                ActionView::QueueReadline(ReadlineCmd::Repaint),
            ] && next.actions == d.actions + seq![
                ActionView::EvalBind("nextd"@),
                ActionView::QueueReadline(ReadlineCmd::Repaint),
            ]
        }),
{
    law_backward_word_command(reader, env, t);
    law_backward_bigword_command(reader, env, t);
    law_forward_word_command(reader, env, t);
    law_forward_bigword_command(reader, env, t);
    lemma_prevd_or_backward_word_command(reader, env, t);
    lemma_nextd_or_forward_word_command(reader, env, t);
    let d = reader.data;
    lemma_word_moved(d, env.words.punctuation);
    lemma_word_moved(d, env.words.whitespace);
    assert(d.directory_changed("prevd"@).actions =~= d.actions + seq![
        ActionView::EvalBind("prevd"@),
        ActionView::QueueReadline(ReadlineCmd::Repaint),
    ]);
    assert(d.directory_changed("nextd"@).actions =~= d.actions + seq![
        ActionView::EvalBind("nextd"@),
        ActionView::QueueReadline(ReadlineCmd::Repaint),
    ]);
}

proof fn lemma_word_moved(d: DataView, word: Seq<bool>)
    requires
        d.wf(),
    ensures
        ({
            let n = d.active_line().text.len() as int;
            let pos = d.active_line().position;
            let back = d.one_word_back(word);
            let ahead = d.one_word_forward(word);
            &&& pos == 0 ==> back == d
            &&& pos > 0 ==> forall|k: int| #[trigger]
                leads(word, k, pos) ==> has_moved(d, back, pos - at_least_one(k))
            &&& !has_suggestion(d) && stands_at_end(d) ==> ahead == d
            &&& !has_suggestion(d) && !stands_at_end(d) ==> forall|k: int| #[trigger]
                leads(word, k, n - pos) ==> has_moved(d, ahead, pos + at_least_one(k))
        }),
{
    let n = d.active_line().text.len() as int;
    let pos = d.active_line().position;
    law_leading(word, pos);
    law_leading(word, n - pos);
    if pos > 0 {
        lemma_has_moved(d, pos - at_least_one(leading(word, pos)));
    }
    if pos < n {
        lemma_has_moved(d, pos + at_least_one(leading(word, n - pos)));
    }
}

/// Going back by a token moves the cursor to its beginning, or to that of the one before it, or to the
/// parenthesis that the command stands in, or to the beginning. Going forward moves it to the end of
/// the next token, or to the end of the text.
pub proof fn law_cursor_by_token(reader: ReaderView, env: SurroundingsView, t: TerminalState)
    requires
        reader.data.wf(),
        env.token.inside(reader.data.active_line().text.len() as int),
        forall|i: int|
            #![trigger env.tokens[i]]
            0 <= i < env.tokens.len() ==> env.cmdsub_start + env.tokens[i].end
                <= reader.data.active_line().text.len(),
    ensures
        ({
            let d = reader.data;
            let n = d.active_line().text.len() as int;
            let pos = d.active_line().position;
            let back = reader.commanded(ReadlineCmd::BackwardToken, env, t).data;
            let ahead = reader.commanded(ReadlineCmd::ForwardToken, env, t).data;
            let a = env.token.token.start;
            let b = env.token.previous.start;
            let p = env.token.previous_cmdsub_start;
            &&& pos == 0 ==> back == d
            &&& pos > 0 && a != pos ==> has_moved(d, back, a)
            &&& pos > 0 && a == pos && b != pos ==> has_moved(d, back, b)
            &&& pos > 0 && a == pos && b == pos && p > 0 ==> has_moved(d, back, p - 1)
            &&& pos > 0 && a == pos && b == pos && p == 0 ==> has_moved(d, back, 0)
            &&& !has_suggestion(d) && stands_at_end(d) ==> ahead == d
            &&& !has_suggestion(d) && !stands_at_end(d) ==> {
                &&& forall|k: int| #[trigger]
                    is_next_token(env, pos, k) ==> has_moved(
                        d,
                        ahead,
                        env.cmdsub_start + env.tokens[k].end,
                    )
                &&& (forall|k: int|
                    0 <= k < env.tokens.len() ==> !((#[trigger] env.tokens[k]).is_string
                        && env.cmdsub_start + env.tokens[k].end > pos)) ==> has_moved(d, ahead, n)
            }
        }),
{
    law_backward_token_command(reader, env, t);
    law_forward_token_command(reader, env, t);
    let d = reader.data;
    let n = d.active_line().text.len() as int;
    let pos = d.active_line().position;
    law_next_token(env.tokens, env.cmdsub_start, pos);
    match d.token_back(env.token) {
        Some(p) => {
            lemma_has_moved(d, p);
        },
        None => {},
    }
    lemma_has_moved(d, n);
    assert forall|k: int| #[trigger] is_next_token(env, pos, k) implies has_moved(
        d,
        d.moved(d.active_tag(), Some(env.cmdsub_start + env.tokens[k].end)),
        env.cmdsub_start + env.tokens[k].end,
    ) by {
        lemma_has_moved(d, env.cmdsub_start + env.tokens[k].end);
    }
}

/// The indentation of the line that begins there, in steps.
pub open spec fn indentation(indents: Seq<i32>, at: int) -> int {
    if at < indents.len() {
        indents[at] as int
    } else {
        indents[indents.len() - 1] as int
    }
}

/// The position nearest to this one in a range.
pub open spec fn nearest(at: int, from: int, to: int) -> int {
    if at < from {
        from
    } else if at > to {
        to
    } else {
        at
    }
}

/// Going up or down moves the cursor to the line above or below, in the column where it is shown:
/// each step of indentation shows as four columns. Where that line is shorter, it goes to its end. In
/// the first and the last line nothing happens. Where there is a list below, it moves in that.
pub proof fn law_cursor_by_line(reader: ReaderView, env: SurroundingsView, t: TerminalState)
    requires
        reader.data.wf(),
    ensures
        ({
            let d = reader.data;
            let text = d.active_line().text;
            let pos = d.active_line().position;
            let up = reader.commanded(ReadlineCmd::UpLine, env, t).data;
            let down = reader.commanded(ReadlineCmd::DownLine, env, t).data;
            let plain = !moves_in_list(d) && d.pager.completions.len() == 0;
            &&& moves_in_list(d) ==> selects(d, down, SelectionMotion::South)
            &&& moves_in_list(d) && env.selection_at_top ==> selects(
                d,
                up,
                SelectionMotion::Deselect,
            )
            &&& moves_in_list(d) && !env.selection_at_top ==> selects(d, up, SelectionMotion::North)
            &&& !moves_in_list(d) && !plain ==> selects(d, up, SelectionMotion::North) && selects(
                d,
                down,
                SelectionMotion::South,
            )
            &&& plain ==> forall|from: int, to: int| #[trigger]
                bounds_line(text, pos, from, to) ==> {
                    &&& from == 0 ==> up == d
                    &&& to == text.len() ==> down == d
                    &&& from > 0 ==> forall|a: int, b: int| #[trigger]
                        bounds_line(text, from - 1, a, b) ==> has_moved(
                            d,
                            up,
                            nearest(
                                a + pos - from - 4 * (indentation(env.indents, a) - indentation(
                                    env.indents,
                                    from,
                                )),
                                a,
                                b,
                            ),
                        )
                    &&& to < text.len() ==> forall|a: int, b: int| #[trigger]
                        bounds_line(text, to + 1, a, b) ==> has_moved(
                            d,
                            down,
                            nearest(
                                a + pos - from - 4 * (indentation(env.indents, a) - indentation(
                                    env.indents,
                                    from,
                                )),
                                a,
                                b,
                            ),
                        )
                }
        }),
{
    law_up_line_command(reader, env, t);
    law_down_line_command(reader, env, t);
    let d = reader.data;
    let text = d.active_line().text;
    let pos = d.active_line().position;
    law_line_bounds(text, pos);
    let from = line_start(text, pos);
    let to = line_end(text, pos);
    if from > 0 {
        law_line_bounds(text, from - 1);
        lemma_has_moved(d, vertical_target(text, pos, true, env.indents)->0);
    }
    if to < text.len() {
        law_line_bounds(text, to + 1);
        lemma_has_moved(d, vertical_target(text, pos, false, env.indents)->0);
    }
}

} // verus!

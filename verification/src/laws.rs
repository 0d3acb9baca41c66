//! What holds across operations.

use crate::action::ActionView;
use crate::command::ReadlineCmd;
use crate::completion::{applied, ContextView};
use crate::cursor::AutosuggestionPortion;
use crate::data::{
    ConfigView, CursorEndMode, DataView, EditableLineTag, Kill, TransientEdit,
};
use crate::edit::{kept_suggestion, lemma_edited, lemma_moved, lemma_whole_line_replaced};
use crate::event::{ReaderView, TerminalState};
use crate::finish::{trimmed, ExitState};
use crate::flags::Flag;
use crate::line::{lemma_splice_back, LineView};
use crate::pager::PagerView;
use crate::readline::SurroundingsView;
use crate::search::SearchView;
use crate::state::{cursor_in, StateView};
use crate::text::{backslashes_before, inside, lemma_line_end, line_end, part, splice};
use crate::world::WorldView;
use std::ops::Range;
use vstd::prelude::*;

verus! {

/// An edit changes the text and leaves the cursor in it, whether or not it becomes part of the last
/// edit.
proof fn lemma_pushed(line: LineView, r: Range<int>, with: Seq<char>, coalesce: bool)
    requires
        line.wf(),
        inside(r, line.text.len() as int),
    ensures
        line.pushed(r, with, coalesce).text == splice(line.text, r, with),
        r.start == r.end == line.position ==> line.pushed(r, with, coalesce).position
            == line.position + with.len(),
{
    if r.start == r.end && with.len() == 0 {
        assert(splice(line.text, r, with) =~= line.text);
    }
}

/// Undoing an edit of a line gives back its text and its cursor.
pub proof fn lemma_push_undone(line: LineView, r: Range<int>, with: Seq<char>)
    requires
        inside(r, line.text.len() as int),
        r.start < r.end || with.len() > 0,
        line.group_depth == 0,
    ensures
        line.pushed(r, with, false).undone().text == line.text,
        line.pushed(r, with, false).undone().position == line.position,
        line.pushed(r, with, false).undone().past == line.past,
        line.pushed(r, with, false).undone().future == seq![line.edit(r, with)],
        line.pushed(r, with, false).undone().group_depth == 0,
{
    lemma_splice_back(line.text, r, with);
    let next = line.pushed(r, with, false);
    let e = line.edit(r, with);
    assert(next.past.last() == e);
    assert(next.past.drop_last() =~= line.past);
    assert(next.undone().future =~= seq![e]);
}

/// Undo gives back the text and the cursor that were there before the last edit, if no undo group is
/// open.
pub proof fn law_undo_restores(d: DataView, elt: EditableLineTag, r: Range<int>, with: Seq<char>)
    requires
        d.wf(),
        inside(r, d.line(elt).text.len() as int),
        r.start < r.end || with.len() > 0,
        d.line(elt).group_depth == 0,
    ensures
        d.replaced(elt, r, with).undone(elt).line(elt).text == d.line(elt).text,
        d.replaced(elt, r, with).undone(elt).line(elt).position == d.line(elt).position,
{
    lemma_edited(d, elt, r, with, false);
    lemma_push_undone(d.line(elt), r, with);
    reveal(DataView::undone);
}

/// Redo gives back the text and the cursor that the last undo took away.
pub proof fn law_redo_restores(d: DataView, elt: EditableLineTag, r: Range<int>, with: Seq<char>)
    requires
        d.wf(),
        inside(r, d.line(elt).text.len() as int),
        r.start < r.end || with.len() > 0,
        d.line(elt).group_depth == 0,
    ensures
        ({
            let edited = d.replaced(elt, r, with);
            let again = edited.undone(elt).redone(elt);
            &&& again.line(elt).text == edited.line(elt).text
            &&& again.line(elt).position == edited.line(elt).position
        }),
{
    lemma_edited(d, elt, r, with, false);
    let line = d.line(elt);
    lemma_push_undone(line, r, with);
    reveal(DataView::undone);
    reveal(DataView::redone);
    let back = line.pushed(r, with, false).undone();
    assert(back.future.last() == line.edit(r, with));
}

/// Text that was killed with the cursor in it is put back by yanking it at once. The cursor is then
/// behind it, or on its last character if it stands on characters, and its length is known to a
/// command that exchanges it for another.
pub proof fn law_yank_restores_killed(d: DataView, r: Range<int>, mode: Kill)
    requires
        d.wf(),
        d.rls is Some,
        inside(r, d.active_line().text.len() as int),
        r.start <= d.active_line().position <= r.end,
    ensures
        ({
            let killed = d.killed(d.active_tag(), r, mode, true);
            let back = killed.yanked(killed.kill_item);
            let on_character = d.end_mode == CursorEndMode::Inclusive && r.start < r.end;
            &&& killed.kill_item == part(d.active_line().text, r)
            &&& back.active_tag() == d.active_tag()
            &&& back.active_line().text == d.active_line().text
            &&& back.active_line().position == if on_character {
                r.end - 1
            } else {
                r.end
            }
            &&& back.rls.unwrap().yank_len == r.end - r.start
        }),
{
    let elt = d.active_tag();
    let killed = d.killed(elt, r, mode, true);
    lemma_killed(d, elt, r, mode);
    lemma_yank_puts_back(killed, d.line(elt).text, r);
}

/// What killing leaves behind.
proof fn lemma_killed(d: DataView, elt: EditableLineTag, r: Range<int>, mode: Kill)
    requires
        d.wf(),
        inside(r, d.line(elt).text.len() as int),
        r.start <= d.line(elt).position <= r.end,
    ensures
        ({
            let killed = d.killed(elt, r, mode, true);
            &&& killed.kill_item == part(d.line(elt).text, r)
            &&& killed.line(elt).text == splice(d.line(elt).text, r, Seq::empty())
            &&& killed.line(elt).position == r.start
            &&& killed.active_tag() == d.active_tag()
            &&& killed.rls == d.rls
            &&& killed.end_mode == d.end_mode
        }),
{
    let line = d.line(elt);
    let text = part(line.text, r);
    let noted = DataView { kill_item: text, ..d }.queued(ActionView::KillAdd(text));
    lemma_edited(noted, elt, r, Seq::empty(), false);
    assert(noted.line(elt) == line);
    let killed = d.killed(elt, r, mode, true);
    assert(killed.line(elt).text =~= splice(line.text, r, Seq::empty()));
}

/// Where a range was cut out and the cursor left, yanking what was cut out gives the text again.
proof fn lemma_yank_puts_back(d: DataView, text: Seq<char>, r: Range<int>)
    requires
        d.rls is Some,
        inside(r, text.len() as int),
        d.active_line().text == splice(text, r, Seq::empty()),
        d.active_line().position == r.start,
    ensures
        ({
            let back = d.yanked(part(text, r));
            &&& back.active_tag() == d.active_tag()
            &&& back.active_line().text == text
            &&& back.active_line().position == if d.end_mode == CursorEndMode::Inclusive && r.start
                < r.end {
                r.end - 1
            } else {
                r.end
            }
            &&& back.rls.unwrap().yank_len == r.end - r.start
        }),
{
    let elt = d.active_tag();
    let item = part(text, r);
    let line = d.line(elt);
    let at = Range { start: r.start, end: r.start };
    lemma_edited(d, elt, at, item, !d.search.active());
    assert(splice(line.text, at, item) =~= text);
    let pushed = line.pushed(at, item, !d.search.active());
    assert(pushed.text =~= text);
    assert(pushed.position == r.end);
    let next = d.inserted(elt, item).with_yank_len(item.len() as int);
    assert(next.line(elt).position == r.end);
    lemma_moved(next, elt, Some(r.end - 1));
}

/// The same for the rest of a line, whether or not the command that killed it was noted meanwhile.
proof fn lemma_killed_line_comes_back(d: DataView, noted: bool)
    requires
        d.wf(),
        d.rls is Some,
        d.active_line().position < d.active_line().text.len(),
        d.end_mode == CursorEndMode::Exclusive,
        d.last_cmd() != Some(ReadlineCmd::KillLine),
    ensures
        ({
            let killed = d.line_killed();
            let next = if noted {
                killed.command_ended(ReadlineCmd::KillLine)
            } else {
                killed
            };
            let back = next.yanked(killed.kill_item);
            let from = d.active_line().position;
            &&& killed.kill_item == d.active_line().text.subrange(from, from + d.rest_len())
            &&& back.active_line().text == d.active_line().text
            &&& back.active_line().position == from + d.rest_len()
            &&& back.rls.unwrap().yank_len == d.rest_len()
        }),
{
    let elt = d.active_tag();
    let r = d.rest_of_line();
    lemma_line_end(d.active_line().text, d.active_line().position);
    lemma_killed(d, elt, r, Kill::Append);
    let killed = d.killed(elt, r, Kill::Append, true);
    assert(d.line_killed() == killed);
    let next = if noted {
        killed.command_ended(ReadlineCmd::KillLine)
    } else {
        killed
    };
    assert(next.line(elt) == killed.line(elt));
    assert(next.active_tag() == elt);
    lemma_yank_puts_back(next, d.line(elt).text, r);
}

proof fn lemma_kill_line_commanded(reader: ReaderView, env: SurroundingsView, t: TerminalState)
    ensures
        reader.commanded(ReadlineCmd::KillLine, env, t) == reader.with_data(
            reader.data.line_killed(),
        ),
{
    reveal(DataView::kill_command);
}

proof fn lemma_yank_commanded(reader: ReaderView, env: SurroundingsView, t: TerminalState)
    ensures
        reader.commanded(ReadlineCmd::Yank, env, t) == reader.with_data(
            reader.data.yanked(env.yank),
        ),
{
    reveal(DataView::kill_command);
}

impl DataView {
    /// How much of the line there is to kill behind the cursor: the characters up to the next
    /// newline, or that newline itself if the cursor stands on it.
    pub open spec fn rest_len(self) -> int {
        let line = self.active_line();
        let end = line_end(line.text, line.position);
        if end > line.position {
            end - line.position
        } else {
            1
        }
    }
}

/// Killing the rest of a line and yanking it brings back the text, with the cursor behind what was
/// killed.
pub proof fn law_yank_restores_killed_line(
    reader: ReaderView,
    env: SurroundingsView,
    again: SurroundingsView,
    t: TerminalState,
    noted: bool,
)
    requires
        reader.wf(),
        reader.data.rls is Some,
        reader.data.active_line().position < reader.data.active_line().text.len(),
        reader.data.end_mode == CursorEndMode::Exclusive,
        reader.data.last_cmd() != Some(ReadlineCmd::KillLine),
        again.yank == reader.commanded(ReadlineCmd::KillLine, env, t).data.kill_item,
    ensures
        ({
            let line = reader.data.active_line();
            let k = reader.data.rest_len();
            let killed = reader.commanded(ReadlineCmd::KillLine, env, t);
            let next = if noted {
                killed.with_data(killed.data.command_ended(ReadlineCmd::KillLine))
            } else {
                killed
            };
            let back = next.commanded(ReadlineCmd::Yank, again, t).data;
            &&& k >= 1
            &&& killed.data.kill_item == line.text.subrange(line.position, line.position + k)
            &&& back.active_line().text == line.text
            &&& back.active_line().position == line.position + k
            &&& back.rls.unwrap().yank_len == k
        }),
{
    lemma_killed_line_comes_back(reader.data, noted);
    lemma_kill_line_commanded(reader, env, t);
    let killed = reader.with_data(reader.data.line_killed());
    let next = if noted {
        killed.with_data(killed.data.command_ended(ReadlineCmd::KillLine))
    } else {
        killed
    };
    lemma_yank_commanded(next, again, t);
}

/// Exchanging a yanked text for another gives what yanking the other at once gives.
pub proof fn law_yank_pop_replaces(d: DataView, first: Seq<char>, other: Seq<char>)
    requires
        d.wf(),
        d.rls is Some,
        first.len() > 0,
        d.end_mode == CursorEndMode::Exclusive,
    ensures
        d.yanked(first).yank_popped(other).active_line().text == d.yanked(other).active_line().text,
{
    let elt = d.active_tag();
    let line = d.line(elt);
    let pos = line.position;
    let at = Range { start: pos, end: pos };
    lemma_edited(d, elt, at, first, !d.search.active());
    lemma_edited(d, elt, at, other, !d.search.active());
    lemma_pushed(line, at, first, !d.search.active());
    lemma_pushed(line, at, other, !d.search.active());
    let one = d.yanked(first);
    assert(one.active_tag() == elt);
    assert(one.line(elt).text == splice(line.text, at, first));
    let r = one.yank_range();
    assert(r == (Range { start: pos, end: pos + first.len() }));
    let quiet = one.with_flag(Flag::SuppressAutosuggestion, true);
    lemma_edited(quiet, elt, r, other, false);
    lemma_moved(quiet.replaced(elt, r, other), elt, None);
    assert(splice(splice(line.text, at, first), r, other) =~= splice(line.text, at, other));
    assert(splice(quiet.line(elt).text, r, other) == quiet.line(elt).pushed(r, other, false).text);
}

/// Accepting the whole autosuggestion puts it in place of what was typed of it, and none is left.
pub proof fn law_accepted_suggestion_is_typed(d: DataView)
    requires
        d.wf(),
        d.autosuggestion.text.len() > 0,
    ensures
        ({
            let s = d.autosuggestion;
            let accepted = d.suggestion_accepted(AutosuggestionPortion::All, Seq::empty());
            &&& accepted.command_line.text == splice(d.command_line.text, s.range, s.text)
            &&& accepted.autosuggestion.text.len() == 0
        }),
{
    reveal(DataView::edited);
    let s = d.autosuggestion;
    let bare = d.pager_cleared();
    assert(bare.autosuggestion == s && bare.command_line == d.command_line);
    lemma_edited(bare, EditableLineTag::Commandline, s.range, s.text, false);
}

/// A character that does not continue the autosuggestion hides it; deleting that character at once
/// brings it back.
pub proof fn law_deleting_restores_suggestion(d: DataView, c: char)
    requires
        d.wf(),
        d.conf.autosuggest_ok,
        d.search.at_present(),
        d.autosuggestion.text.len() > 0,
        d.command_line.position == d.autosuggestion.range.end,
        kept_suggestion(
            d.autosuggestion,
            Range { start: d.command_line.position, end: d.command_line.position },
            seq![c],
        ) is None,
    ensures
        ({
            let elt = EditableLineTag::Commandline;
            let pos = d.command_line.position;
            let typed = d.inserted(elt, seq![c]);
            let deleted = typed.erased(elt, Range { start: pos, end: pos + 1 });
            &&& typed.autosuggestion.text.len() == 0
            &&& deleted.autosuggestion == d.autosuggestion
            &&& deleted.command_line.text == d.command_line.text
        }),
{
    reveal(DataView::edited);
    let elt = EditableLineTag::Commandline;
    let pos = d.command_line.position;
    let at = Range { start: pos, end: pos };
    let r = Range { start: pos, end: pos + 1 };
    lemma_edited(d, elt, at, seq![c], !d.search.active());
    lemma_pushed(d.command_line, at, seq![c], !d.search.active());
    let typed = d.inserted(elt, seq![c]);
    lemma_edited(typed, elt, r, Seq::empty(), false);
    assert(splice(typed.command_line.text, r, Seq::empty()) =~= d.command_line.text);
}

/// Where the cursor cannot stand behind the last character, no motion puts it there.
pub proof fn law_inclusive_cursor_stays_on_text(
    d: DataView,
    elt: EditableLineTag,
    new_pos: Option<int>,
)
    requires
        d.wf(),
        d.end_mode == CursorEndMode::Inclusive,
        d.line(elt).text.len() > 0,
        new_pos matches Some(p) ==> 0 <= p <= d.line(elt).text.len(),
    ensures
        0 <= d.moved(elt, new_pos).line(elt).position < d.line(elt).text.len(),
{
    lemma_moved(d, elt, new_pos);
}

/// Every change of the command line makes a new generation, so that work that was begun for the old
/// text is known to be out of date.
pub proof fn law_changes_make_generations(d: DataView, r: Range<int>, with: Seq<char>, coalesce: bool)
    ensures
        d.edited(EditableLineTag::Commandline, r, with, coalesce).generation != d.generation,
        d.command_line.past.len() > 0 ==> d.undone(EditableLineTag::Commandline).generation
            != d.generation,
        d.command_line.future.len() > 0 ==> d.redone(EditableLineTag::Commandline).generation
            != d.generation,
{
    reveal(DataView::edited);
    reveal(DataView::undone);
    reveal(DataView::redone);
}

/// Putting the current search result into the command line changes something that can be undone.
pub open spec fn result_is_edit(d: DataView, search: SearchView, token: Range<int>) -> bool {
    &&& search.by_token() ==> d.active_tag() == EditableLineTag::Commandline && inside(
        token,
        d.command_line.text.len() as int,
    ) && (token.start < token.end || search.current().text.len() > 0)
    &&& !search.by_token() ==> d.command_line.text.len() > 0 || search.current().text.len() > 0
}

/// What a history search leaves in the command line is undone by cancelling it, whichever results
/// were shown one after the other: each replaces the one before.
pub proof fn law_cancelled_search_leaves_no_trace(
    d: DataView,
    token: Range<int>,
    next: SearchView,
    next_token: Range<int>,
)
    requires
        d.wf(),
        d.transient_edit is None,
        d.command_line.group_depth == 0,
        !d.search.at_present(),
        !next.at_present(),
        result_is_edit(d, d.search, token),
        result_is_edit(d, next, next_token),
    ensures
        ({
            let one = d.showing_search_result(token);
            let two = DataView { search: next, ..one }.showing_search_result(next_token);
            &&& one.transient_edit_undone().command_line.text == d.command_line.text
            &&& two.transient_edit_undone().command_line.text == d.command_line.text
        }),
{
    let first = d.without_transient(TransientEdit::HistorySearch);
    assert(first == d);
    lemma_result_put(d, token);
    let one = d.showing_search_result(token);
    lemma_transient_undone(one, d.command_line.text);
    let second = DataView { search: next, ..one };
    let base = second.without_transient(TransientEdit::HistorySearch);
    reveal(DataView::undone);
    assert(base.command_line == one.command_line.undone());
    lemma_result_put(base, next_token);
    let two = second.showing_search_result(next_token);
    lemma_transient_undone(two, d.command_line.text);
}

/// Putting a search result into the command line is one edit.
proof fn lemma_result_put(base: DataView, token: Range<int>)
    requires
        base.command_line.group_depth == 0,
        result_is_edit(base, base.search, token),
    ensures
        ({
            let one = base.search_result_put(token).moved(EditableLineTag::Commandline, None);
            &&& one.transient_edit == Some(TransientEdit::HistorySearch)
            &&& one.command_line.undone().text == base.command_line.text
            &&& one.command_line.undone().group_depth == 0
            &&& one.active_tag() == base.active_tag()
        }),
{
    let elt = EditableLineTag::Commandline;
    let line = base.command_line;
    let r = if base.search.by_token() {
        token
    } else {
        Range { start: 0, end: line.text.len() as int }
    };
    let text = base.search.current().text;
    lemma_edited(base, elt, r, text, false);
    lemma_push_undone(line, r, text);
    let put = base.search_result_put(token);
    lemma_moved(put, elt, None);
    let pushed = line.pushed(r, text, false);
    let one = put.moved(elt, None);
    assert(one.command_line == pushed.moved_to(one.command_line.position));
    assert(one.command_line.undone() == pushed.undone());
}

/// What was selected in the pager is taken out of the command line by cancelling, whichever
/// completions were selected one after the other.
pub proof fn law_cancelled_selection_leaves_no_trace(
    d: DataView,
    ctx: ContextView,
    next: PagerView,
    next_ctx: ContextView,
)
    requires
        d.wf(),
        d.transient_edit is None,
        d.command_line.group_depth == 0,
    ensures
        ({
            let one = d.showing_selection(ctx);
            let two = DataView { pager: next, ..one }.showing_selection(next_ctx);
            &&& one.transient_edit_undone().command_line.text == d.command_line.text
            &&& two.transient_edit_undone().command_line.text == d.command_line.text
        }),
{
    assert(d.without_transient(TransientEdit::Pager) == d);
    lemma_selection_shown(d, ctx);
    let one = d.showing_selection(ctx);
    let second = DataView { pager: next, ..one };
    let base = second.without_transient(TransientEdit::Pager);
    reveal(DataView::undone);
    if one.transient_edit is Some {
        lemma_transient_undone(one, d.command_line.text);
        assert(base.command_line == one.command_line.undone());
    }
    lemma_selection_shown(base, next_ctx);
    let two = second.showing_selection(next_ctx);
    if two.transient_edit is Some {
        lemma_transient_undone(two, d.command_line.text);
    }
}

/// Putting what is selected into the command line is one edit, or none.
proof fn lemma_selection_shown(base: DataView, ctx: ContextView)
    requires
        base.command_line.group_depth == 0,
        base.transient_edit is None,
    ensures
        ({
            let one = base.showing_selection(ctx);
            if one.transient_edit is Some {
                &&& one.transient_edit == Some(TransientEdit::Pager)
                &&& one.command_line.undone().text == base.command_line.text
                &&& one.command_line.undone().group_depth == 0
            } else {
                one.command_line.text == base.command_line.text && one.command_line.group_depth == 0
            }
        }),
{
    let elt = EditableLineTag::Commandline;
    let line = base.command_line;
    assert(base.without_transient(TransientEdit::Pager) == base);
    match base.pager.selected {
        Some(c) => {
            let a = applied(
                c.completion,
                c.flags,
                base.cycle_command_line,
                base.cycle_cursor_pos,
                false,
                ctx,
            );
            if a.line != line.text && a.line != base.cycle_command_line {
                let whole = Range { start: 0, end: line.text.len() as int };
                if line.text.len() == 0 && a.line.len() == 0 {
                    assert(a.line =~= line.text);
                }
                lemma_edited(base, elt, whole, a.line, false);
                lemma_push_undone(line, whole, a.line);
                let put = base.replaced(elt, whole, a.line);
                let pos = if a.cursor <= a.line.len() {
                    a.cursor
                } else {
                    a.line.len() as int
                };
                lemma_moved(put, elt, Some(pos));
                let one = put.moved(elt, Some(pos));
                let pushed = line.pushed(whole, a.line, false);
                assert(one.command_line == pushed.moved_to(one.command_line.position));
                assert(one.command_line.undone() == pushed.undone());
                assert(base.showing_selection(ctx).command_line == one.command_line);
            }
        },
        None => {
            lemma_moved(base, elt, None);
        },
    }
}

/// Going from one end of the selection to the other and back again leaves the cursor and the place
/// where the selection begins.
pub proof fn law_swapping_ends_twice(d: DataView)
    requires
        d.wf(),
        d.active_tag() == EditableLineTag::Commandline,
        d.end_mode == CursorEndMode::Exclusive,
        d.selection matches Some(s) && s.begin <= d.command_line.text.len(),
    ensures
        ({
            let twice = d.selection_swapped().selection_swapped();
            &&& twice.command_line.position == d.command_line.position
            &&& twice.selection matches Some(s) && s.begin == d.selection.unwrap().begin
        }),
{
    reveal(DataView::moved);
}

proof fn lemma_transient_undone(d: DataView, text: Seq<char>)
    requires
        d.transient_edit is Some,
        d.command_line.undone().text == text,
    ensures
        d.transient_edit_undone().command_line.text == text,
{
    reveal(DataView::undone);
    let elt = EditableLineTag::Commandline;
    lemma_moved(d.undone(elt), elt, None);
}

/// A script that sets the command line finds it as it set it.
pub proof fn law_set_buffer_is_read_back(w: WorldView, text: Seq<char>, cursor: Option<usize>)
    requires
        w.wf(),
        w.readers.len() > 0,
        w.top().end_mode == CursorEndMode::Exclusive || cursor_in(cursor, text.len()) < text.len()
            || text.len() == 0,
    ensures
        ({
            let set = w.state_set(w.snapshot.with_buffer(Some(text), cursor)).synced();
            &&& set.snapshot.text == text
            &&& set.snapshot.cursor_pos == cursor_in(cursor, text.len())
        }),
{
    let d = w.top();
    let pos = cursor_in(cursor, text.len());
    let elt = EditableLineTag::Commandline;
    if text != d.command_line.text || pos != d.command_line.position {
        let bare = d.pager_cleared();
        lemma_pager_cleared(d);
        lemma_whole_line_replaced(bare, elt, text);
        let whole = Range { start: 0, end: bare.command_line.text.len() as int };
        lemma_edited(bare, elt, whole, text, false);
        lemma_moved(bare.replaced(elt, whole, text), elt, Some(pos));
    } else if w.snapshot.search_field is Some {
        let field = w.snapshot.search_field.unwrap().0;
        let whole = Range { start: 0, end: d.pager.search_field.text.len() as int };
        lemma_edited(d, EditableLineTag::SearchField, whole, field, false);
    }
    let set = w.state_set(w.snapshot.with_buffer(Some(text), cursor));
    assert(set.top().command_line.text == text);
}

/// Closing the pager leaves the command line.
proof fn lemma_pager_cleared(d: DataView)
    ensures
        d.pager_cleared().command_line == d.command_line,
        d.pager_cleared().end_mode == d.end_mode,
{
    reveal(DataView::edited);
}

/// Once the terminal has gone away, that stays so, and every check says to exit.
pub proof fn law_hangup_is_final(
    w: WorldView,
    has_jobs: bool,
    history_name: Seq<char>,
    conf: ConfigView,
    s: StateView,
    no_status: bool,
)
    requires
        w.sighup,
    ensures
        w.exits(has_jobs),
        w.exit_checked(has_jobs).sighup,
        w.pushed(history_name, conf).sighup,
        w.popped().sighup,
        w.state_set(s).sighup,
        w.synced().sighup,
        w.command_ran(no_status).sighup,
        w.exit_checked_after_command(has_jobs).sighup,
{
}

/// An interrupt is reported once.
pub proof fn law_interrupt_is_reported_once(w: WorldView)
    ensures
        w.interrupted_by_key().interrupted != 0,
        w.interrupted_by_key().interrupt_cleared().interrupted == 0,
{
}

/// Who asks for an exit while there are background jobs is warned, and the exit is not made; who
/// asks again exits.
pub proof fn law_exit_warns_once(d: DataView, e: ExitState)
    requires
        !e.sighup,
        e.top_level,
        e.has_jobs,
        !d.is(Flag::DidWarnForBgJobs),
    ensures
        ({
            let asked = d.with_flag(Flag::ExitLoopRequested, true);
            let warned = asked.exit_checked(e);
            &&& !asked.exits(e)
            &&& warned.actions == asked.actions.push(ActionView::WarnAboutJobs)
            &&& !warned.is(Flag::ExitLoopRequested)
            &&& !warned.exits(e)
            &&& warned.with_flag(Flag::ExitLoopRequested, true).exits(e)
        }),
{
}

/// Reading within reading: when the inner reader is popped, the outer ones are there as before; the
/// current one only goes on on a fresh line, and with the generation that the inner one came to.
pub proof fn law_nested_reading_returns(w: WorldView, history_name: Seq<char>, conf: ConfigView)
    requires
        w.wf(),
    ensures
        ({
            let back = w.pushed(history_name, conf).popped();
            &&& back.readers.len() == w.readers.len()
            &&& back.generation_count() == w.pushed(history_name, conf).generation_count()
            &&& forall|i: int|
                #![trigger back.readers[i]]
                0 <= i < w.readers.len() - 1 ==> back.readers[i] == w.readers[i]
            &&& w.readers.len() > 0 ==> back.top() == (DataView {
                generation: back.top().generation,
                ..w.top()
            }).queued(ActionView::ResetAbandoningLine)
        }),
{
    let pushed = w.pushed(history_name, conf);
    assert(pushed.readers.drop_last() =~= w.readers);
}

/// Reading ahead does not go beyond the limit of characters.
pub proof fn law_readahead_keeps_limit(d: DataView, chars: Seq<char>)
    requires
        d.wf(),
        d.rls is Some,
        !d.at_limit(),
        chars.len() <= d.readahead(),
    ensures
        d.rls.unwrap().nchars matches Some(n) ==> d.chars_read(chars).command_line.text.len() <= n,
{
    let elt = d.active_tag();
    let pos = d.line(elt).position;
    let at = Range { start: pos, end: pos };
    lemma_edited(d, elt, at, chars, !d.search.active());
    lemma_pushed(d.line(elt), at, chars, !d.search.active());
    lemma_pager_cleared(d.inserted(elt, chars));
}

/// The backslashes before a position are counted in the text before it.
proof fn lemma_same_backslashes(a: Seq<char>, b: Seq<char>, pos: int)
    requires
        0 <= pos <= a.len(),
        pos <= b.len(),
        forall|i: int| 0 <= i < pos ==> a[i] == b[i],
    ensures
        backslashes_before(a, pos) == backslashes_before(b, pos),
    decreases pos,
{
    if pos > 0 {
        lemma_same_backslashes(a, b, pos - 1);
    }
}

/// What goes into the history is the beginning of the command, and has no space or newline at its
/// end that is not escaped. What was cut off are spaces and newlines that are not escaped either.
pub proof fn law_trimmed_command(s: Seq<char>)
    ensures
        ({
            let t = trimmed(s);
            &&& t.is_prefix_of(s)
            &&& t.len() > 0 && (t.last() == ' ' || t.last() == '\n') ==> backslashes_before(
                t,
                t.len() - 1,
            ) % 2 != 0
            &&& forall|i: int|
                #![trigger s[i]]
                t.len() <= i < s.len() ==> (s[i] == ' ' || s[i] == '\n') && backslashes_before(s, i)
                    % 2 == 0
        }),
    decreases s.len(),
{
    if s.len() > 0 && (s.last() == ' ' || s.last() == '\n') && backslashes_before(s, s.len() - 1)
        % 2 == 0 {
        law_trimmed_command(s.drop_last());
        let t = trimmed(s);
        assert(t.is_prefix_of(s)) by {
            assert(t =~= s.subrange(0, t.len() as int));
        }
        assert forall|i: int| #![trigger s[i]] t.len() <= i < s.len() implies (s[i] == ' ' || s[i]
            == '\n') && backslashes_before(s, i) % 2 == 0 by {
            if i < s.len() - 1 {
                assert(s.drop_last()[i] == s[i]);
                lemma_same_backslashes(s.drop_last(), s, i);
            }
        }
    }
}

} // verus!

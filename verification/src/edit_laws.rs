//! What editing promises: edits, undo, the kill ring and the cursor.

use crate::action::ActionView;
use crate::data::{
    CursorEndMode, CursorSelectionMode, DataView, EditableLineTag, Kill,
};
use crate::edit::{kept_suggestion, lemma_edited, lemma_moved};
use crate::flags::Flag;
use crate::line::LineView;
use crate::suggestion::SuggestionView;
use crate::suggestion_laws::law_prefixes;
use std::ops::Range;
use vstd::prelude::*;

verus! {

/// An edit of a line replaces a range, and nothing else. The cursor goes behind what was inserted if
/// it was in the range or at its end. What had been undone can no longer be redone.
pub proof fn law_line_is_edited(line: LineView, r: Range<int>, with: Seq<char>, coalesce: bool)
    requires
        line.colors.len() == line.text.len(),
        0 <= line.position <= line.text.len(),
        0 <= r.start <= r.end <= line.text.len(),
    ensures
        ({
            let next = line.pushed(r, with, coalesce);
            let n = with.len() as int;
            &&& next.text == line.text.take(r.start) + with + line.text.skip(r.end)
            &&& next.colors.len() == next.text.len()
            &&& next.colors.take(r.start) == line.colors.take(r.start)
            &&& next.colors.skip(r.start + n) == line.colors.skip(r.end)
            &&& forall|i: int|
                r.start <= i < r.start + n && r.start > 0 ==> #[trigger] next.colors[i]
                    == line.colors[r.start - 1]
            &&& r.start <= line.position <= r.end ==> next.position == r.start + n
            &&& line.position >= r.end && (r.start < r.end || n > 0) ==> next.position
                == line.position + n - (r.end - r.start)
            &&& r.start < r.end || n > 0 ==> next.future.len() == 0
            &&& r.start == r.end && n == 0 ==> next == line
        }),
{
    let next = line.pushed(r, with, coalesce);
    let n = with.len() as int;
    if r.start == r.end && n == 0 {
        assert(next.text =~= line.text.take(r.start) + with + line.text.skip(r.end));
    } else {
        assert(next.text =~= line.text.take(r.start) + with + line.text.skip(r.end));
    }
    assert(next.colors.take(r.start) =~= line.colors.take(r.start));
    assert(next.colors.skip(r.start + n) =~= line.colors.skip(r.end));
}

/// Characters typed one after the other are undone together, up to a space. One that is not typed at
/// the cursor, or replaces something, is undone alone.
pub proof fn law_typing_is_undone_together(line: LineView, a: char, b: char)
    requires
        line.wf(),
        line.group_depth == 0,
        !line.may_coalesce,
    ensures
        ({
            let at = Range { start: line.position, end: line.position };
            let one = line.pushed(at, seq![a], true);
            let next = Range { start: line.position + 1, end: line.position + 1 };
            let two = one.pushed(next, seq![b], true);
            let elsewhere = one.moved_to(line.position).pushed(at, seq![b], true);
            &&& b != ' ' ==> two.undone().text == line.text && two.undone().position
                == line.position
            &&& b == ' ' ==> two.undone().text == one.text && two.undone().position == one.position
            &&& one.pushed(next, seq![b], false).undone().text == one.text
            &&& elsewhere.undone().text == one.text
            &&& one.pushed(at, seq![b], true).undone().text == one.text
        }),
{
    let at = Range { start: line.position, end: line.position };
    let one = line.pushed(at, seq![a], true);
    let next = Range { start: line.position + 1, end: line.position + 1 };
    let two = one.pushed(next, seq![b], true);
    let p = line.position;
    assert(one.past.last() == line.edit(at, seq![a]));
    assert(one.text =~= line.text.take(p) + seq![a] + line.text.skip(p));
    assert(line.text.subrange(p, p) =~= Seq::empty());
    if b != ' ' {
        let e = two.past.last();
        assert(e.replacement =~= seq![a, b]);
        assert(two.undone().text =~= line.text);
    } else {
        assert(two.past.last() == one.edit(next, seq![b]));
        assert(two.undone().text =~= one.text);
    }
    let alone = one.pushed(next, seq![b], false);
    assert(alone.past.last() == one.edit(next, seq![b]));
    assert(alone.undone().text =~= one.text);
    let elsewhere = one.moved_to(p).pushed(at, seq![b], true);
    assert(elsewhere.past.last() == one.moved_to(p).edit(at, seq![b]));
    assert(elsewhere.undone().text =~= one.text);
    let before = one.pushed(at, seq![b], true);
    assert(before.past.last() == one.edit(at, seq![b]));
    assert(before.undone().text =~= one.text);
}

/// Edits made while an undo group is open are undone by one undo.
pub proof fn law_group_is_undone_together(
    line: LineView,
    r: Range<int>,
    with: Seq<char>,
    q: Range<int>,
    more: Seq<char>,
)
    requires
        line.wf(),
        line.group_depth == 0,
        0 <= r.start <= r.end <= line.text.len(),
        r.start < r.end || with.len() > 0,
        0 <= q.start <= q.end <= line.text.len() - (r.end - r.start) + with.len(),
        q.start < q.end || more.len() > 0,
        line.past.len() > 0 ==> line.past.last().group != line.group_begun().edit(r, with).group,
    ensures
        ({
            let two = line.group_begun().pushed(r, with, false).pushed(q, more, false).group_ended();
            &&& two.undone().text == line.text
            &&& two.undone().position == line.position
        }),
{
    let begun = line.group_begun();
    let one = begun.pushed(r, with, false);
    let two = one.pushed(q, more, false);
    let ended = two.group_ended();
    let e = begun.edit(r, with);
    let f = one.edit(q, more);
    assert(two.past.last() == f);
    assert(two.past.drop_last() =~= one.past);
    assert(one.past.last() == e);
    assert(one.past.drop_last() =~= line.past);
    assert(f.group == e.group && e.group is Some);
    let back = ended.stepped_back();
    assert(back.text =~= one.text);
    assert(back.past =~= one.past);
    let first = back.stepped_back();
    assert(first.text =~= line.text);
    assert(first.past =~= line.past);
    assert(first.group_undone(e.group) == first);
    assert(back.group_undone(e.group) == first);
    assert(ended.undone().text == line.text);
}

/// The search field is edited while it is shown and the user moves in the list below it or in the
/// history; otherwise the command line is.
pub proof fn law_active_line(d: DataView)
    ensures
        d.pager.search_field_shown && (d.pager.selected_idx is Some || d.history_pager is Some)
            ==> d.active_tag() == EditableLineTag::SearchField && d.active_line()
            == d.pager.search_field,
        !(d.pager.search_field_shown && (d.pager.selected_idx is Some || d.history_pager is Some))
            ==> d.active_tag() == EditableLineTag::Commandline && d.active_line()
            == d.command_line,
{
}

/// A switch keeps what it was set to, and no other changes with it.
pub proof fn law_switches(d: DataView, f: Flag, g: Flag, on: bool, a: ActionView)
    ensures
        d.with_flag(f, on).is(f) == on,
        g != f ==> d.with_flag(f, on).is(g) == d.is(g),
        d.queued(a).actions == d.actions + seq![a],
        d.queued(a).flags == d.flags,
{
    assert(d.queued(a).actions =~= d.actions + seq![a]);
}

/// The cursor goes where it is asked to go. A cursor that stands on characters goes to the last one
/// instead of behind it. The text stays.
pub proof fn law_cursor_goes(d: DataView, elt: EditableLineTag, to: int)
    requires
        0 <= d.line(elt).position <= d.line(elt).text.len(),
        0 <= to <= d.line(elt).text.len(),
    ensures
        ({
            let next = d.moved(elt, Some(to));
            let text = d.line(elt).text;
            let last = d.end_mode == CursorEndMode::Inclusive && to == text.len() && to > 0;
            &&& next.line(elt).text == text
            &&& !last ==> next.line(elt).position == to
            &&& last ==> next.line(elt).position == to - 1
            &&& next.actions == d.actions
            &&& next.active_tag() == d.active_tag()
        }),
{
    lemma_moved(d, elt, Some(to));
}

/// Moving the cursor of the command line to another line holds autosuggestions off; moving it within
/// a line does not. A selection reaches from where it was begun to the cursor, and over the character
/// there if it counts.
pub proof fn law_cursor_takes_selection_along(d: DataView, to: int)
    requires
        d.wf(),
        0 <= to <= d.command_line.text.len(),
        d.end_mode == CursorEndMode::Exclusive,
        to < isize::MAX,
        d.selection matches Some(s) ==> s.begin < isize::MAX,
    ensures
        ({
            let next = d.moved(EditableLineTag::Commandline, Some(to));
            let from = d.command_line.position;
            let other_line = exists|i: int|
                (from <= i < to || to <= i < from) && #[trigger] d.command_line.text[i] == '\n';
            let one = if d.selection_mode == CursorSelectionMode::Inclusive {
                1int
            } else {
                0int
            };
            &&& next.is(Flag::SuppressAutosuggestion) <==> other_line || d.is(
                Flag::SuppressAutosuggestion,
            )
            &&& forall|f: Flag|
                f != Flag::SuppressAutosuggestion ==> #[trigger] next.is(f) == d.is(f)
            &&& d.selection is None ==> next.selection is None
            &&& d.selection matches Some(s) ==> {
                &&& next.selection matches Some(t)
                &&& t.begin == s.begin
                &&& s.begin <= to ==> t.start == s.begin && t.stop == to + one
                &&& s.begin > to ==> t.start == to && t.stop == s.begin + one
            }
        }),
{
    reveal(DataView::moved);
    let next = d.moved(EditableLineTag::Commandline, Some(to));
    let from = d.command_line.position;
    let text = d.command_line.text;
    let crossed = if to <= from {
        text.subrange(to, from)
    } else {
        text.subrange(from, to)
    };
    let low = if to <= from {
        to
    } else {
        from
    };
    let other_line = exists|i: int|
        (from <= i < to || to <= i < from) && #[trigger] text[i] == '\n';
    if other_line {
        let i = choose|i: int| (from <= i < to || to <= i < from) && #[trigger] text[i] == '\n';
        assert(crossed[i - low] == '\n');
    }
    if crossed.contains('\n') {
        let k = choose|k: int| 0 <= k < crossed.len() && crossed[k] == '\n';
        assert(text[low + k] == '\n');
    }
}

/// Every edit of the command line is a new generation, and none leaves a suggestion that does not
/// continue the text. A suggestion is kept while what is typed agrees with it and does not use it up.
pub proof fn law_suggestion_is_kept(s: SuggestionView, typed: Seq<char>)
    requires
        s.text.len() > 0,
        0 <= s.range.start <= s.range.end,
        s.range.end - s.range.start <= s.text.len(),
        !s.icase,
    ensures
        ({
            let at = Range { start: s.range.end, end: s.range.end };
            let rest = s.text.skip(s.range.end - s.range.start);
            let kept = kept_suggestion(s, at, typed);
            &&& kept is Some <==> typed.is_prefix_of(rest) && typed != rest
            &&& kept matches Some(k) ==> {
                &&& k.text == s.text
                &&& k.range.start == s.range.start
                &&& k.range.end == s.range.end + typed.len()
                &&& k.icase == s.icase
                &&& k.is_whole == s.is_whole
            }
        }),
{
    let rest = s.text.skip(s.range.end - s.range.start);
    law_prefixes(typed, rest);
    if typed.is_prefix_of(rest) && typed.len() == rest.len() {
        assert(typed =~= rest);
    }
}

/// What was killed from `a` to `b` is gone from the active line and nothing else is, and it went into
/// the kill ring: as a new item, or before or behind what was killed last.
pub open spec fn has_killed(
    d: DataView,
    next: DataView,
    a: int,
    b: int,
    before: bool,
    added: bool,
) -> bool {
    let text = d.active_line().text;
    let out = text.subrange(a, b);
    &&& 0 <= a < b <= text.len()
    &&& next.active_tag() == d.active_tag()
    &&& next.active_line().text == text.take(a) + text.skip(b)
    &&& a <= d.active_line().position <= b ==> next.active_line().position == a
    &&& !added ==> next.kill_item == out
    &&& added && before ==> next.kill_item == out + d.kill_item
    &&& added && !before ==> next.kill_item == d.kill_item + out
    &&& next.actions.len() > d.actions.len()
    &&& next.actions[d.actions.len() as int] == if added {
        ActionView::KillReplace { old: d.kill_item, new: next.kill_item }
    } else {
        ActionView::KillAdd(out)
    }
}

pub proof fn lemma_has_killed(d: DataView, r: Range<int>, mode: Kill, newv: bool)
    requires
        d.wf(),
        0 <= r.start < r.end <= d.active_line().text.len(),
    ensures
        has_killed(
            d,
            d.killed(d.active_tag(), r, mode, newv),
            r.start,
            r.end,
            mode == Kill::Prepend,
            !newv,
        ),
{
    let elt = d.active_tag();
    let next = d.killed(elt, r, mode, newv);
    let text = d.line(elt).text;
    let item = next_item(d, r, mode, newv);
    let noted = DataView { kill_item: item, ..d }.queued(
        if newv {
            ActionView::KillAdd(item)
        } else {
            ActionView::KillReplace { old: d.kill_item, new: item }
        },
    );
    assert(noted.line(elt) == d.line(elt));
    assert(next == noted.replaced(elt, r, Seq::empty()));
    lemma_edited(noted, elt, r, Seq::empty(), false);
    law_line_is_edited(d.line(elt), r, Seq::empty(), false);
    assert(next.line(elt).text =~= text.take(r.start) + text.skip(r.end));
    lemma_edited_actions(noted, elt, r);
    assert(next.actions.subrange(0, noted.actions.len() as int)[d.actions.len() as int]
        == noted.actions.last());
}

spec fn next_item(d: DataView, r: Range<int>, mode: Kill, newv: bool) -> Seq<char> {
    let out = d.active_line().text.subrange(r.start, r.end);
    if newv {
        out
    } else if mode == Kill::Prepend {
        out + d.kill_item
    } else {
        d.kill_item + out
    }
}

/// An edit asks for more, and takes nothing back that was asked for.
proof fn lemma_edited_actions(d: DataView, elt: EditableLineTag, r: Range<int>)
    ensures
        d.actions.is_prefix_of(d.replaced(elt, r, Seq::empty()).actions),
{
    reveal(DataView::edited);
    assert(d.actions =~= d.replaced(elt, r, Seq::empty()).actions.subrange(
        0,
        d.actions.len() as int,
    ));
}

/// An edit of the command line asks for nothing, and the loop goes on as before.
pub proof fn lemma_edit_is_quiet(d: DataView, r: Range<int>, with: Seq<char>, coalesce: bool)
    ensures
        d.edited(EditableLineTag::Commandline, r, with, coalesce).actions == d.actions,
{
    reveal(DataView::edited);
}

} // verus!

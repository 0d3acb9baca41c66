//! What the commands that rewrite text promise.

use crate::cursor::TokenView;
use crate::data::{CursorEndMode, CursorSelectionMode, DataView, EditableLineTag};
use crate::edit::{lemma_edited, lemma_moved};
use crate::edit_laws::law_line_is_edited;
use crate::finish::ExitState;
use crate::flags::Flag;
use crate::kill_laws::{at_least_one, law_leading, leads};
use crate::motion::{composed_start, leading};
use crate::paint::ScreenState;
use crate::rewrite::{goes_upper, recased, transposed, word_begin, CaseChange};
use crate::suggestion_laws::{bounds_line, law_line_bounds};
use crate::text::{line_end, line_start};
use crate::unicode::{alphanumeric, lowercase, lowercased, uppercased};
use std::ops::Range;
use vstd::prelude::*;

verus! {

/// A range of the active line was replaced, and nothing else of it.
pub open spec fn has_replaced(d: DataView, next: DataView, a: int, b: int, with: Seq<char>) -> bool {
    let text = d.active_line().text;
    &&& next.active_tag() == d.active_tag()
    &&& next.active_line().text == text.take(a) + with + text.skip(b)
    &&& next.kill_item == d.kill_item
    &&& next.rls == d.rls
}

proof fn lemma_has_replaced(d: DataView, r: Range<int>, with: Seq<char>, to: Option<int>)
    requires
        d.wf(),
        0 <= r.start <= r.end <= d.active_line().text.len(),
    ensures
        ({
            let elt = d.active_tag();
            let next = d.replaced(elt, r, with).moved(elt, to);
            &&& has_replaced(d, next, r.start, r.end, with)
            &&& d.end_mode == CursorEndMode::Exclusive && to is Some ==> next.active_line().position
                == to->0
            &&& d.end_mode == CursorEndMode::Exclusive && to is None && r.start
                <= d.active_line().position <= r.end ==> next.active_line().position == r.start
                + with.len()
        }),
{
    let elt = d.active_tag();
    lemma_edited(d, elt, r, with, false);
    law_line_is_edited(d.active_line(), r, with, false);
    lemma_moved(d.replaced(elt, r, with), elt, to);
}

proof fn lemma_recased_alike(a: Seq<char>, change: CaseChange, x: bool, y: bool)
    requires
        change != CaseChange::Capitalize,
    ensures
        recased(a, change, x) == recased(a, change, y),
    decreases a.len(),
{
    if a.len() > 0 {
        let up = goes_upper(a[0], change, x);
        lemma_recased_alike(a.skip(1), change, x || up, y || up);
    }
}

proof fn lemma_recased_together(a: Seq<char>, b: Seq<char>, change: CaseChange, x: bool)
    requires
        change != CaseChange::Capitalize,
    ensures
        recased(a + b, change, x) == recased(a, change, x) + recased(b, change, x),
    decreases a.len(),
{
    if a.len() == 0 {
        assert(a + b =~= b);
        assert(recased(a, change, x) + recased(b, change, x) =~= recased(b, change, x));
    } else {
        let up = goes_upper(a[0], change, x);
        assert((a + b).skip(1) =~= a.skip(1) + b);
        lemma_recased_together(a.skip(1), b, change, x || up);
        lemma_recased_alike(b, change, x || up, x);
        assert(recased(a + b, change, x) =~= recased(a, change, x) + recased(b, change, x));
    }
}

proof fn lemma_recased_one(c: char, change: CaseChange)
    ensures
        recased(seq![c], change, false) == if goes_upper(c, change, false) {
            uppercased(c)
        } else {
            lowercased(c)
        },
{
    let up = goes_upper(c, change, false);
    let first = if up {
        uppercased(c)
    } else {
        lowercased(c)
    };
    assert(seq![c].skip(1) =~= Seq::empty());
    assert(recased(seq![c].skip(1), change, up) == Seq::<char>::empty());
    assert(first + Seq::empty() =~= first);
}

/// Uppercase, lowercase and the other case are given character by character.
pub proof fn law_case_by_character(a: Seq<char>, b: Seq<char>, c: char)
    ensures
        recased(seq![c], CaseChange::Upper, false) == uppercased(c),
        recased(seq![c], CaseChange::Lower, false) == lowercased(c),
        recased(seq![c], CaseChange::Toggle, false) == if lowercase(c) {
            uppercased(c)
        } else {
            lowercased(c)
        },
        forall|change: CaseChange|
            change != CaseChange::Capitalize ==> #[trigger] recased(a + b, change, false)
                == recased(a, change, false) + recased(b, change, false),
{
    lemma_recased_one(c, CaseChange::Upper);
    lemma_recased_one(c, CaseChange::Lower);
    lemma_recased_one(c, CaseChange::Toggle);
    assert forall|change: CaseChange| change != CaseChange::Capitalize implies #[trigger] recased(
        a + b,
        change,
        false,
    ) == recased(a, change, false) + recased(b, change, false) by {
        lemma_recased_together(a, b, change, false);
    }
}

proof fn lemma_capitalized_rest(s: Seq<char>, x: bool)
    ensures
        recased(s, CaseChange::Capitalize, true) == recased(s, CaseChange::Lower, x),
    decreases s.len(),
{
    if s.len() > 0 {
        lemma_capitalized_rest(s.skip(1), x);
    }
}

/// Capitalizing puts the first letter or digit in uppercase and everything else in lowercase.
pub proof fn law_capitalize(before: Seq<char>, c: char, behind: Seq<char>)
    requires
        alphanumeric(c),
        forall|i: int| 0 <= i < before.len() ==> !alphanumeric(#[trigger] before[i]),
    ensures
        recased(before + seq![c] + behind, CaseChange::Capitalize, false) == recased(
            before,
            CaseChange::Lower,
            false,
        ) + uppercased(c) + recased(behind, CaseChange::Lower, false),
    decreases before.len(),
{
    let s = before + seq![c] + behind;
    if before.len() == 0 {
        assert(s.skip(1) =~= behind);
        assert(s[0] == c);
        lemma_capitalized_rest(behind, false);
        assert(Seq::<char>::empty() + uppercased(c) =~= uppercased(c));
    } else {
        assert(s[0] == before[0]);
        assert(s.skip(1) =~= before.skip(1) + seq![c] + behind);
        assert forall|i: int| 0 <= i < before.skip(1).len() implies !alphanumeric(
            #[trigger] before.skip(1)[i],
        ) by {
            assert(before.skip(1)[i] == before[i + 1]);
        }
        law_capitalize(before.skip(1), c, behind);
        assert(recased(s, CaseChange::Capitalize, false) =~= recased(
            before,
            CaseChange::Lower,
            false,
        ) + uppercased(c) + recased(behind, CaseChange::Lower, false));
    }
}

/// The commands that change the case change that of the character at the cursor, or of what is
/// selected, and leave the cursor where it is.
pub proof fn law_case_is_changed(d: DataView)
    requires
        d.wf(),
        d.active_tag() == EditableLineTag::Commandline,
        d.selection matches Some(s) ==> s.start <= s.stop
            <= d.command_line.text.len(),
    ensures
        ({
            let text = d.active_line().text;
            let pos = d.active_line().position;
            let one = d.char_toggled();
            let toggled = d.selection_recased(CaseChange::Toggle);
            let upper = d.selection_recased(CaseChange::Upper);
            let lower = d.selection_recased(CaseChange::Lower);
            &&& pos < text.len() ==> has_replaced(
                d,
                one,
                pos,
                pos + 1,
                recased(seq![text[pos]], CaseChange::Toggle, false),
            )
            &&& pos == text.len() ==> one == d
            &&& d.selection is None ==> toggled == d && upper == d && lower == d
            &&& d.selection matches Some(s) ==> s.start < s.stop ==> {
                let (a, b) = (s.start as int, s.stop as int);
                let part = text.subrange(a, b);
                &&& has_replaced(d, toggled, a, b, recased(part, CaseChange::Toggle, false))
                &&& has_replaced(d, upper, a, b, recased(part, CaseChange::Upper, false))
                &&& has_replaced(d, lower, a, b, recased(part, CaseChange::Lower, false))
                &&& d.end_mode == CursorEndMode::Exclusive ==> upper.active_line().position == pos
            }
        }),
{
    let text = d.active_line().text;
    let pos = d.active_line().position;
    if pos < text.len() {
        assert(text.subrange(pos, pos + 1) =~= seq![text[pos]]);
        lemma_has_replaced(
            d,
            Range { start: pos, end: pos + 1 },
            recased(seq![text[pos]], CaseChange::Toggle, false),
            Some(pos),
        );
    }
    match d.selection {
        Some(s) => if s.start < s.stop {
            let r = Range { start: s.start as int, end: s.stop as int };
            let part = text.subrange(r.start, r.end);
            lemma_has_replaced(d, r, recased(part, CaseChange::Toggle, false), Some(pos));
            lemma_has_replaced(d, r, recased(part, CaseChange::Upper, false), Some(pos));
            lemma_has_replaced(d, r, recased(part, CaseChange::Lower, false), Some(pos));
        },
        None => {},
    }
}

proof fn lemma_word_recased(d: DataView, change: CaseChange, word: Seq<bool>)
    requires
        d.wf(),
        d.selection_mode == CursorSelectionMode::Exclusive,
        d.end_mode == CursorEndMode::Exclusive,
        d.active_line().position < d.active_line().text.len(),
    ensures
        ({
            let text = d.active_line().text;
            let pos = d.active_line().position;
            let next = d.word_recased(change, word);
            forall|k: int| #[trigger]
                leads(word, k, text.len() - pos) ==> has_replaced(
                    d,
                    next,
                    pos,
                    pos + at_least_one(k),
                    recased(text.subrange(pos, pos + at_least_one(k)), change, false),
                )
        }),
{
    let elt = d.active_tag();
    let text = d.active_line().text;
    let pos = d.active_line().position;
    law_leading(word, text.len() - pos);
    let to = pos + at_least_one(leading(word, text.len() - pos));
    lemma_moved(d, elt, Some(to));
    let there = d.moved(elt, Some(to));
    let with = recased(text.subrange(pos, to), change, false);
    let r = Range { start: pos, end: to };
    lemma_edited(there, elt, r, with, false);
    law_line_is_edited(there.line(elt), r, with, false);
    lemma_moved(there.replaced(elt, r, with), elt, None);
}

/// The commands that change the case of a word change it from the cursor to the end of the word, of at
/// least one character.
pub proof fn law_case_of_word_is_changed(d: DataView, word: Seq<bool>)
    requires
        d.wf(),
        d.selection_mode == CursorSelectionMode::Exclusive,
        d.end_mode == CursorEndMode::Exclusive,
        d.active_line().position < d.active_line().text.len(),
    ensures
        ({
            let text = d.active_line().text;
            let pos = d.active_line().position;
            let upper = d.word_recased(CaseChange::Upper, word);
            let lower = d.word_recased(CaseChange::Lower, word);
            let first = d.word_recased(CaseChange::Capitalize, word);
            forall|k: int| #[trigger]
                leads(word, k, text.len() - pos) ==> {
                    let to = pos + at_least_one(k);
                    let part = text.subrange(pos, to);
                    &&& has_replaced(d, upper, pos, to, recased(part, CaseChange::Upper, false))
                    &&& has_replaced(d, lower, pos, to, recased(part, CaseChange::Lower, false))
                    &&& has_replaced(
                        d,
                        first,
                        pos,
                        to,
                        recased(part, CaseChange::Capitalize, false),
                    )
                }
        }),
{
    lemma_word_recased(d, CaseChange::Upper, word);
    lemma_word_recased(d, CaseChange::Lower, word);
    lemma_word_recased(d, CaseChange::Capitalize, word);
}

proof fn lemma_composed_start(widths: Seq<i32>, pos: int)
    requires
        pos > 0,
    ensures
        ({
            let a = composed_start(widths, pos);
            &&& 0 <= a < pos
            &&& a == 0 || widths[a] != 0
            &&& forall|i: int| a < i < pos ==> #[trigger] widths[i] == 0
        }),
    decreases pos,
{
    if pos > 1 && widths[pos - 1] == 0 {
        lemma_composed_start(widths, pos - 1);
    }
}

/// A character that is shown with the marks that are combined with it, from its beginning to there.
pub open spec fn is_composed(widths: Seq<i32>, from: int, to: int) -> bool {
    &&& 0 <= from < to
    &&& from == 0 || widths[from] != 0
    &&& forall|i: int| from < i < to ==> #[trigger] widths[i] == 0
}

/// Deleting backwards deletes the character before the cursor, and deleting the one at it, with all
/// the marks that are combined with it up to there. Autosuggestions are held off. At the beginning, or
/// at the end, there is nothing to delete.
pub proof fn law_character_is_deleted(d: DataView, widths: Seq<i32>, e: ExitState)
    requires
        d.wf(),
        widths.len() == d.active_line().text.len(),
    ensures
        ({
            let text = d.active_line().text;
            let pos = d.active_line().position;
            let back = d.char_deleted(true, widths);
            let here = d.deleted_or_exiting(false, widths, e);
            &&& pos == 0 ==> back == d
            &&& pos == text.len() ==> here == d
            &&& forall|a: int|
                pos > 0 && #[trigger] is_composed(widths, a, pos) ==> has_replaced(
                    d,
                    back,
                    a,
                    pos,
                    Seq::empty(),
                )
            &&& forall|a: int|
                pos < text.len() && #[trigger] is_composed(widths, a, pos + 1) ==> has_replaced(
                    d,
                    here,
                    a,
                    pos + 1,
                    Seq::empty(),
                )
        }),
{
    let text = d.active_line().text;
    let pos = d.active_line().position;
    let quiet = d.with_flag(Flag::SuppressAutosuggestion, true);
    if pos > 0 {
        let a = composed_start(widths, pos);
        lemma_composed_start(widths, pos);
        lemma_has_replaced(quiet, Range { start: a, end: pos }, Seq::empty(), None);
        assert forall|b: int| #[trigger] is_composed(widths, b, pos) implies a == b by {
            if a < b {
                assert(widths[b] == 0);
            } else if b < a {
                assert(widths[a] == 0);
            }
        }
    }
    if pos < text.len() {
        let a = composed_start(widths, pos + 1);
        lemma_composed_start(widths, pos + 1);
        lemma_has_replaced(quiet, Range { start: a, end: pos + 1 }, Seq::empty(), None);
        assert forall|b: int| #[trigger] is_composed(widths, b, pos + 1) implies a == b by {
            if a < b {
                assert(widths[b] == 0);
            } else if b < a {
                assert(widths[a] == 0);
            }
        }
    }
}

proof fn lemma_line_set(d: DataView, text: Seq<char>, pos: int)
    requires
        d.active_line().colors.len() == d.active_line().text.len(),
        0 <= d.active_line().position <= d.active_line().text.len(),
        0 <= pos <= text.len(),
        d.end_mode == CursorEndMode::Exclusive,
    ensures
        ({
            let next = d.line_and_position_set(d.active_tag(), text, pos);
            &&& next.active_tag() == d.active_tag()
            &&& next.active_line().text == text
            &&& next.active_line().position == pos
        }),
{
    let elt = d.active_tag();
    let n = d.line(elt).text.len() as int;
    let whole = Range { start: 0, end: n };
    lemma_edited(d, elt, whole, text, false);
    law_line_is_edited(d.active_line(), whole, text, false);
    assert(d.line(elt).text.take(0) + text + d.line(elt).text.skip(n) =~= text);
    let put = d.replaced(elt, whole, text);
    lemma_moved(put.with_line(elt, put.line(elt).moved_to(pos)), elt, Some(pos));
}

/// Transposing characters exchanges the one before the cursor and the one at it, or the last two at
/// the end, and moves the cursor behind both.
pub proof fn law_characters_are_transposed(d: DataView)
    requires
        d.wf(),
        d.end_mode == CursorEndMode::Exclusive,
    ensures
        ({
            let text = d.active_line().text;
            let n = text.len() as int;
            let next = d.chars_transposed();
            let at = if d.active_line().position == n {
                n - 1
            } else {
                d.active_line().position
            };
            &&& n < 2 ==> next == d
            &&& n >= 2 && at == 0 ==> next.active_line().text == text
            &&& n >= 2 && at > 0 ==> {
                &&& next.active_line().text == text.take(at - 1) + seq![text[at], text[at - 1]]
                    + text.skip(at + 1)
                &&& next.active_line().position == at + 1
            }
        }),
{
    let elt = d.active_tag();
    let text = d.active_line().text;
    let n = text.len() as int;
    if n >= 2 {
        let pos = d.active_line().position;
        let base = if pos == n {
            d.moved(elt, Some(pos - 1))
        } else {
            d
        };
        lemma_moved(d, elt, Some(pos - 1));
        let at = base.line(elt).position;
        if at > 0 {
            let swapped = text.update(at, text[at - 1]).update(at - 1, text[at]);
            assert(swapped =~= text.take(at - 1) + seq![text[at], text[at - 1]] + text.skip(
                at + 1,
            ));
            lemma_line_set(base, swapped, at + 1);
        }
    }
}

/// Transposing words exchanges the token at the cursor and the one before it, keeps what stands
/// between, before and behind them, and moves the cursor behind both.
pub proof fn law_words_are_transposed(d: DataView, t: TokenView, retry: TokenView)
    requires
        d.wf(),
        d.end_mode == CursorEndMode::Exclusive,
        t.token.start < d.active_line().text.len(),
        0 <= t.previous.start < t.previous.end <= t.token.start
            < t.token.end <= d.active_line().text.len(),
    ensures
        ({
            let text = d.active_line().text;
            let next = d.words_transposed(t, retry);
            let tok = t.token;
            let prev = t.previous;
            &&& next.active_line().text == text.take(prev.start) + text.subrange(
                tok.start,
                tok.end,
            ) + text.subrange(prev.end, tok.start) + text.subrange(prev.start, prev.end)
                + text.skip(tok.end)
            &&& next.active_line().position == tok.end
        }),
{
    let text = d.active_line().text;
    let to = word_begin(text, d.active_line().position);
    lemma_word_begin(text, d.active_line().position);
    lemma_moved(d, d.active_tag(), Some(to));
    let base = d.at_word();
    let tok = t.token;
    let prev = t.previous;
    let full = transposed(text, tok, prev);
    assert(full =~= text.take(prev.start) + text.subrange(tok.start, tok.end) + text.subrange(
        prev.end,
        tok.start,
    ) + text.subrange(prev.start, prev.end) + text.skip(tok.end));
    assert(full.len() == text.len());
    lemma_line_set(base, full, tok.end);
}

proof fn lemma_word_begin(text: Seq<char>, pos: int)
    requires
        0 <= pos <= text.len(),
    ensures
        pos <= word_begin(text, pos) <= text.len(),
    decreases text.len() - pos,
{
    if pos < text.len() && !alphanumeric(text[pos]) {
        lemma_word_begin(text, pos + 1);
    }
}

/// A selection begins at the cursor, and holds the character there if it counts.
pub proof fn law_selection_begins(d: DataView)
    requires
        d.wf(),
        d.command_line.position < isize::MAX,
    ensures
        ({
            let pos = d.command_line.position;
            let next = d.selection_begun();
            &&& next.selection matches Some(s)
            &&& s.begin == pos
            &&& s.start == pos
            &&& d.selection_mode == CursorSelectionMode::Exclusive ==> s.stop == pos
            &&& d.selection_mode == CursorSelectionMode::Inclusive ==> s.stop == pos + 1
            &&& next.command_line == d.command_line
        }),
{
}

/// Exchanging the ends of a selection moves the cursor to where it was begun, and it is then begun
/// where the cursor was.
pub proof fn law_selection_is_swapped(d: DataView)
    requires
        d.wf(),
        d.active_tag() == EditableLineTag::Commandline,
        d.end_mode == CursorEndMode::Exclusive,
        d.selection matches Some(s) ==> s.begin <= d.command_line.text.len(),
        d.command_line.text.len() < isize::MAX,
    ensures
        ({
            let next = d.selection_swapped();
            &&& d.selection is None ==> next == d
            &&& d.selection matches Some(s) ==> {
                &&& next.command_line.position == s.begin
                &&& next.command_line.text == d.command_line.text
                &&& next.selection is Some
                &&& next.selection->0.begin == d.command_line.position
            }
        }),
{
    reveal(DataView::moved);
}

/// A line is opened above the one of the cursor, which goes there, and below it in the same way.
pub proof fn law_lines_are_opened(d: DataView)
    requires
        d.wf(),
        d.end_mode == CursorEndMode::Exclusive,
        d.selection is None,
    ensures
        ({
            let text = d.active_line().text;
            let above = d.line_opened_above();
            let below = d.line_opened_below();
            forall|from: int, to: int| #[trigger]
                bounds_line(text, d.active_line().position, from, to) ==> {
                    &&& above.active_line().text == text.take(from) + seq!['\n'] + text.skip(from)
                    &&& above.active_line().position == from
                    &&& below.active_line().text == text.take(to) + seq!['\n'] + text.skip(to)
                    &&& below.active_line().position == to + 1
                }
        }),
{
    let elt = d.active_tag();
    let text = d.active_line().text;
    let pos = d.active_line().position;
    law_line_bounds(text, pos);
    let from = line_start(text, pos);
    let to = line_end(text, pos);
    let first = d.at_line_beginning();
    lemma_moved(d, elt, Some(from));
    lemma_opened(first, from);
    let opened = first.inserted(elt, seq!['\n']);
    lemma_moved(opened, elt, Some(opened.line(elt).position - 1));
    lemma_moved(d, elt, Some(to));
    let last = if to == pos {
        d
    } else {
        d.moved(elt, Some(to))
    };
    lemma_opened(last, to);
}

proof fn lemma_opened(d: DataView, at: int)
    requires
        d.active_line().colors.len() == d.active_line().text.len(),
        0 <= at <= d.active_line().text.len(),
        d.active_line().position == at,
    ensures
        ({
            let elt = d.active_tag();
            let text = d.active_line().text;
            let next = d.inserted(elt, seq!['\n']);
            &&& next.active_tag() == elt
            &&& next.line(elt).text == text.take(at) + seq!['\n'] + text.skip(at)
            &&& next.line(elt).position == at + 1
            &&& next.end_mode == d.end_mode
        }),
{
    let elt = d.active_tag();
    let r = Range { start: at, end: at };
    lemma_edited(d, elt, r, seq!['\n'], !d.search.active());
    law_line_is_edited(d.line(elt), r, seq!['\n'], !d.search.active());
}

/// Undo takes the last edit of the active line back, and redo makes it again. Where there is none,
/// the line stays as it is.
pub proof fn law_undo_and_redo(d: DataView, screen: ScreenState)
    requires
        d.wf(),
        d.active_tag() == EditableLineTag::Commandline,
        d.command_line.group_depth == 0,
    ensures
        ({
            let line = d.command_line;
            let back = d.undone_or_redone(true, screen);
            let again = d.undone_or_redone(false, screen);
            let e = line.past.last();
            let f = line.future.last();
            let end = e.range.start + e.replacement.len();
            &&& line.past.len() == 0 ==> back.command_line.text == line.text
            &&& line.future.len() == 0 ==> again.command_line.text == line.text
            &&& line.past.len() > 0 && e.group is None ==> back.command_line.text == line.text.take(
                e.range.start,
            ) + e.old + line.text.skip(end)
            &&& line.future.len() > 0 && f.group is None ==> again.command_line.text
                == line.text.take(f.range.start) + f.replacement + line.text.skip(f.range.end)
        }),
{
    reveal(DataView::undone);
    reveal(DataView::redone);
    reveal(DataView::flashing);
    reveal(DataView::edited);
    let elt = EditableLineTag::Commandline;
    let undone = d.undone(elt).with_flag(Flag::SuppressAutosuggestion, false).pager_cleared();
    lemma_moved(undone, elt, None);
    let redone = d.redone(elt).with_flag(Flag::SuppressAutosuggestion, false).pager_cleared();
    lemma_moved(redone, elt, None);
}

} // verus!

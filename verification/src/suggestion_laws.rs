//! What an autosuggestion promises.

use crate::completion::applied;
use crate::suggestion::{
    any_uppercase, combined, first_valid, last_line_with, matched_line, prefixes, same_char,
    suggested, CandidateView, SourcesView,
};
use crate::text::{lemma_line_end, lemma_line_start, line_end, line_range, line_start, part};
use crate::unicode::{lowercased, uppercase, whitespace};
use std::ops::Range;
use vstd::prelude::*;

verus! {

/// `from` and `to` are the bounds of the line that holds `pos`.
pub open spec fn bounds_line(s: Seq<char>, pos: int, from: int, to: int) -> bool {
    &&& 0 <= from <= pos <= to <= s.len()
    &&& from == 0 || s[from - 1] == '\n'
    &&& to == s.len() || s[to] == '\n'
    &&& forall|i: int| from <= i < to ==> s[i] != '\n'
}

/// The range of the line at a position begins behind a newline or at the beginning, ends at a newline
/// or at the end, and holds none in between.
pub proof fn law_line_bounds(s: Seq<char>, pos: int)
    requires
        0 <= pos <= s.len(),
    ensures
        bounds_line(s, pos, line_range(s, pos).start, line_range(s, pos).end),
        line_range(s, pos).start == line_start(s, pos),
        line_range(s, pos).end == line_end(s, pos),
        forall|from: int, to: int|
            bounds_line(s, pos, from, to) ==> from == line_start(s, pos) && to == line_end(s, pos),
{
    lemma_line_start(s, pos);
    lemma_line_end(s, pos);
    let (a, b) = (line_start(s, pos), line_end(s, pos));
    assert forall|from: int, to: int| bounds_line(s, pos, from, to) implies from == a && to == b by {
        if from < a {
            assert(s[a - 1] == '\n');
        } else if from > a {
            assert(s[from - 1] == '\n');
        }
        if to < b {
            assert(s[to] == '\n');
        } else if to > b {
            assert(s[b] == '\n');
        }
    }
}

/// Two positions are on the same line if no newline lies between them.
proof fn lemma_same_line(s: Seq<char>, p: int, q: int)
    requires
        0 <= p <= s.len(),
        0 <= q <= s.len(),
    ensures
        line_range(s, p) == line_range(s, q) <==> forall|i: int|
            (p <= i < q || q <= i < p) ==> s[i] != '\n',
{
    law_line_bounds(s, p);
    law_line_bounds(s, q);
    let r = line_range(s, p);
    if forall|i: int| (p <= i < q || q <= i < p) ==> s[i] != '\n' {
        if r.start > q {
            assert(s[r.start - 1] == '\n');
        }
        if r.end < q {
            assert(s[r.end] == '\n');
        }
        assert(bounds_line(s, q, r.start, r.end));
    }
}

/// Texts agree without regard to case if their characters do one by one, when put in lowercase, and
/// with regard to it only if one is how the other begins.
pub proof fn law_prefixes(p: Seq<char>, v: Seq<char>)
    ensures
        prefixes(false, p, v) <==> p.is_prefix_of(v),
        prefixes(true, p, v) <==> p.len() <= v.len() && forall|i: int|
            0 <= i < p.len() ==> p[i] == v[i] || lowercased(#[trigger] p[i]) == lowercased(v[i]),
{
    if prefixes(false, p, v) {
        assert forall|i: int| 0 <= i < p.len() implies p[i] == v[i] by {
            assert(same_char(false, p[i], v[i]));
        }
        assert(p =~= v.subrange(0, p.len() as int));
    }
    if p.is_prefix_of(v) {
        assert forall|i: int| 0 <= i < p.len() implies same_char(false, #[trigger] p[i], v[i]) by {
            assert(v.subrange(0, p.len() as int)[i] == v[i]);
        }
    }
    if prefixes(true, p, v) {
        assert forall|i: int| 0 <= i < p.len() implies p[i] == v[i] || lowercased(#[trigger] p[i])
            == lowercased(v[i]) by {
            assert(same_char(true, p[i], v[i]));
        }
    }
}

/// A line of the item begins at `from`, and it begins with the text.
pub open spec fn begins_line(item: Seq<char>, typed: Seq<char>, from: int) -> bool {
    &&& 0 <= from <= from + typed.len() <= item.len()
    &&& from == 0 || item[from - 1] == '\n'
    &&& item.subrange(from, from + typed.len()) == typed
}

/// `line` is the whole line of the item that begins at `from`, it begins with the text, and none that
/// begins behind it and not behind `end` does.
pub open spec fn is_last_with(
    item: Seq<char>,
    typed: Seq<char>,
    line: Seq<char>,
    from: int,
    end: int,
) -> bool {
    let to = from + line.len();
    &&& 0 <= from <= to <= item.len()
    &&& item.subrange(from, to) == line
    &&& bounds_line(item, from, from, to)
    &&& typed.is_prefix_of(line)
    &&& forall|later: int| #[trigger]
        begins_line(item, typed, later) && later <= end ==> later <= from
}

/// The line of an item that is suggested is the last one that begins with what was typed.
pub proof fn law_matched_line(item: Seq<char>, typed: Seq<char>)
    requires
        !typed.contains('\n'),
    ensures
        match matched_line(item, typed) {
            Some(line) => exists|from: int| #[trigger]
                is_last_with(item, typed, line, from, item.len() as int),
            None => forall|from: int| !#[trigger] begins_line(item, typed, from),
        },
{
    lemma_last_line(item, typed, item.len() as int);
}

proof fn lemma_last_line(item: Seq<char>, typed: Seq<char>, end: int)
    requires
        0 <= end <= item.len(),
        end == item.len() || item[end] == '\n',
        !typed.contains('\n'),
    ensures
        ({
            let found = last_line_with(item, typed, end);
            &&& found is Some ==> exists|from: int| #[trigger]
                is_last_with(item, typed, found->0, from, end)
            &&& found is None ==> forall|from: int| #[trigger]
                begins_line(item, typed, from) ==> from > end
        }),
    decreases end,
{
    lemma_line_start(item, end);
    let start = line_start(item, end);
    let line = item.subrange(start, end);
    law_prefixes(typed, line);
    assert forall|from: int| #[trigger]
        begins_line(item, typed, from) && start <= from <= end implies from == start by {
        if from > start {
            assert(item[from - 1] == '\n');
        }
    }
    if begins_line(item, typed, start) {
        let to = start + typed.len();
        if to > end {
            assert(item.subrange(start, to)[end - start] == '\n');
            assert(typed.contains(typed[end - start]));
        }
        assert(typed =~= line.subrange(0, typed.len() as int));
    }
    if prefixes(false, typed, line) {
        assert(last_line_with(item, typed, end) == Some(line));
        assert(is_last_with(item, typed, last_line_with(item, typed, end)->0, start, end));
    } else {
        assert(!begins_line(item, typed, start));
        if start == 0 {
            assert(last_line_with(item, typed, end) is None);
            assert forall|from: int| #[trigger] begins_line(item, typed, from) implies from
                > end by {}
        }
        if start > 0 {
            lemma_last_line(item, typed, start - 1);
            assert(last_line_with(item, typed, end) == last_line_with(item, typed, start - 1));
            if let Some(found) = last_line_with(item, typed, start - 1) {
                let from = choose|from: int| #[trigger]
                    is_last_with(item, typed, found, from, start - 1);
                assert forall|later: int| #[trigger]
                    begins_line(item, typed, later) && later <= end implies later <= from by {
                    if later >= start {
                        assert(later == start);
                    }
                }
                assert(is_last_with(item, typed, last_line_with(item, typed, end)->0, from, end));
            } else {
                assert forall|from: int| #[trigger] begins_line(item, typed, from) implies from
                    > end by {
                    if from <= end && from >= start {
                        assert(from == start);
                    }
                }
            }
        }
    }
}

proof fn lemma_first_valid_index(items: Seq<CandidateView>, i: int) -> (k: int)
    requires
        0 <= i <= items.len(),
    ensures
        i <= k <= items.len(),
        forall|j: int| i <= j < k ==> !(#[trigger] items[j]).valid,
        k < items.len() ==> items[k].valid && first_valid(items, i) == Some(items[k]),
        k == items.len() ==> first_valid(items, i) is None,
    decreases items.len() - i,
{
    if i >= items.len() {
        i
    } else if items[i].valid {
        i
    } else {
        lemma_first_valid_index(items, i + 1)
    }
}

/// If the process at the cursor begins on the line of the cursor, what was typed on that line is
/// looked for in the history: the first valid item counts, and what is suggested is a single line of
/// it that begins with what was typed. It is for the whole line at the cursor, and its case matters.
pub proof fn law_history_is_suggested(line: Seq<char>, cursor: int, src: SourcesView, k: int)
    requires
        0 <= cursor <= line.len(),
        !src.cancelled,
        line_start(line, cursor) < line_end(line, cursor),
        src.process_start matches Some(p) ==> p <= line.len() && forall|i: int|
            (p <= i < cursor || cursor <= i < p) ==> line[i] != '\n',
        0 <= k < src.history.len(),
        src.history[k].valid,
        forall|j: int| 0 <= j < k ==> !(#[trigger] src.history[j]).valid,
        exists|from: int| #[trigger]
            begins_line(
                src.history[k].text,
                line.subrange(line_start(line, cursor), line_end(line, cursor)),
                from,
            ),
    ensures
        ({
            let s = suggested(line, cursor, src).suggestion;
            let item = src.history[k].text;
            let typed = line.subrange(line_start(line, cursor), line_end(line, cursor));
            &&& suggested(line, cursor, src).command_line == line
            &&& bounds_line(line, cursor, s.range.start, s.range.end)
            &&& !s.icase
            &&& exists|from: int| #[trigger]
                is_last_with(item, typed, s.text, from, item.len() as int)
            &&& s.is_whole <==> s.text == item
        }),
{
    law_line_bounds(line, cursor);
    let p = match src.process_start {
        Some(p) => p as int,
        None => cursor,
    };
    lemma_same_line(line, p, cursor);
    let j = lemma_first_valid_index(src.history, 0);
    assert(j == k) by {
        if j < k {
            assert(!src.history[j].valid);
        }
    }
    let typed = line.subrange(line_start(line, cursor), line_end(line, cursor));
    assert(!typed.contains('\n')) by {
        if typed.contains('\n') {
            let i = choose|i: int| 0 <= i < typed.len() && typed[i] == '\n';
            assert(line[line_start(line, cursor) + i] == '\n');
        }
    }
    let item = src.history[k].text;
    law_matched_line(item, typed);
    let s = suggested(line, cursor, src).suggestion;
    assert(part(line, line_range(line, cursor)) == typed);
    assert(matched_line(item, typed) == Some(s.text));
    if s.text.len() == item.len() {
        assert(s.text =~= item);
    }
}

/// Where the history offers nothing, because no item is valid or because the process began on another
/// line, the best completion of the line is suggested, if there is one: the line as it is with the
/// completion. Case does not matter for it.
pub proof fn law_completion_is_suggested(line: Seq<char>, cursor: int, src: SourcesView)
    requires
        0 <= cursor <= line.len(),
        !src.cancelled,
        !src.cancelled_after_history,
        line_start(line, cursor) < line_end(line, cursor),
        src.process_start matches Some(p) ==> p <= line.len(),
        (forall|k: int| 0 <= k < src.history.len() ==> !(#[trigger] src.history[k]).valid) || (
        src.process_start matches Some(p) && exists|i: int|
            (p <= i < cursor || cursor <= i < p) && line[i] == '\n'),
    ensures
        ({
            let r = suggested(line, cursor, src);
            let end = line_end(line, cursor);
            let last = line[end - 1];
            let quiet = if cursor == end {
                last == '\'' || last == '"'
            } else {
                whitespace(last)
            };
            &&& quiet ==> r.suggestion.text.len() == 0
            &&& !quiet ==> {
                &&& r.command_line == line
                &&& r.needs_load == src.needs_load
                &&& r.suggestion.icase
                &&& !r.suggestion.is_whole
                &&& bounds_line(line, cursor, r.suggestion.range.start, r.suggestion.range.end)
                &&& match src.best {
                    None => r.suggestion.text.len() == 0,
                    Some((comp, ctx)) => {
                        let a = applied(comp.completion, comp.flags, line, end, true, ctx);
                        0 <= a.cursor <= a.line.len() ==> exists|from: int, to: int|
                            bounds_line(a.line, a.cursor, from, to) && #[trigger] a.line.subrange(
                                from,
                                to,
                            ) == r.suggestion.text
                    },
                }
            }
        }),
{
    law_line_bounds(line, cursor);
    let p = match src.process_start {
        Some(p) => p as int,
        None => cursor,
    };
    lemma_same_line(line, p, cursor);
    let j = lemma_first_valid_index(src.history, 0);
    if let Some((comp, ctx)) = src.best {
        let a = applied(comp.completion, comp.flags, line, line_end(line, cursor), true, ctx);
        if 0 <= a.cursor <= a.line.len() {
            law_line_bounds(a.line, a.cursor);
            let q = line_range(a.line, a.cursor);
            assert(a.line.subrange(q.start, q.end) == part(a.line, q));
        }
    }
}

/// Nothing is suggested for an empty line, nor by work that was called off.
pub proof fn law_nothing_is_suggested(line: Seq<char>, cursor: int, src: SourcesView)
    requires
        0 <= cursor <= line.len(),
        src.cancelled || line_start(line, cursor) == line_end(line, cursor) || (
        src.cancelled_after_history && forall|k: int|
            0 <= k < src.history.len() ==> !(#[trigger] src.history[k]).valid),
    ensures
        suggested(line, cursor, src).suggestion.text.len() == 0,
{
    let j = lemma_first_valid_index(src.history, 0);
}

/// A suggestion is shown in place of the line that it continues, and everything around stays. What
/// was typed is shown as it was typed if it agrees with the suggestion in case, or if the last token
/// holds an uppercase letter; otherwise it takes on the case of the suggestion.
pub proof fn law_shown_suggestion(
    cmdline: Seq<char>,
    r: Range<int>,
    suggestion: Seq<char>,
    last_token: Range<int>,
)
    requires
        0 <= r.start <= r.end <= cmdline.len(),
        0 <= last_token.start <= last_token.end <= cmdline.len(),
        r.end - r.start <= suggestion.len(),
    ensures
        ({
            let shown = combined(cmdline, r, suggestion, last_token);
            let typed = cmdline.subrange(r.start, r.end);
            let n = r.end - r.start;
            let to = r.start + suggestion.len();
            let upper = exists|i: int|
                last_token.start <= i < last_token.end && uppercase(#[trigger] cmdline[i]);
            &&& shown.take(r.start) == cmdline.take(r.start)
            &&& shown.skip(to) == cmdline.skip(r.end)
            &&& shown.subrange(r.end, to) == suggestion.skip(n)
            &&& typed.is_prefix_of(suggestion) || upper ==> shown.subrange(r.start, r.end) == typed
            &&& !typed.is_prefix_of(suggestion) && !upper ==> shown.subrange(r.start, r.end)
                == suggestion.take(n)
        }),
{
    let shown = combined(cmdline, r, suggestion, last_token);
    let typed = cmdline.subrange(r.start, r.end);
    let n = r.end - r.start;
    let to = r.start + suggestion.len();
    let token = cmdline.subrange(last_token.start, last_token.end);
    law_prefixes(typed, suggestion);
    let upper = exists|i: int|
        last_token.start <= i < last_token.end && uppercase(#[trigger] cmdline[i]);
    assert(upper <==> any_uppercase(token)) by {
        if upper {
            let i = choose|i: int|
                last_token.start <= i < last_token.end && uppercase(#[trigger] cmdline[i]);
            assert(uppercase(token[i - last_token.start]));
        }
        if any_uppercase(token) {
            let i = choose|i: int| 0 <= i < token.len() && uppercase(#[trigger] token[i]);
            assert(uppercase(cmdline[last_token.start + i]));
        }
    }
    assert(shown.take(r.start) =~= cmdline.take(r.start));
    assert(shown.skip(to) =~= cmdline.skip(r.end));
    assert(shown.subrange(r.end, to) =~= suggestion.skip(n));
    if typed.is_prefix_of(suggestion) || upper {
        assert(shown.subrange(r.start, r.end) =~= typed);
    } else {
        assert(shown.subrange(r.start, r.end) =~= suggestion.take(n));
    }
}

} // verus!

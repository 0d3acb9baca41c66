//! What expanding abbreviations promises.

use crate::abbreviation::{
    all_shifted, extracted, first_expansion, leaf_tokens, queried, shifted, substituted_tokens,
    substitutions_inside, token_at, AbbreviationMatch, LeafNode, PositionedToken, ReplacementView,
    Substitution,
};
use crate::data::{CursorEndMode, DataView, EditableLineTag};
use crate::edit::{lemma_edited, lemma_moved};
use crate::edit_laws::law_line_is_edited;
use crate::text::{joined, WString};
use std::ops::Range;
use vstd::prelude::*;

verus! {

/// The cursor is in the token, at its beginning or at its end.
pub open spec fn touches(t: PositionedToken, cursor: int) -> bool {
    t.start <= cursor <= t.end
}

/// Going back through the tokens ends at the command in front of the one that was found. The found
/// one is `i`, which is as many as there are if it was found before; its command is `c`, if any.
proof fn lemma_token_at(
    tokens: Seq<PositionedToken>,
    cursor: int,
    so_far: Option<PositionedToken>,
) -> (at: (int, int))
    ensures
        ({
            let (found, cmd) = token_at(tokens, cursor, so_far);
            let (i, c) = at;
            let n = tokens.len();
            let none = so_far is None && forall|k: int|
                0 <= k < n ==> !touches(#[trigger] tokens[k], cursor);
            &&& none ==> found is None
            &&& !none ==> {
                &&& 0 <= i <= n
                &&& i == n ==> so_far is Some && found == so_far
                &&& i < n ==> touches(tokens[i], cursor) && found == Some(tokens[i])
                &&& -1 <= c <= i
                &&& c < n
                &&& c >= 0 ==> tokens[c].is_cmd && cmd == Some(tokens[c])
                &&& c < 0 ==> cmd is None
                &&& forall|k: int| c < k <= i && k < n ==> !(#[trigger] tokens[k]).is_cmd
                &&& forall|k: int|
                    0 <= k < i && touches(#[trigger] tokens[k], cursor) && k < n ==> k < c
                &&& so_far is Some ==> forall|k: int| i < k < n ==> !(#[trigger] tokens[k]).is_cmd
                &&& forall|k: int, m: int|
                    i < m <= k < n && touches(#[trigger] tokens[k], cursor)
                        ==> !(#[trigger] tokens[m]).is_cmd
            }
        }),
    decreases tokens.len(),
{
    if tokens.len() == 0 {
        (0, -1)
    } else {
        let t = tokens.last();
        let last = tokens.len() - 1;
        let found = if touches(t, cursor) {
            Some(t)
        } else {
            so_far
        };
        let before = tokens.drop_last();
        assert(tokens[last] == t);
        assert(forall|k: int| 0 <= k < last ==> before[k] == tokens[k]);
        if found is Some && t.is_cmd {
            if touches(t, cursor) {
                (last, last)
            } else {
                (last + 1, last)
            }
        } else {
            let (i, c) = lemma_token_at(before, cursor, found);
            if found is None && forall|k: int|
                0 <= k < before.len() ==> !touches(#[trigger] before[k], cursor) {
                assert forall|k: int| 0 <= k < tokens.len() implies !touches(
                    #[trigger] tokens[k],
                    cursor,
                ) by {
                    if k < last {
                        assert(!touches(before[k], cursor));
                    }
                }
                (i, c)
            } else {
                if found is None {
                    let k = choose|k: int|
                        0 <= k < before.len() && touches(#[trigger] before[k], cursor);
                    assert(touches(tokens[k], cursor));
                }
                if i == last && !touches(t, cursor) {
                    (last + 1, c)
                } else {
                    (i, c)
                }
            }
        }
    }
}

/// If the cursor is at some token of the text, that token is looked up, whatever commands stand
/// around it. Of several, it is the first one that belongs to the same command as the last of them.
/// One that is no command is looked up as an argument of the nearest command before it.
pub proof fn law_token_at_cursor_is_looked_up(
    text: Seq<char>,
    tokens: Seq<PositionedToken>,
    cursor: int,
) -> (at: (int, int))
    ensures
        queried(text, tokens, cursor) is Some <==> exists|k: int|
            0 <= k < tokens.len() && touches(#[trigger] tokens[k], cursor),
        queried(text, tokens, cursor) matches Some(q) ==> {
            let (i, c) = at;
            &&& 0 <= i < tokens.len()
            &&& touches(tokens[i], cursor)
            &&& q.range.start == tokens[i].start
            &&& q.range.end == tokens[i].end
            &&& q.token == text.subrange(tokens[i].start as int, tokens[i].end as int)
            &&& q.is_cmd == tokens[i].is_cmd
            &&& q.is_cmd ==> q.command == Seq::<char>::empty()
            &&& -1 <= c <= i
            &&& c >= 0 ==> tokens[c].is_cmd
            &&& forall|k: int| c < k <= i ==> !(#[trigger] tokens[k]).is_cmd
            &&& !q.is_cmd && c >= 0 ==> q.command == text.subrange(
                tokens[c].start as int,
                tokens[c].end as int,
            )
            &&& !q.is_cmd && c < 0 ==> q.command == Seq::<char>::empty()
            &&& forall|k: int| 0 <= k < i && touches(#[trigger] tokens[k], cursor) ==> k < c
            &&& forall|k: int, m: int|
                i < m <= k < tokens.len() && touches(#[trigger] tokens[k], cursor) ==> !(
                #[trigger] tokens[m]).is_cmd
        },
{
    let at = lemma_token_at(tokens, cursor, None);
    let none = forall|k: int| 0 <= k < tokens.len() ==> !touches(#[trigger] tokens[k], cursor);
    if none {
        assert(!exists|k: int| 0 <= k < tokens.len() && touches(#[trigger] tokens[k], cursor));
    } else {
        assert(exists|k: int| 0 <= k < tokens.len() && touches(#[trigger] tokens[k], cursor));
    }
    at
}

/// A leaf of the syntax tree that has a source, in which no command is substituted.
pub open spec fn is_plain(leaf: LeafNode) -> bool {
    leaf.start < leaf.end && (leaf.substitutions@.len() == 0 || leaf.substitutions@[0].paren
        >= leaf.end)
}

/// The command substitution stands in the source of the leaf.
pub open spec fn holds(leaf: LeafNode, k: int) -> bool {
    &&& leaf.start < leaf.end
    &&& 0 <= k < leaf.substitutions@.len()
    &&& forall|j: int| 0 <= j <= k ==> (#[trigger] leaf.substitutions@[j]).paren < leaf.end
}

proof fn lemma_substitutions_inside(subs: Seq<Substitution>, end: int)
    ensures
        0 <= substitutions_inside(subs, end) <= subs.len(),
        forall|k: int|
            0 <= k < substitutions_inside(subs, end) ==> (#[trigger] subs[k]).paren < end,
        substitutions_inside(subs, end) < subs.len() ==> subs[substitutions_inside(
            subs,
            end,
        )].paren >= end,
    decreases subs.len(),
{
    if subs.len() == 0 || subs[0].paren >= end {
    } else {
        lemma_substitutions_inside(subs.skip(1), end);
        let n = substitutions_inside(subs.skip(1), end);
        assert forall|k: int| 0 <= k < n + 1 implies (#[trigger] subs[k]).paren < end by {
            if k > 0 {
                assert(subs.skip(1)[k - 1] == subs[k]);
            }
        }
        if n + 1 < subs.len() {
            assert(subs.skip(1)[n] == subs[n + 1]);
        }
    }
}

proof fn lemma_substituted(subs: Seq<Substitution>, n: int, k: int, i: int)
    requires
        0 <= k < n <= subs.len(),
        0 <= i < extracted(subs[k].leaves@).len(),
    ensures
        substituted_tokens(subs, n).contains(
            shifted(extracted(subs[k].leaves@)[i], subs[k].start as int),
        ),
    decreases n,
{
    let own = all_shifted(extracted(subs[n - 1].leaves@), subs[n - 1].start as int);
    let before = substituted_tokens(subs, n - 1);
    let t = shifted(extracted(subs[k].leaves@)[i], subs[k].start as int);
    if k == n - 1 {
        assert((before + own)[before.len() + i] == t);
    } else {
        lemma_substituted(subs, n - 1, k, i);
        let j = choose|j: int| 0 <= j < before.len() && before[j] == t;
        assert((before + own)[j] == t);
    }
}

/// Every plain word of a text is a token of it, and so is every token of a command that is
/// substituted in it, counted from the beginning of the text.
pub proof fn law_words_are_tokens(leaves: Seq<LeafNode>, i: int, k: int, j: int)
    requires
        0 <= i < leaves.len(),
    ensures
        is_plain(leaves[i]) ==> extracted(leaves).contains(
            PositionedToken {
                start: leaves[i].start,
                end: leaves[i].end,
                is_cmd: leaves[i].is_cmd,
            },
        ),
        ({
            let sub = leaves[i].substitutions@[k];
            let t = extracted(sub.leaves@)[j];
            holds(leaves[i], k) && 0 <= j < extracted(sub.leaves@).len() && sub.start + t.end
                <= usize::MAX && t.start <= t.end ==> extracted(leaves).contains(
                PositionedToken {
                    start: (sub.start + t.start) as usize,
                    end: (sub.start + t.end) as usize,
                    is_cmd: t.is_cmd,
                },
            )
        }),
    decreases leaves.len(),
{
    let before = extracted(leaves.drop_last());
    let own = leaf_tokens(leaves.last());
    let subs = leaves[i].substitutions@;
    let sub = subs[k];
    let word = PositionedToken {
        start: leaves[i].start,
        end: leaves[i].end,
        is_cmd: leaves[i].is_cmd,
    };
    let inner = shifted(extracted(sub.leaves@)[j], sub.start as int);
    if i == leaves.len() - 1 {
        lemma_substitutions_inside(subs, leaves[i].end as int);
        let n = substitutions_inside(subs, leaves[i].end as int);
        if is_plain(leaves[i]) {
            assert(n == 0);
            assert((before + own)[before.len() as int] == word);
        }
        if holds(leaves[i], k) && 0 <= j < extracted(sub.leaves@).len() {
            if n <= k {
                assert(subs[n].paren < leaves[i].end);
            }
            lemma_substituted(subs, n, k, j);
            let at = choose|at: int| 0 <= at < own.len() && own[at] == inner;
            assert((before + own)[before.len() + at] == inner);
        }
    } else {
        law_words_are_tokens(leaves.drop_last(), i, k, j);
        if before.contains(word) {
            let at = choose|at: int| 0 <= at < before.len() && before[at] == word;
            assert((before + own)[at] == word);
        }
        if before.contains(inner) {
            let at = choose|at: int| 0 <= at < before.len() && before[at] == inner;
            assert((before + own)[at] == inner);
        }
    }
}

/// A token of a text is one of its plain words, or stands in a command that is substituted in it.
pub proof fn law_tokens_are_words(leaves: Seq<LeafNode>, at: int) -> (from: (int, int))
    requires
        0 <= at < extracted(leaves).len(),
    ensures
        ({
            let t = extracted(leaves)[at];
            let (i, k) = from;
            &&& 0 <= i < leaves.len()
            &&& k < 0 ==> is_plain(leaves[i]) && t.start == leaves[i].start && t.end
                == leaves[i].end && t.is_cmd == leaves[i].is_cmd
            &&& k >= 0 ==> holds(leaves[i], k) && !is_plain(leaves[i])
        }),
    decreases leaves.len(),
{
    let before = extracted(leaves.drop_last());
    let own = leaf_tokens(leaves.last());
    if at < before.len() {
        let from = law_tokens_are_words(leaves.drop_last(), at);
        assert(leaves.drop_last()[from.0] == leaves[from.0]);
        from
    } else {
        let last = leaves.last();
        lemma_substitutions_inside(last.substitutions@, last.end as int);
        let n = substitutions_inside(last.substitutions@, last.end as int);
        assert(own.len() > 0);
        if n == 0 {
            (leaves.len() - 1, -1)
        } else {
            (leaves.len() - 1, n - 1)
        }
    }
}

/// What the lines are that a function printed: with a newline between each two of them, and none
/// behind the last.
pub proof fn law_lines_are_joined(a: Seq<Seq<char>>, b: Seq<Seq<char>>, line: Seq<char>, sep: char)
    requires
        a.len() > 0,
        b.len() > 0,
    ensures
        joined(Seq::empty(), sep) == Seq::<char>::empty(),
        joined(seq![line], sep) == line,
        joined(a + b, sep) == joined(a, sep) + seq![sep] + joined(b, sep),
    decreases b.len(),
{
    if b.len() == 1 {
        assert((a + b).drop_last() =~= a);
        assert(joined(a + b, sep) =~= joined(a, sep) + seq![sep] + joined(b, sep));
    } else {
        assert((a + b).drop_last() =~= a + b.drop_last());
        law_lines_are_joined(a, b.drop_last(), line, sep);
        assert(joined(a + b, sep) =~= joined(a, sep) + seq![sep] + joined(b, sep));
    }
}

/// An abbreviation that is not computed stands for its text.
pub open spec fn gives_text(m: AbbreviationMatch) -> bool {
    !m.replacer.is_function || m.run is Some
}

/// Of the abbreviations that match, the first one that gives a text is expanded, to that text or to
/// what its function printed. If none does, nothing is expanded.
pub proof fn law_first_abbreviation_expands(
    range: Range<int>,
    matches: Seq<AbbreviationMatch>,
    i: int,
) -> (first: int)
    requires
        0 <= i <= matches.len(),
    ensures
        first_expansion(range, matches, i) is Some <==> exists|k: int|
            i <= k < matches.len() && gives_text(#[trigger] matches[k]),
        first_expansion(range, matches, i) matches Some(e) ==> {
            let m = matches[first];
            &&& i <= first < matches.len()
            &&& gives_text(m)
            &&& forall|k: int| i <= k < first ==> !gives_text(#[trigger] matches[k])
            &&& e.range == range
            &&& !m.replacer.is_function ==> e.text == m.replacer.replacement@
            &&& m.replacer.is_function ==> e.text == joined(
                m.run->0@.map_values(|l: WString| l@),
                '\n',
            )
            &&& e.marker is Some <==> m.replacer.set_cursor_marker is Some
            &&& e.marker is Some ==> e.marker->0 == m.replacer.set_cursor_marker->0@
        },
    decreases matches.len() - i,
{
    if i >= matches.len() {
        i
    } else if gives_text(matches[i]) {
        i
    } else {
        let first = law_first_abbreviation_expands(range, matches, i + 1);
        if first_expansion(range, matches, i + 1) is Some {
            assert(gives_text(matches[first]));
        }
        first
    }
}

/// An expanded abbreviation takes the place of its token, and nothing else changes. The cursor goes
/// where the expansion wants it.
pub proof fn law_abbreviation_is_replaced(d: DataView, r: ReplacementView)
    requires
        d.wf(),
        0 <= r.range.start <= r.range.end <= d.command_line.text.len(),
        r.cursor matches Some(c) ==> 0 <= c <= d.command_line.text.len() - (r.range.end
            - r.range.start) + r.text.len(),
        d.end_mode == CursorEndMode::Exclusive,
    ensures
        ({
            let text = d.command_line.text;
            let next = d.abbreviation_applied(r);
            &&& next.command_line.text == text.take(r.range.start) + r.text + text.skip(
                r.range.end,
            )
            &&& r.cursor matches Some(c) ==> next.command_line.position == c
            &&& r.cursor is None && r.range.start <= d.command_line.position <= r.range.end
                ==> next.command_line.position == r.range.start + r.text.len()
            &&& next.kill_item == d.kill_item
            &&& next.rls == d.rls
        }),
{
    let elt = EditableLineTag::Commandline;
    lemma_edited(d, elt, r.range, r.text, false);
    law_line_is_edited(d.command_line, r.range, r.text, false);
    lemma_moved(d.replaced(elt, r.range, r.text), elt, r.cursor);
}

/// Abbreviations are only looked for where they may be expanded, in the command line, and as many
/// characters before the cursor as asked, or at the beginning.
pub proof fn law_where_abbreviations_are_sought(d: DataView, back: int)
    ensures
        ({
            let at = d.abbreviation_cursor(back);
            &&& at is Some <==> d.conf.expand_abbrev_ok && d.active_tag()
                == EditableLineTag::Commandline
            &&& at is Some && back <= d.command_line.position ==> at->0 == d.command_line.position
                - back
            &&& at is Some && back > d.command_line.position ==> at->0 == 0
        }),
{
}

} // verus!

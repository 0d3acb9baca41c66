//! Which brackets belong together.

use crate::motion::{
    bracket_partner, lemma_closed_bracket, lemma_open_brackets, lemma_partner_found,
    lemma_partner_scan, open_brackets,
};
use vstd::prelude::*;

verus! {

/// How many more opening than closing brackets there are in a part of the text.
pub open spec fn excess(s: Seq<char>, l: char, r: char, from: int, to: int) -> int
    decreases to - from,
{
    if from >= to {
        0
    } else {
        excess(s, l, r, from, to - 1) + if s[to - 1] == l {
            1int
        } else if s[to - 1] == r {
            -1
        } else {
            0
        }
    }
}

/// An opening and a closing bracket that belong together: as many brackets are opened as closed
/// between them, and none is closed there that was opened before.
pub open spec fn belong_together(s: Seq<char>, l: char, r: char, a: int, b: int) -> bool {
    &&& 0 <= a < b < s.len()
    &&& s[a] == l
    &&& s[b] == r
    &&& excess(s, l, r, a + 1, b) == 0
    &&& forall|i: int| a < i <= b ==> #[trigger] excess(s, l, r, a + 1, i) >= 0
}

proof fn lemma_depth(s: Seq<char>, l: char, r: char, a: int, i: int)
    requires
        l != r,
        0 <= a < i <= s.len(),
        s[a] == l,
        open_brackets(s, l, r, i).contains(a),
    ensures
        forall|j: int| a < j <= i ==> #[trigger] excess(s, l, r, a + 1, j) >= 0,
        open_brackets(s, l, r, i).len() == open_brackets(s, l, r, a).len() + 1 + excess(
            s,
            l,
            r,
            a + 1,
            i,
        ),
        open_brackets(s, l, r, i)[open_brackets(s, l, r, a).len() as int] == a,
    decreases i - a,
{
    let k = open_brackets(s, l, r, a).len() as int;
    let now = open_brackets(s, l, r, i);
    if i > a + 1 {
        let before = open_brackets(s, l, r, i - 1);
        if !before.contains(a) {
            lemma_closed_bracket(s, l, r, a, i - 1, i);
        }
        lemma_depth(s, l, r, a, i - 1);
        lemma_open_brackets(s, l, r, i - 1);
        if s[i - 1] == r && before.len() == k + 1 {
            let at = choose|at: int| 0 <= at < now.len() && now[at] == a;
            assert(before[at] == a && at < k);
        }
    }
}

proof fn lemma_height(s: Seq<char>, l: char, r: char, a: int, i: int)
    requires
        l != r,
        0 <= a < i <= s.len(),
        s[a] == l,
        forall|j: int| a < j <= i ==> #[trigger] excess(s, l, r, a + 1, j) >= 0,
    ensures
        open_brackets(s, l, r, i).len() == open_brackets(s, l, r, a).len() + 1 + excess(
            s,
            l,
            r,
            a + 1,
            i,
        ),
        open_brackets(s, l, r, i)[open_brackets(s, l, r, a).len() as int] == a,
    decreases i - a,
{
    if i > a + 1 {
        lemma_height(s, l, r, a, i - 1);
        assert(excess(s, l, r, a + 1, i - 1) >= 0);
        assert(excess(s, l, r, a + 1, i) >= 0);
    }
}

/// Jumping from a bracket leads to the one that belongs to it, if there is one, and nowhere else.
pub proof fn law_matching_brackets_belong_together(
    s: Seq<char>,
    l: char,
    r: char,
    from: int,
    to: int,
)
    requires
        l != r,
    ensures
        bracket_partner(s, l, r, from, 0) == Some(to) <==> belong_together(s, l, r, from, to)
            || belong_together(s, l, r, to, from),
{
    if bracket_partner(s, l, r, from, 0) == Some(to) {
        lemma_partner_found(s, l, r, from, 0);
        let (a, b) = if to > from {
            (from, to)
        } else {
            (to, from)
        };
        lemma_open_brackets(s, l, r, b);
        let stack = open_brackets(s, l, r, b);
        assert(stack[stack.len() - 1] == a);
        assert(stack.contains(a));
        lemma_depth(s, l, r, a, b);
        let k = open_brackets(s, l, r, a).len() as int;
        if stack.len() - 1 > k {
            assert(stack[k] < stack[stack.len() - 1]);
        }
        assert(belong_together(s, l, r, a, b));
    }
    if belong_together(s, l, r, from, to) {
        lemma_found_from_opening(s, l, r, from, to);
    }
    if belong_together(s, l, r, to, from) {
        lemma_found_from_closing(s, l, r, to, from);
    }
}

proof fn lemma_found_from_opening(s: Seq<char>, l: char, r: char, a: int, b: int)
    requires
        l != r,
        belong_together(s, l, r, a, b),
    ensures
        bracket_partner(s, l, r, a, 0) == Some(b),
{
    lemma_height(s, l, r, a, b);
    assert forall|i: int|
        #![trigger open_brackets(s, l, r, i)]
        0 <= i < b implies !(s[i] != l && s[i] == r && open_brackets(s, l, r, i).len() > 0 && (
    open_brackets(s, l, r, i).last() == a || i == a)) by {
        lemma_open_brackets(s, l, r, i);
        let stack = open_brackets(s, l, r, i);
        if s[i] == r && stack.len() > 0 && stack.last() == a {
            assert(stack[stack.len() - 1] == a);
            assert forall|j: int| a < j <= i implies #[trigger] excess(s, l, r, a + 1, j) >= 0 by {}
            lemma_height(s, l, r, a, i);
            let k = open_brackets(s, l, r, a).len() as int;
            if k < stack.len() - 1 {
                assert(stack[k] < stack[stack.len() - 1]);
            }
            assert(excess(s, l, r, a + 1, i) == 0);
            assert(excess(s, l, r, a + 1, i + 1) == -1);
        }
    }
    lemma_partner_scan(s, l, r, a, 0, b);
}

proof fn lemma_found_from_closing(s: Seq<char>, l: char, r: char, a: int, b: int)
    requires
        l != r,
        belong_together(s, l, r, a, b),
    ensures
        bracket_partner(s, l, r, b, 0) == Some(a),
{
    lemma_height(s, l, r, a, b);
    assert forall|i: int|
        #![trigger open_brackets(s, l, r, i)]
        0 <= i < b implies !(s[i] != l && s[i] == r && open_brackets(s, l, r, i).len() > 0 && (
    open_brackets(s, l, r, i).last() == b || i == b)) by {
        lemma_open_brackets(s, l, r, i);
        let stack = open_brackets(s, l, r, i);
        if stack.len() > 0 {
            assert(stack[stack.len() - 1] < i);
        }
    }
    lemma_partner_scan(s, l, r, b, 0, b);
    lemma_open_brackets(s, l, r, b);
}

} // verus!

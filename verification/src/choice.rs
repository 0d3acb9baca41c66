//! What becomes of a list of completions: nothing, the only one is inserted, or their common prefix
//! is inserted and the rest is listed.

use crate::completion::{
    best_rank, can_replace, completions, get_best_rank, lemma_best_rank, reader_can_replace,
    CompleteFlags, Completion, CompletionView,
};
use crate::text::{contains_char, copy_text, push_text, subtext, WString};
use vstd::prelude::*;

verus! {

/// Maximum length of prefix string when printing completion list. Longer prefixes will be
/// ellipsized.
pub const PREFIX_MAX_LEN: usize = 9;

/// No completion of the best rank can be appended to the token, hence the token is replaced.
pub open spec fn will_replace_token(comp: Seq<CompletionView>) -> bool {
    forall|i: int|
        0 <= i < comp.len() && (#[trigger] comp[i]).rank <= best_rank(comp)
            ==> comp[i].flags.replaces_token
}

/// A completion survives if it has the best rank, wants the token replaced as the others do, and,
/// where it is replaced, the token can be.
pub open spec fn survives(c: CompletionView, best: u32, replace: bool, tok: Seq<char>) -> bool {
    &&& c.rank <= best
    &&& c.flags.replaces_token == replace
    &&& c.flags.replaces_token ==> can_replace(tok, c.flags)
}

pub open spec fn survivors(comp: Seq<CompletionView>, tok: Seq<char>) -> Seq<CompletionView> {
    surviving(comp, best_rank(comp), will_replace_token(comp), tok)
}

/// The completions that survive, in their order.
pub open spec fn surviving(
    comp: Seq<CompletionView>,
    best: u32,
    replace: bool,
    tok: Seq<char>,
) -> Seq<CompletionView>
    decreases comp.len(),
{
    if comp.len() == 0 {
        Seq::empty()
    } else {
        let before = surviving(comp.drop_last(), best, replace, tok);
        if survives(comp.last(), best, replace, tok) {
            before.push(comp.last())
        } else {
            before
        }
    }
}

pub open spec fn all_exact_or_prefix(comp: Seq<CompletionView>) -> bool {
    forall|i: int| 0 <= i < comp.len() ==> (#[trigger] comp[i]).exact_or_prefix
}

/// The first index from `i` on at which the texts differ or one of them ends.
pub open spec fn first_difference(a: Seq<char>, b: Seq<char>, i: int) -> int
    decreases a.len() - i,
{
    if i >= a.len() || i >= b.len() || a[i] != b[i] {
        i
    } else {
        first_difference(a, b, i + 1)
    }
}

/// The longest text with which all completions begin.
pub open spec fn common_prefix(comp: Seq<CompletionView>) -> Seq<char>
    decreases comp.len(),
{
    if comp.len() == 0 {
        Seq::empty()
    } else if comp.len() == 1 {
        comp[0].completion
    } else {
        let p = common_prefix(comp.drop_last());
        p.take(first_difference(p, comp.last().completion, 0))
    }
}

/// A completion without the prefix that was inserted already.
pub open spec fn shortened(c: CompletionView, n: int) -> CompletionView {
    CompletionView {
        completion: c.completion.skip(n),
        flags: CompleteFlags { replaces_token: false, ..c.flags },
        ..c
    }
}

/// The part behind the last slash.
pub open spec fn last_component(s: Seq<char>) -> Seq<char>
    decreases s.len(),
{
    if s.len() == 0 || s.last() == '/' {
        Seq::empty()
    } else {
        last_component(s.drop_last()).push(s.last())
    }
}

/// What stands before the completions in the list: the beginning that they share, shortened to its
/// last directory or to its last characters where it is long.
pub open spec fn list_prefix(
    tok: Seq<char>,
    common: Seq<char>,
    replace: bool,
    exact: bool,
    use_prefix: bool,
    ellipsis: char,
) -> Seq<char> {
    let full = tok + common;
    if replace || !exact {
        if use_prefix {
            common
        } else {
            Seq::empty()
        }
    } else if full.len() <= PREFIX_MAX_LEN {
        full
    } else {
        let truncated = full.skip(full.len() - PREFIX_MAX_LEN);
        if truncated.contains('/') {
            seq![ellipsis, '/'] + last_component(truncated)
        } else {
            seq![ellipsis] + truncated
        }
    }
}

/// What is to be done with a list of completions.
pub enum Choice {
    /// There are no completions.
    Nothing,
    /// Exactly one completion is left.
    Insert(Completion),
    /// The completions are listed behind `prefix`, after `insert` was inserted, if anything.
    List { insert: Option<(WString, CompleteFlags)>, prefix: WString, list: Vec<Completion> },
}

pub enum ChoiceView {
    Nothing,
    Insert(CompletionView),
    List {
        insert: Option<(Seq<char>, CompleteFlags)>,
        prefix: Seq<char>,
        list: Seq<CompletionView>,
    },
}

impl View for Choice {
    type V = ChoiceView;

    open spec fn view(&self) -> ChoiceView {
        match self {
            Choice::Nothing => ChoiceView::Nothing,
            Choice::Insert(c) => ChoiceView::Insert(c@),
            Choice::List { insert, prefix, list } => ChoiceView::List {
                insert: match insert {
                    Some((text, flags)) => Some((text@, *flags)),
                    None => None,
                },
                prefix: prefix@,
                list: completions(list@),
            },
        }
    }
}

/// The common prefix makes the command line longer: because it is appended, or because it is longer
/// than the token that it replaces.
pub open spec fn prefix_is_used(comp: Seq<CompletionView>, tok: Seq<char>) -> bool {
    let left = survivors(comp, tok);
    all_exact_or_prefix(left) && common_prefix(left).len() > if will_replace_token(comp) {
        tok.len()
    } else {
        0
    }
}

pub open spec fn choice(comp: Seq<CompletionView>, tok: Seq<char>, ellipsis: char) -> ChoiceView {
    let left = survivors(comp, tok);
    if comp.len() == 0 {
        ChoiceView::Nothing
    } else if comp.len() == 1 {
        ChoiceView::Insert(comp[0])
    } else if left.len() == 1 {
        ChoiceView::Insert(left[0])
    } else {
        let exact = all_exact_or_prefix(left);
        let common = if exact {
            common_prefix(left)
        } else {
            Seq::empty()
        };
        let used = prefix_is_used(comp, tok);
        ChoiceView::List {
            insert: if used {
                // More than one completion contributed: do not insert a space behind the prefix.
                Some((common, CompleteFlags { no_space: true, ..left[0].flags }))
            } else {
                None
            },
            prefix: list_prefix(tok, common, will_replace_token(comp), exact, used, ellipsis),
            list: if used {
                left.map_values(|c: CompletionView| shortened(c, common.len() as int))
            } else {
                left
            },
        }
    }
}

proof fn lemma_first_difference(a: Seq<char>, b: Seq<char>, i: int)
    requires
        0 <= i <= a.len(),
        i <= b.len(),
    ensures
        i <= first_difference(a, b, i) <= a.len(),
        first_difference(a, b, i) <= b.len(),
        forall|j: int| i <= j < first_difference(a, b, i) ==> a[j] == b[j],
        first_difference(a, b, i) < a.len() && first_difference(a, b, i) < b.len() ==> a[
            first_difference(a, b, i)
        ] != b[first_difference(a, b, i)],
    decreases a.len() - i,
{
    if i < a.len() && i < b.len() && a[i] == b[i] {
        lemma_first_difference(a, b, i + 1);
    }
}

/// The common prefix is one of every completion, and no longer text is.
pub proof fn lemma_common_prefix(comp: Seq<CompletionView>, longer: Seq<char>)
    ensures
        forall|i: int|
            0 <= i < comp.len() ==> common_prefix(comp).is_prefix_of(
                (#[trigger] comp[i]).completion,
            ),
        comp.len() > 0 && (forall|i: int|
            0 <= i < comp.len() ==> longer.is_prefix_of((#[trigger] comp[i]).completion))
            ==> longer.is_prefix_of(common_prefix(comp)),
    decreases comp.len(),
{
    if comp.len() == 0 {
    } else if comp.len() == 1 {
        assert(comp[0].completion =~= comp[0].completion.subrange(
            0,
            comp[0].completion.len() as int,
        ));
    } else {
        let rest = comp.drop_last();
        lemma_common_prefix(rest, longer);
        let p = common_prefix(rest);
        let last = comp.last().completion;
        lemma_first_difference(p, last, 0);
        let n = first_difference(p, last, 0);
        let q = p.take(n);
        assert(q == common_prefix(comp));
        assert forall|i: int| 0 <= i < comp.len() implies q.is_prefix_of(
            (#[trigger] comp[i]).completion,
        ) by {
            if i < rest.len() {
                assert(rest[i] == comp[i]);
                assert(p.is_prefix_of(rest[i].completion));
                assert(q =~= comp[i].completion.subrange(0, n));
            } else {
                assert(q =~= last.subrange(0, n));
            }
        }
        if forall|i: int|
            0 <= i < comp.len() ==> longer.is_prefix_of((#[trigger] comp[i]).completion) {
            assert forall|i: int| 0 <= i < rest.len() implies longer.is_prefix_of(
                (#[trigger] rest[i]).completion,
            ) by {
                assert(rest[i] == comp[i]);
            }
            assert(longer.is_prefix_of(p));
            assert(longer.is_prefix_of(comp[comp.len() - 1].completion));
            if longer.len() > n {
                assert(longer[n] == p[n]);
                assert(longer[n] == last[n]);
                assert(false);
            }
            assert(longer =~= q.subrange(0, longer.len() as int));
        }
    }
}

/// Every survivor is one of the completions.
pub proof fn lemma_survivors(comp: Seq<CompletionView>, best: u32, replace: bool, tok: Seq<char>)
    ensures
        forall|i: int|
            #![trigger surviving(comp, best, replace, tok)[i]]
            0 <= i < surviving(comp, best, replace, tok).len() ==> comp.contains(
                surviving(comp, best, replace, tok)[i],
            ) && survives(surviving(comp, best, replace, tok)[i], best, replace, tok),
    decreases comp.len(),
{
    if comp.len() > 0 {
        let rest = comp.drop_last();
        lemma_survivors(rest, best, replace, tok);
        let all = surviving(comp, best, replace, tok);
        let before = surviving(rest, best, replace, tok);
        assert forall|i: int| 0 <= i < all.len() implies comp.contains(#[trigger] all[i])
            && survives(all[i], best, replace, tok) by {
            if i < before.len() {
                assert(all[i] == before[i]);
                assert(rest.contains(before[i]));
                let k = choose|k: int| 0 <= k < rest.len() && rest[k] == before[i];
                assert(comp[k] == before[i]);
            } else {
                assert(comp[comp.len() - 1] == all[i]);
            }
        }
    }
}

fn replaces_all(comp: &Vec<Completion>, best: u32) -> (r: bool)
    requires
        best == best_rank(completions(comp@)),
    ensures
        r == will_replace_token(completions(comp@)),
{
    let ghost all = completions(comp@);
    let mut i: usize = 0;
    while i < comp.len()
        invariant
            i <= comp@.len(),
            all == completions(comp@),
            best == best_rank(all),
            forall|j: int|
                0 <= j < i && (#[trigger] all[j]).rank <= best ==> all[j].flags.replaces_token,
        decreases comp@.len() - i,
    {
        assert(all[i as int] == comp@[i as int]@);
        if comp[i].rank <= best && !comp[i].flags.replaces_token {
            return false;
        }
        i += 1;
    }
    true
}

fn collect_survivors(comp: &Vec<Completion>, best: u32, replace: bool, tok: &[char]) -> (r: (
    Vec<Completion>,
    bool,
))
    ensures
        completions(r.0@) == surviving(completions(comp@), best, replace, tok@),
        r.1 == all_exact_or_prefix(completions(r.0@)),
{
    let ghost all = completions(comp@);
    let mut left: Vec<Completion> = Vec::new();
    let mut exact = true;
    let mut i: usize = 0;
    while i < comp.len()
        invariant
            i <= comp@.len(),
            all == completions(comp@),
            completions(left@) =~= surviving(all.take(i as int), best, replace, tok@),
            exact == all_exact_or_prefix(completions(left@)),
        decreases comp@.len() - i,
    {
        let c = &comp[i];
        let ghost before = left@;
        proof {
            assert(all.take(i + 1).drop_last() =~= all.take(i as int));
            assert(all.take(i + 1).last() == c@);
        }
        i += 1;
        // Ignore completions with a less suitable match rank than the best, and use only those that
        // replace the token or not as the others do.
        if c.rank > best || c.flags.replaces_token != replace {
            continue ;
        }
        // Do not use completions that want to replace, if we cannot replace them.
        if c.flags.replaces_token && !reader_can_replace(tok, c.flags) {
            continue ;
        }
        let copy = c.copy();
        left.push(copy);
        assert(completions(left@) =~= completions(before).push(c@));
        proof {
            let now = completions(left@);
            let was = completions(before);
            if all_exact_or_prefix(now) {
                assert forall|j: int| 0 <= j < was.len() implies (
                #[trigger] was[j]).exact_or_prefix by {
                    assert(now[j] == was[j]);
                }
                assert(now[was.len() as int].exact_or_prefix);
            }
            if all_exact_or_prefix(was) && c.exact_or_prefix {
                assert forall|j: int| 0 <= j < now.len() implies (
                #[trigger] now[j]).exact_or_prefix by {
                    if j < was.len() {
                        assert(now[j] == was[j]);
                    }
                }
            }
        }
        exact = exact && c.exact_or_prefix;
    }
    assert(all.take(i as int) =~= all);
    (left, exact)
}

fn shared_prefix(comp: &Vec<Completion>) -> (r: WString)
    ensures
        r@ == common_prefix(completions(comp@)),
{
    let ghost all = completions(comp@);
    if comp.len() == 0 {
        return Vec::new();
    }
    assert(all[0] == comp@[0]@);
    // First entry, use the whole string.
    let mut prefix = copy_text(&comp[0].completion);
    let mut i: usize = 1;
    assert(all.take(1)[0] == all[0]);
    while i < comp.len()
        invariant
            1 <= i <= comp@.len(),
            all == completions(comp@),
            prefix@ == common_prefix(all.take(i as int)),
        decreases comp@.len() - i,
    {
        let c = &comp[i].completion;
        // Determine the shared prefix length.
        let mut idx: usize = 0;
        while idx < prefix.len() && idx < c.len() && prefix[idx] == c[idx]
            invariant
                idx <= prefix@.len(),
                idx <= c@.len(),
                first_difference(prefix@, c@, idx as int) == first_difference(prefix@, c@, 0),
            decreases prefix@.len() - idx,
        {
            idx += 1;
        }
        proof {
            assert(all.take(i + 1).drop_last() =~= all.take(i as int));
            assert(all.take(i + 1).last() == comp@[i as int]@);
        }
        prefix = subtext(&prefix, 0, idx);
        i += 1;
    }
    assert(all.take(i as int) =~= all);
    prefix
}

fn shorten(comp: Vec<Completion>, n: usize) -> (r: Vec<Completion>)
    requires
        forall|i: int| 0 <= i < comp@.len() ==> n <= (#[trigger] comp@[i]).completion@.len(),
    ensures
        completions(r@) == completions(comp@).map_values(
            |c: CompletionView| shortened(c, n as int),
        ),
{
    let mut r: Vec<Completion> = Vec::new();
    let mut i: usize = 0;
    while i < comp.len()
        invariant
            i <= comp@.len(),
            r@.len() == i,
            forall|i: int| 0 <= i < comp@.len() ==> n <= (#[trigger] comp@[i]).completion@.len(),
            forall|j: int|
                0 <= j < i ==> (#[trigger] r@[j])@ == shortened(comp@[j]@, n as int),
        decreases comp@.len() - i,
    {
        let c = &comp[i];
        let mut flags = c.flags;
        flags.replaces_token = false;
        let short = Completion {
            completion: subtext(&c.completion, n, c.completion.len()),
            description: copy_text(&c.description),
            flags,
            rank: c.rank,
            exact_or_prefix: c.exact_or_prefix,
        };
        assert(short@ =~= shortened(c@, n as int));
        r.push(short);
        i += 1;
    }
    assert(completions(r@) =~= completions(comp@).map_values(
        |c: CompletionView| shortened(c, n as int),
    ));
    r
}

fn behind_last_slash(s: &[char]) -> (r: WString)
    ensures
        r@ == last_component(s@),
{
    let mut i: usize = s.len();
    let ghost n = s@.len() as int;
    assert(s@.subrange(n, n) =~= Seq::<char>::empty());
    assert(s@.subrange(0, n) =~= s@);
    assert(last_component(s@.subrange(0, i as int)) + s@.subrange(i as int, n) =~= last_component(
        s@,
    ));
    while i > 0 && s[i - 1] != '/'
        invariant
            i <= s@.len(),
            n == s@.len(),
            last_component(s@.subrange(0, i as int)) + s@.subrange(i as int, n)
                == last_component(s@),
        decreases i,
    {
        let ghost head = s@.subrange(0, i as int);
        assert(head.drop_last() =~= s@.subrange(0, i - 1));
        assert(head.last() == s@[i - 1]);
        assert(last_component(s@.subrange(0, i - 1)) + s@.subrange(i - 1, n) =~= last_component(
            head,
        ) + s@.subrange(i as int, n));
        i -= 1;
    }
    assert(last_component(s@.subrange(0, i as int)) =~= Seq::<char>::empty()) by {
        if i > 0 {
            assert(s@.subrange(0, i as int).last() == '/');
        }
    }
    let r = subtext(s, i, s.len());
    assert(r@ =~= last_component(s@));
    r
}

fn prefix_of_list(
    tok: &[char],
    common: &[char],
    replace: bool,
    exact: bool,
    use_prefix: bool,
    ellipsis: char,
) -> (r: WString)
    ensures
        r@ == list_prefix(tok@, common@, replace, exact, use_prefix, ellipsis),
{
    let mut prefix: WString = Vec::new();
    if replace || !exact {
        if use_prefix {
            push_text(&mut prefix, common);
        }
        assert(prefix@ =~= list_prefix(tok@, common@, replace, exact, use_prefix, ellipsis));
        return prefix;
    }
    let mut full = copy_text(tok);
    push_text(&mut full, common);
    if full.len() <= PREFIX_MAX_LEN {
        return full;
    }
    // Collapse parent directories and append end of string.
    prefix.push(ellipsis);
    let truncated = subtext(&full, full.len() - PREFIX_MAX_LEN, full.len());
    assert(truncated@ =~= full@.skip(full@.len() - PREFIX_MAX_LEN));
    if contains_char(&truncated, '/') {
        // Discard any parent directories and keep what is left.
        prefix.push('/');
        let last = behind_last_slash(&truncated);
        push_text(&mut prefix, &last);
        assert(prefix@ =~= seq![ellipsis, '/'] + last_component(truncated@));
    } else {
        // No path separators were found in the common prefix, so we cannot collapse any further.
        push_text(&mut prefix, &truncated);
        assert(prefix@ =~= seq![ellipsis] + truncated@);
    }
    prefix
}

/// Decide what is to be done with the completions `comp` of the token `tok`.
///
/// If there is exactly one, or one is left after the less suitable ones were dropped, it is
/// inserted. Otherwise their common prefix is inserted, if it adds anything, and they are listed.
pub fn choose_completions(comp: &Vec<Completion>, tok: &[char], ellipsis: char) -> (r: Choice)
    ensures
        r@ == choice(completions(comp@), tok@, ellipsis),
{
    let ghost all = completions(comp@);
    if comp.len() == 0 {
        return Choice::Nothing;
    }
    if comp.len() == 1 {
        assert(all[0] == comp@[0]@);
        return Choice::Insert(comp[0].copy());
    }
    let best = get_best_rank(comp);
    // Determine whether we are going to replace the token or not. If any commands of the best rank
    // do not require replacement, then ignore all those that want to use replacement.
    let replace = replaces_all(comp, best);
    let (left, exact) = collect_survivors(comp, best, replace, tok);
    let ghost alive = completions(left@);
    assert(alive == survivors(all, tok@));
    if left.len() == 1 {
        assert(alive[0] == left@[0]@);
        return Choice::Insert(left[0].copy());
    }
    let common = if exact {
        shared_prefix(&left)
    } else {
        Vec::new()
    };
    let used = exact && common.len() > if replace {
        tok.len()
    } else {
        0
    };
    let prefix = prefix_of_list(tok, &common, replace, exact, used, ellipsis);
    assert(common@ =~= if exact {
        common_prefix(alive)
    } else {
        Seq::empty()
    });
    if !used {
        return Choice::List { insert: None, prefix, list: left };
    }
    proof {
        lemma_common_prefix(alive, Seq::empty());
        assert forall|i: int| 0 <= i < left@.len() implies common@.len() <= (
        #[trigger] left@[i]).completion@.len() by {
            assert(alive[i] == left@[i]@);
            assert(common@.is_prefix_of(alive[i].completion));
        }
        assert(alive[0] == left@[0]@);
    }
    let mut flags = left[0].flags;
    flags.no_space = true;
    let n = common.len();
    let list = shorten(left, n);
    Choice::List { insert: Some((common, flags)), prefix, list }
}

/// The prefix that is inserted is one of every completion that survives, and what is listed
/// afterwards is the rest of each of them.
pub proof fn law_listed_completions_continue_prefix(
    comp: Seq<CompletionView>,
    tok: Seq<char>,
    ellipsis: char,
)
    ensures
        choice(comp, tok, ellipsis) matches ChoiceView::List { insert: Some(insert), list, .. }
            ==> {
            &&& insert.0.len() > 0
            &&& list.len() == survivors(comp, tok).len()
            &&& forall|i: int|
                0 <= i < list.len() ==> insert.0 + (#[trigger] list[i]).completion == survivors(
                    comp,
                    tok,
                )[i].completion
        },
{
    let left = survivors(comp, tok);
    let common = common_prefix(left);
    lemma_common_prefix(left, Seq::empty());
    if let ChoiceView::List { insert: Some(insert), list, .. } = choice(comp, tok, ellipsis) {
        assert forall|i: int| 0 <= i < list.len() implies insert.0 + (
        #[trigger] list[i]).completion == left[i].completion by {
            assert(list[i] == shortened(left[i], common.len() as int));
            assert(common.is_prefix_of(left[i].completion));
            assert(common + left[i].completion.skip(common.len() as int)
                =~= left[i].completion);
        }
    }
}

/// A completion that is inserted or listed has the best rank of all, unless it is the only one; and
/// it is one of the completions that were found.
pub proof fn law_only_best_completions_survive(comp: Seq<CompletionView>, tok: Seq<char>, i: int)
    requires
        0 <= i < survivors(comp, tok).len(),
    ensures
        comp.contains(survivors(comp, tok)[i]),
        survivors(comp, tok)[i].rank == best_rank(comp),
        survivors(comp, tok)[i].flags.replaces_token == will_replace_token(comp),
{
    lemma_survivors(comp, best_rank(comp), will_replace_token(comp), tok);
    lemma_best_rank(comp);
    let c = survivors(comp, tok)[i];
    let k = choose|k: int| 0 <= k < comp.len() && comp[k] == c;
    assert(best_rank(comp) <= comp[k].rank);
}

} // verus!

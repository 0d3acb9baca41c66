//! Abbreviations: finding the token at the cursor, and what it expands to.

use crate::data::{DataView, EditableLineTag, ReaderData};
use crate::text::{
    copy_text, extent, inside, join_strings, joined, opt_int, push_text, subtext, texts, WString,
};
use std::ops::Range;
use vstd::prelude::*;

verus! {

/// A leaf of the syntax tree of a text.
pub struct LeafNode {
    /// The source of the leaf.
    pub start: usize,
    pub end: usize,
    /// The leaf is the command of a statement.
    pub is_cmd: bool,
    /// The command substitutions from the beginning of the leaf on.
    pub substitutions: Vec<Substitution>,
}

/// A command substitution in a text.
pub struct Substitution {
    /// Where its opening parenthesis is.
    pub paren: usize,
    /// Where the command is that it runs.
    pub start: usize,
    pub end: usize,
    /// The leaves of the syntax tree of that command, counted from its beginning.
    pub leaves: Vec<LeafNode>,
}

/// A token of a text, along with whether it is a command.
#[derive(Clone, Copy, PartialEq, Eq, Structural, Debug)]
pub struct PositionedToken {
    pub start: usize,
    pub end: usize,
    pub is_cmd: bool,
}

pub open spec fn shifted(t: PositionedToken, by: int) -> PositionedToken {
    PositionedToken { start: (t.start + by) as usize, end: (t.end + by) as usize, ..t }
}

pub open spec fn all_shifted(s: Seq<PositionedToken>, by: int) -> Seq<PositionedToken> {
    s.map_values(|t: PositionedToken| shifted(t, by))
}

/// The tokens of a text, from the leaves of its syntax tree. A token that holds command
/// substitutions does not count, but the tokens of those do.
pub open spec fn extracted(leaves: Seq<LeafNode>) -> Seq<PositionedToken>
    decreases leaves,
{
    if leaves.len() == 0 {
        Seq::empty()
    } else {
        extracted(leaves.drop_last()) + leaf_tokens(leaves.last())
    }
}

pub open spec fn leaf_tokens(leaf: LeafNode) -> Seq<PositionedToken>
    decreases leaf,
{
    if leaf.start >= leaf.end {
        Seq::empty()
    } else if substitutions_inside(leaf.substitutions@, leaf.end as int) == 0 {
        seq![PositionedToken { start: leaf.start, end: leaf.end, is_cmd: leaf.is_cmd }]
    } else {
        substituted_tokens(
            leaf.substitutions@,
            substitutions_inside(leaf.substitutions@, leaf.end as int),
        )
    }
}

/// How many substitutions begin before `end`, up to the first that does not.
pub open spec fn substitutions_inside(subs: Seq<Substitution>, end: int) -> int
    decreases subs.len(),
{
    if subs.len() == 0 || subs[0].paren >= end {
        0
    } else {
        1 + substitutions_inside(subs.skip(1), end)
    }
}

/// The tokens of the first `n` substitutions.
pub open spec fn substituted_tokens(subs: Seq<Substitution>, n: int) -> Seq<PositionedToken>
    decreases subs, n,
{
    if n <= 0 || n > subs.len() {
        Seq::empty()
    } else {
        substituted_tokens(subs, n - 1) + all_shifted(
            extracted(subs[n - 1].leaves@),
            subs[n - 1].start as int,
        )
    }
}

/// The tree describes a text of length `len`: every extent in it lies inside, the leaves come one
/// behind the other, and the substitutions of a leaf lie in it, one behind the other.
pub open spec fn leaves_fit(leaves: Seq<LeafNode>, len: int) -> bool
    decreases leaves,
{
    leaves.len() > 0 ==> {
        &&& leaf_fits(leaves.last(), len)
        &&& leaves_fit(leaves.drop_last(), source_start(leaves.last(), len))
    }
}

/// Where the source of a leaf begins that ends at or before `len`.
pub open spec fn source_start(leaf: LeafNode, len: int) -> int {
    if leaf.start < leaf.end {
        leaf.start as int
    } else {
        len
    }
}

pub open spec fn leaf_fits(leaf: LeafNode, len: int) -> bool
    decreases leaf,
{
    leaf.start < leaf.end ==> {
        &&& leaf.end <= len
        &&& substitutions_fit(
            leaf.substitutions@,
            substitutions_inside(leaf.substitutions@, leaf.end as int),
            leaf.start as int,
            leaf.end as int,
        )
    }
}

/// The first `n` substitutions lie between `from` and `to`, one behind the other.
pub open spec fn substitutions_fit(subs: Seq<Substitution>, n: int, from: int, to: int) -> bool
    decreases subs, n,
{
    0 < n <= subs.len() ==> {
        &&& from <= subs[n - 1].start <= subs[n - 1].end <= to
        &&& leaves_fit(subs[n - 1].leaves@, subs[n - 1].end - subs[n - 1].start)
        &&& substitutions_fit(subs, n - 1, from, subs[n - 1].start as int)
    }
}

pub open spec fn tokens_fit(tokens: Seq<PositionedToken>, from: int, to: int) -> bool {
    forall|i: int|
        #![trigger tokens[i]]
        0 <= i < tokens.len() ==> from <= tokens[i].start < tokens[i].end <= to
}

/// Each token ends before those behind it begin, so that they do not overlap.
pub open spec fn tokens_disjoint(tokens: Seq<PositionedToken>) -> bool {
    forall|i: int, j: int|
        #![trigger tokens[i], tokens[j]]
        0 <= i < j < tokens.len() ==> tokens[i].end <= tokens[j].start
}

proof fn lemma_leaf_fits(leaves: Seq<LeafNode>, len: int, i: int)
    requires
        leaves_fit(leaves, len),
        0 <= i < leaves.len(),
    ensures
        leaf_fits(leaves[i], len),
    decreases leaves.len(),
{
    if i < leaves.len() - 1 {
        let mid = source_start(leaves.last(), len);
        lemma_leaf_fits(leaves.drop_last(), mid, i);
        assert(leaf_fits(leaves.last(), len));
        assert(leaf_fits(leaves[i], mid));
    }
}

proof fn lemma_substitution_fits(subs: Seq<Substitution>, n: int, from: int, to: int, i: int)
    requires
        substitutions_fit(subs, n, from, to),
        0 <= i < n <= subs.len(),
    ensures
        from <= subs[i].start <= subs[i].end <= to,
        leaves_fit(subs[i].leaves@, subs[i].end - subs[i].start),
    decreases n,
{
    if i < n - 1 {
        lemma_substitution_fits(subs, n - 1, from, subs[n - 1].start as int, i);
    }
}

/// Tokens followed by others behind them.
proof fn lemma_tokens_behind(
    a: Seq<PositionedToken>,
    b: Seq<PositionedToken>,
    from: int,
    mid: int,
    to: int,
)
    requires
        from <= mid <= to,
        tokens_fit(a, from, mid),
        tokens_disjoint(a),
        tokens_fit(b, mid, to),
        tokens_disjoint(b),
    ensures
        tokens_fit(a + b, from, to),
        tokens_disjoint(a + b),
{
    let c = a + b;
    let n = a.len();
    assert forall|i: int| #![trigger c[i]] 0 <= i < c.len() implies from <= c[i].start < c[i].end
        <= to by {
        if i < n {
            assert(c[i] == a[i]);
        } else {
            assert(c[i] == b[i - n]);
        }
    }
    assert forall|i: int, j: int| #![trigger c[i], c[j]] 0 <= i < j < c.len() implies c[i].end
        <= c[j].start by {
        if j < n {
            assert(c[i] == a[i] && c[j] == a[j]);
        } else if i >= n {
            assert(c[i] == b[i - n] && c[j] == b[j - n]);
        } else {
            assert(c[i] == a[i] && c[j] == b[j - n]);
        }
    }
}

proof fn lemma_extracted(leaves: Seq<LeafNode>, len: int)
    requires
        leaves_fit(leaves, len),
        0 <= len,
    ensures
        tokens_fit(extracted(leaves), 0, len),
        tokens_disjoint(extracted(leaves)),
    decreases leaves,
{
    if leaves.len() > 0 {
        let last = leaves.last();
        let mid = source_start(last, len);
        lemma_extracted(leaves.drop_last(), mid);
        lemma_leaf_tokens(last, len);
        lemma_tokens_behind(extracted(leaves.drop_last()), leaf_tokens(last), 0, mid, len);
    }
}

proof fn lemma_leaf_tokens(leaf: LeafNode, len: int)
    requires
        leaf_fits(leaf, len),
    ensures
        tokens_fit(leaf_tokens(leaf), source_start(leaf, len), len),
        tokens_disjoint(leaf_tokens(leaf)),
    decreases leaf,
{
    if leaf.start < leaf.end {
        let subs = leaf.substitutions@;
        let n = substitutions_inside(subs, leaf.end as int);
        if n != 0 {
            lemma_substituted_tokens(subs, n, leaf.start as int, leaf.end as int);
        }
    }
}

proof fn lemma_substituted_tokens(subs: Seq<Substitution>, n: int, from: int, to: int)
    requires
        substitutions_fit(subs, n, from, to),
        from <= to,
    ensures
        tokens_fit(substituted_tokens(subs, n), from, to),
        tokens_disjoint(substituted_tokens(subs, n)),
    decreases subs, n,
{
    if 0 < n <= subs.len() {
        let sub = subs[n - 1];
        let inner = extracted(sub.leaves@);
        let moved = all_shifted(inner, sub.start as int);
        lemma_substituted_tokens(subs, n - 1, from, sub.start as int);
        lemma_extracted(sub.leaves@, sub.end - sub.start);
        assert forall|i: int| #![trigger moved[i]] 0 <= i < moved.len() implies sub.start
            <= moved[i].start < moved[i].end <= to by {
            assert(moved[i] == shifted(inner[i], sub.start as int));
        }
        assert forall|i: int, j: int| #![trigger moved[i], moved[j]] 0 <= i < j
            < moved.len() implies moved[i].end <= moved[j].start by {
            assert(moved[i] == shifted(inner[i], sub.start as int));
            assert(moved[j] == shifted(inner[j], sub.start as int));
        }
        lemma_tokens_behind(substituted_tokens(subs, n - 1), moved, from, sub.start as int, to);
    }
}

/// Extract all the token ranges, along with whether they are a command. Tokens containing command
/// substitutions are skipped; this ensures tokens are non-overlapping.
pub fn extract_tokens(leaves: &Vec<LeafNode>, len: usize) -> (r: Vec<PositionedToken>)
    requires
        leaves_fit(leaves@, len as int),
    ensures
        r@ == extracted(leaves@),
        tokens_fit(r@, 0, len as int),
        tokens_disjoint(r@),
    decreases leaves,
{
    let mut result: Vec<PositionedToken> = Vec::new();
    let mut i: usize = 0;
    while i < leaves.len()
        invariant
            i <= leaves@.len(),
            leaves_fit(leaves@, len as int),
            result@ == extracted(leaves@.take(i as int)),
        decreases leaves@.len() - i,
    {
        proof {
            lemma_leaf_fits(leaves@, len as int, i as int);
            assert(leaves@.take(i + 1).drop_last() =~= leaves@.take(i as int));
        }
        let mut more = extract_leaf_tokens(&leaves[i], len);
        let ghost before = result@;
        let ghost added = more@;
        result.append(&mut more);
        assert(result@ =~= before + added);
        i += 1;
    }
    proof {
        assert(leaves@.take(i as int) =~= leaves@);
        lemma_extracted(leaves@, len as int);
    }
    result
}

fn extract_leaf_tokens(leaf: &LeafNode, len: usize) -> (r: Vec<PositionedToken>)
    requires
        leaf_fits(*leaf, len as int),
    ensures
        r@ == leaf_tokens(*leaf),
    decreases leaf,
{
    let mut result: Vec<PositionedToken> = Vec::new();
    // We are only interested in leaf nodes with source.
    if leaf.start >= leaf.end {
        return result;
    }
    // If we have command subs, then we don't include this token; instead we recurse.
    let n = count_substitutions_inside(&leaf.substitutions, leaf.end);
    if n == 0 {
        // Common case of no command substitutions in this leaf node.
        result.push(PositionedToken { start: leaf.start, end: leaf.end, is_cmd: leaf.is_cmd });
        return result;
    }
    let mut i: usize = 0;
    while i < n
        invariant
            i <= n <= leaf.substitutions@.len(),
            leaf.start < leaf.end,
            n == substitutions_inside(leaf.substitutions@, leaf.end as int),
            leaf_fits(*leaf, len as int),
            result@ == substituted_tokens(leaf.substitutions@, i as int),
        decreases n - i,
    {
        let sub = &leaf.substitutions[i];
        proof {
            lemma_substitution_fits(
                leaf.substitutions@,
                n as int,
                leaf.start as int,
                leaf.end as int,
                i as int,
            );
        }
        let inner = extract_tokens(&sub.leaves, sub.end - sub.start);
        push_shifted(&mut result, &inner, sub.start, sub.end - sub.start);
        i += 1;
    }
    result
}

fn push_shifted(
    to: &mut Vec<PositionedToken>,
    tokens: &Vec<PositionedToken>,
    by: usize,
    len: usize,
)
    requires
        tokens_fit(tokens@, 0, len as int),
        by + len <= usize::MAX,
    ensures
        final(to)@ == old(to)@ + all_shifted(tokens@, by as int),
{
    let ghost before = to@;
    let mut i: usize = 0;
    while i < tokens.len()
        invariant
            i <= tokens@.len(),
            tokens_fit(tokens@, 0, len as int),
            by + len <= usize::MAX,
            to@ =~= before + all_shifted(tokens@, by as int).take(i as int),
        decreases tokens@.len() - i,
    {
        let t = tokens[i];
        to.push(PositionedToken { start: t.start + by, end: t.end + by, is_cmd: t.is_cmd });
        i += 1;
    }
    assert(all_shifted(tokens@, by as int).take(i as int) =~= all_shifted(tokens@, by as int));
}

fn count_substitutions_inside(subs: &Vec<Substitution>, end: usize) -> (n: usize)
    ensures
        n == substitutions_inside(subs@, end as int),
        n <= subs@.len(),
{
    let mut n: usize = 0;
    assert(subs@.skip(0) =~= subs@);
    while n < subs.len() && subs[n].paren < end
        invariant
            n <= subs@.len(),
            substitutions_inside(subs@, end as int) == n + substitutions_inside(
                subs@.skip(n as int),
                end as int,
            ),
        decreases subs@.len() - n,
    {
        assert(subs@.skip(n as int).skip(1) =~= subs@.skip(n + 1));
        n += 1;
    }
    n
}

/// The token that the cursor touches, and the command at or before it. Usually users edit from the
/// end, so the search goes backwards.
pub open spec fn token_at(
    tokens: Seq<PositionedToken>,
    cursor: int,
    so_far: Option<PositionedToken>,
) -> (Option<PositionedToken>, Option<PositionedToken>)
    decreases tokens.len(),
{
    if tokens.len() == 0 {
        (so_far, None)
    } else {
        let t = tokens.last();
        let found = if t.start <= cursor <= t.end {
            Some(t)
        } else {
            so_far
        };
        if found is Some && t.is_cmd {
            (found, Some(t))
        } else {
            token_at(tokens.drop_last(), cursor, found)
        }
    }
}

/// Which abbreviation is asked for: the token at the cursor, whether it is a command, and the
/// command that it belongs to otherwise.
pub struct AbbreviationQuery {
    pub range: Range<usize>,
    pub token: WString,
    pub is_cmd: bool,
    pub command: WString,
}

#[verifier::ext_equal]
pub struct QueryView {
    pub range: Range<int>,
    pub token: Seq<char>,
    pub is_cmd: bool,
    pub command: Seq<char>,
}

impl View for AbbreviationQuery {
    type V = QueryView;

    open spec fn view(&self) -> QueryView {
        QueryView {
            range: extent(self.range),
            token: self.token@,
            is_cmd: self.is_cmd,
            command: self.command@,
        }
    }
}

pub open spec fn opt_query(q: Option<AbbreviationQuery>) -> Option<QueryView> {
    match q {
        Some(q) => Some(q@),
        None => None,
    }
}

pub open spec fn queried(
    cmdline: Seq<char>,
    tokens: Seq<PositionedToken>,
    cursor: int,
) -> Option<QueryView> {
    let (token, cmd) = token_at(tokens, cursor, None);
    match token {
        Some(t) => Some(
            QueryView {
                range: Range { start: t.start as int, end: t.end as int },
                token: cmdline.subrange(t.start as int, t.end as int),
                is_cmd: t.is_cmd,
                command: if !t.is_cmd && cmd is Some {
                    cmdline.subrange(cmd.unwrap().start as int, cmd.unwrap().end as int)
                } else {
                    Seq::empty()
                },
            },
        ),
        None => None,
    }
}

/// The abbreviation to ask for at the cursor. `leaves` are those of the syntax tree of the command
/// line.
pub fn abbreviation_query(cmdline: &[char], cursor_pos: usize, leaves: &Vec<LeafNode>) -> (q: Option<
    AbbreviationQuery,
>)
    requires
        leaves_fit(leaves@, cmdline@.len() as int),
    ensures
        opt_query(q) == queried(cmdline@, extracted(leaves@), cursor_pos as int),
{
    let tokens = extract_tokens(leaves, cmdline.len());
    let mut token: Option<PositionedToken> = None;
    let mut cmdtok: Option<PositionedToken> = None;
    let mut i: usize = tokens.len();
    assert(tokens@.take(i as int) =~= tokens@);
    while i > 0 && cmdtok.is_none()
        invariant
            i <= tokens@.len(),
            tokens_fit(tokens@, 0, cmdline@.len() as int),
            token matches Some(t) ==> t.start < t.end <= cmdline@.len(),
            cmdtok matches Some(t) ==> t.start < t.end <= cmdline@.len(),
            cmdtok is None ==> token_at(tokens@, cursor_pos as int, None) == token_at(
                tokens@.take(i as int),
                cursor_pos as int,
                token,
            ),
            cmdtok is Some ==> token_at(tokens@, cursor_pos as int, None) == (token, cmdtok),
        decreases i,
    {
        let t = tokens[i - 1];
        assert(tokens@.take(i as int).drop_last() =~= tokens@.take(i - 1));
        if t.start <= cursor_pos && cursor_pos <= t.end {
            token = Some(t);
        }
        // The command is at or *before* the token the cursor is on, and once we have a command we
        // can stop.
        if token.is_some() && t.is_cmd {
            cmdtok = Some(t);
        }
        i -= 1;
    }
    match token {
        Some(t) => {
            // If the token itself is the command, we have no command to pass.
            let command = match cmdtok {
                Some(c) => if !t.is_cmd {
                    subtext(cmdline, c.start, c.end)
                } else {
                    Vec::new()
                },
                None => Vec::new(),
            };
            Some(
                AbbreviationQuery {
                    range: t.start..t.end,
                    token: subtext(cmdline, t.start, t.end),
                    is_cmd: t.is_cmd,
                    command,
                },
            )
        },
        None => None,
    }
}

/// What an abbreviation expands to: a text, or what a function prints.
pub struct Replacer {
    pub replacement: WString,
    pub is_function: bool,
    /// The marker that tells where the cursor goes.
    pub set_cursor_marker: Option<WString>,
}

/// An abbreviation expanded. The marker is still in the text.
pub struct Expansion {
    pub range: Range<usize>,
    pub text: WString,
    pub set_cursor_marker: Option<WString>,
}

pub open spec fn opt_text(t: Option<WString>) -> Option<Seq<char>> {
    match t {
        Some(t) => Some(t@),
        None => None,
    }
}

#[verifier::ext_equal]
pub struct ReplacerView {
    pub replacement: Seq<char>,
    pub is_function: bool,
    pub marker: Option<Seq<char>>,
}

impl View for Replacer {
    type V = ReplacerView;

    open spec fn view(&self) -> ReplacerView {
        ReplacerView {
            replacement: self.replacement@,
            is_function: self.is_function,
            marker: opt_text(self.set_cursor_marker),
        }
    }
}

#[verifier::ext_equal]
pub struct ExpansionView {
    pub range: Range<int>,
    pub text: Seq<char>,
    pub marker: Option<Seq<char>>,
}

impl View for Expansion {
    type V = ExpansionView;

    open spec fn view(&self) -> ExpansionView {
        ExpansionView {
            range: extent(self.range),
            text: self.text@,
            marker: opt_text(self.set_cursor_marker),
        }
    }
}

pub open spec fn opt_expansion(e: Option<Expansion>) -> Option<ExpansionView> {
    match e {
        Some(e) => Some(e@),
        None => None,
    }
}

pub open spec fn opt_output(run: Option<Vec<WString>>) -> Option<Seq<Seq<char>>> {
    match run {
        Some(lines) => Some(texts(lines@)),
        None => None,
    }
}

/// The expansion that a replacer gives; `run` are the lines that its function printed, if it is one
/// and did not fail.
pub open spec fn expanded(
    range: Range<int>,
    repl: ReplacerView,
    run: Option<Seq<Seq<char>>>,
) -> Option<ExpansionView> {
    if !repl.is_function {
        Some(ExpansionView { range, text: repl.replacement, marker: repl.marker })
    } else {
        match run {
            Some(lines) => Some(
                ExpansionView { range, text: joined(lines, '\n'), marker: repl.marker },
            ),
            None => None,
        }
    }
}

fn copy_marker(m: &Option<WString>) -> (r: Option<WString>)
    ensures
        opt_text(r) == opt_text(*m),
{
    match m {
        Some(m) => Some(copy_text(m)),
        None => None,
    }
}

/// The command that runs the function of a replacer on the token, from the escaped name of the
/// function and the escaped token.
pub fn replacer_command(escaped_function: &[char], escaped_token: &[char]) -> (r: WString)
    ensures
        r@ == escaped_function@.push(' ') + escaped_token@,
{
    let mut cmd = copy_text(escaped_function);
    cmd.push(' ');
    push_text(&mut cmd, escaped_token);
    cmd
}

/// Expand an abbreviation replacer, given what its function printed. Return none to skip it.
pub fn expand_replacer(range: &Range<usize>, repl: &Replacer, run: &Option<Vec<WString>>) -> (r: Option<
    Expansion,
>)
    ensures
        opt_expansion(r) == expanded(extent(*range), repl@, opt_output(*run)),
{
    if !repl.is_function {
        // Literal replacement cannot fail.
        return Some(
            Expansion {
                range: range.start..range.end,
                text: copy_text(&repl.replacement),
                set_cursor_marker: copy_marker(&repl.set_cursor_marker),
            },
        );
    }
    match run {
        Some(outputs) => Some(
            Expansion {
                range: range.start..range.end,
                text: join_strings(outputs, '\n'),
                set_cursor_marker: copy_marker(&repl.set_cursor_marker),
            },
        ),
        None => None,
    }
}

/// A replacer that matches the query, with what its function printed.
pub struct AbbreviationMatch {
    pub replacer: Replacer,
    pub run: Option<Vec<WString>>,
}

/// The first expansion that succeeds.
pub open spec fn first_expansion(
    range: Range<int>,
    matches: Seq<AbbreviationMatch>,
    i: int,
) -> Option<ExpansionView>
    decreases matches.len() - i,
{
    if i < 0 || i >= matches.len() {
        None
    } else {
        let e = expanded(range, matches[i].replacer@, opt_output(matches[i].run));
        if e is Some {
            e
        } else {
            first_expansion(range, matches, i + 1)
        }
    }
}

/// Expand at most one abbreviation at the given cursor position. `leaves` are those of the syntax
/// tree of the command line, `matches` what matches the query for the cursor position, in order.
/// Return none if no abbreviations were expanded.
pub fn reader_expand_abbreviation_at_cursor(
    cmdline: &[char],
    cursor_pos: usize,
    leaves: &Vec<LeafNode>,
    matches: &Vec<AbbreviationMatch>,
) -> (r: Option<Expansion>)
    requires
        leaves_fit(leaves@, cmdline@.len() as int),
    ensures
        opt_expansion(r) == match queried(cmdline@, extracted(leaves@), cursor_pos as int) {
            Some(q) => first_expansion(q.range, matches@, 0),
            None => None,
        },
{
    match abbreviation_query(cmdline, cursor_pos, leaves) {
        Some(q) => {
            let mut i: usize = 0;
            while i < matches.len()
                invariant
                    i <= matches@.len(),
                    queried(cmdline@, extracted(leaves@), cursor_pos as int) == Some(q@),
                    first_expansion(q@.range, matches@, 0) == first_expansion(
                        q@.range,
                        matches@,
                        i as int,
                    ),
                decreases matches@.len() - i,
            {
                let m = &matches[i];
                let e = expand_replacer(&q.range, &m.replacer, &m.run);
                if e.is_some() {
                    return e;
                }
                i += 1;
            }
            None
        },
        None => None,
    }
}

/// An expansion with its marker resolved: the text that replaces the range, and where the cursor
/// goes.
pub struct Replacement {
    pub range: Range<usize>,
    pub text: WString,
    pub cursor: Option<usize>,
}

#[verifier::ext_equal]
pub struct ReplacementView {
    pub range: Range<int>,
    pub text: Seq<char>,
    pub cursor: Option<int>,
}

impl View for Replacement {
    type V = ReplacementView;

    open spec fn view(&self) -> ReplacementView {
        ReplacementView {
            range: extent(self.range),
            text: self.text@,
            cursor: opt_int(self.cursor),
        }
    }
}

pub open spec fn opt_replacement(r: Option<Replacement>) -> Option<ReplacementView> {
    match r {
        Some(r) => Some(r@),
        None => None,
    }
}

impl ReplacementView {
    /// The replacement can be made in a text of length `len`.
    pub open spec fn applies(self, len: int) -> bool {
        &&& inside(self.range, len)
        &&& self.cursor matches Some(c) ==> 0 <= c <= len - (self.range.end - self.range.start)
            + self.text.len()
    }
}

impl DataView {
    /// Where abbreviations are looked for, if they are expanded at all.
    pub open spec fn abbreviation_cursor(self, backtrack: int) -> Option<int> {
        let pos = self.command_line.position;
        if self.conf.expand_abbrev_ok && self.active_tag() == EditableLineTag::Commandline {
            Some(
                if pos >= backtrack {
                    pos - backtrack
                } else {
                    0
                },
            )
        } else {
            None
        }
    }

    pub open spec fn abbreviation_applied(self, r: ReplacementView) -> DataView {
        self.replaced(EditableLineTag::Commandline, r.range, r.text).moved(
            EditableLineTag::Commandline,
            r.cursor,
        )
    }
}

impl ReaderData {
    /// Where abbreviations are looked for: at the current cursor position, minus the given cursor
    /// backtrack. None if they are not expanded.
    pub fn get_abbreviation_cursor(&self, cursor_backtrack: usize) -> (r: Option<usize>)
        requires
            self@.wf(),
        ensures
            opt_int(r) == self@.abbreviation_cursor(cursor_backtrack as int),
            r matches Some(c) ==> c <= self@.command_line.text.len(),
    {
        if self.conf.expand_abbrev_ok && self.active_edit_line_tag()
            == EditableLineTag::Commandline {
            let pos = self.command_line.position;
            Some(
                if pos >= cursor_backtrack {
                    pos - cursor_backtrack
                } else {
                    0
                },
            )
        } else {
            None
        }
    }

    /// Put the expansion of an abbreviation into the command line. This does NOT repaint it, to
    /// allow the caller to coalesce repaints.
    pub fn apply_abbreviation(&mut self, replacement: Replacement)
        requires
            old(self)@.wf(),
            replacement@.applies(old(self)@.command_line.text.len() as int),
        ensures
            final(self)@ == old(self)@.abbreviation_applied(replacement@),
            final(self)@.wf(),
            final(self)@.rls == old(self)@.rls,
            final(self)@.conf == old(self)@.conf,
    {
        self.replace_substring(
            EditableLineTag::Commandline,
            replacement.range,
            replacement.text,
        );
        self.update_buff_pos(EditableLineTag::Commandline, replacement.cursor);
    }
}

} // verus!

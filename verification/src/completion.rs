//! Completions, and how one is applied to a command line.

use crate::text::{
    at, char_at, contains_char, copy_text, extent, inside, lemma_line_end, lemma_line_start,
    line_range, part, push_text, quote_at, replace_line_at_cursor, splice, spliced, subtext,
    unescaped_quote, WString,
};
use std::ops::Range;
use vstd::prelude::*;

verus! {

/// How a completion wants to be inserted.
#[derive(Clone, Copy, PartialEq, Eq, Structural, Debug)]
pub struct CompleteFlags {
    /// Do not insert a space afterwards.
    pub no_space: bool,
    /// This completion replaces the token instead of being appended to it.
    pub replaces_token: bool,
    /// This completion replaces the whole line.
    pub replaces_line: bool,
    /// The text is already escaped.
    pub dont_escape: bool,
    /// A tilde at the beginning is not escaped.
    pub dont_escape_tildes: bool,
    /// The part of the token up to an equals sign is kept.
    pub keep_variable_override_prefix: bool,
    /// The completion is the name of a variable.
    pub variable_name: bool,
    /// The completions are not sorted.
    pub dont_sort: bool,
}

impl CompleteFlags {
    pub open spec fn none() -> CompleteFlags {
        CompleteFlags {
            no_space: false,
            replaces_token: false,
            replaces_line: false,
            dont_escape: false,
            dont_escape_tildes: false,
            keep_variable_override_prefix: false,
            variable_name: false,
            dont_sort: false,
        }
    }

    /// No flag at all.
    pub fn empty() -> (r: CompleteFlags)
        ensures
            r == CompleteFlags::none(),
    {
        CompleteFlags {
            no_space: false,
            replaces_token: false,
            replaces_line: false,
            dont_escape: false,
            dont_escape_tildes: false,
            keep_variable_override_prefix: false,
            variable_name: false,
            dont_sort: false,
        }
    }
}

/// A completion, with how well it matches what was typed: the lower the rank, the better.
pub struct Completion {
    pub completion: WString,
    pub description: WString,
    pub flags: CompleteFlags,
    pub rank: u32,
    /// What was typed is the completion or a prefix of it.
    pub exact_or_prefix: bool,
}

#[verifier::ext_equal]
pub struct CompletionView {
    pub completion: Seq<char>,
    pub description: Seq<char>,
    pub flags: CompleteFlags,
    pub rank: u32,
    pub exact_or_prefix: bool,
}

impl View for Completion {
    type V = CompletionView;

    open spec fn view(&self) -> CompletionView {
        CompletionView {
            completion: self.completion@,
            description: self.description@,
            flags: self.flags,
            rank: self.rank,
            exact_or_prefix: self.exact_or_prefix,
        }
    }
}

pub open spec fn opt_completion(c: Option<Completion>) -> Option<CompletionView> {
    match c {
        Some(c) => Some(c@),
        None => None,
    }
}

pub open spec fn completions(s: Seq<Completion>) -> Seq<CompletionView> {
    s.map_values(|c: Completion| c@)
}

impl Completion {
    pub fn copy(&self) -> (r: Completion)
        ensures
            r@ == self@,
    {
        Completion {
            completion: copy_text(&self.completion),
            description: copy_text(&self.description),
            flags: self.flags,
            rank: self.rank,
            exact_or_prefix: self.exact_or_prefix,
        }
    }
}

/// Characters that have a special meaning in any position.
pub open spec fn special(c: char) -> bool {
    c == '$' || c == '*' || c == '?' || c == '(' || c == '{' || c == '}' || c == ')'
}

pub open spec fn can_replace(s: Seq<char>, flags: CompleteFlags) -> bool {
    flags.dont_escape || forall|i: int| 0 <= i < s.len() ==> !special(#[trigger] s[i])
}

/// Check if the specified string can be replaced by a case insensitive completion with the
/// specified flags.
///
/// Advanced tokens like those containing {}-style expansion can not at the moment be replaced,
/// other than if the new token is already an exact replacement, e.g. if it is not to be escaped.
pub fn reader_can_replace(s: &[char], flags: CompleteFlags) -> (r: bool)
    ensures
        r == can_replace(s@, flags),
{
    if flags.dont_escape {
        return true;
    }
    let mut i: usize = 0;
    while i < s.len()
        invariant
            !flags.dont_escape,
            i <= s@.len(),
            forall|j: int| 0 <= j < i ==> !special(#[trigger] s@[j]),
        decreases s@.len() - i,
    {
        let c = s[i];
        if c == '$' || c == '*' || c == '?' || c == '(' || c == '{' || c == '}' || c == ')' {
            assert(special(s@[i as int]));
            return false;
        }
        i += 1;
    }
    true
}

pub open spec fn best_rank(comp: Seq<CompletionView>) -> u32
    decreases comp.len(),
{
    if comp.len() == 0 {
        u32::MAX
    } else {
        let rest = best_rank(comp.drop_last());
        if comp.last().rank < rest {
            comp.last().rank
        } else {
            rest
        }
    }
}

/// The best rank is the lowest rank that occurs.
pub proof fn lemma_best_rank(comp: Seq<CompletionView>)
    ensures
        forall|i: int| 0 <= i < comp.len() ==> best_rank(comp) <= (#[trigger] comp[i]).rank,
        comp.len() > 0 ==> exists|i: int|
            0 <= i < comp.len() && (#[trigger] comp[i]).rank == best_rank(comp),
    decreases comp.len(),
{
    if comp.len() > 0 {
        let rest = comp.drop_last();
        lemma_best_rank(rest);
        assert forall|i: int| 0 <= i < comp.len() implies best_rank(comp) <= (
        #[trigger] comp[i]).rank by {
            if i < rest.len() {
                assert(rest[i] == comp[i]);
            }
        }
        if comp.last().rank < best_rank(rest) {
            assert(comp[comp.len() - 1].rank == best_rank(comp));
        } else if rest.len() > 0 {
            let i = choose|i: int|
                0 <= i < rest.len() && (#[trigger] rest[i]).rank == best_rank(rest);
            assert(comp[i] == rest[i]);
        } else {
            assert(comp[comp.len() - 1].rank == best_rank(comp));
        }
    }
}

/// Determine the best (lowest) match rank for a set of completions.
pub fn get_best_rank(comp: &Vec<Completion>) -> (r: u32)
    ensures
        r == best_rank(completions(comp@)),
        forall|i: int| 0 <= i < comp@.len() ==> r <= (#[trigger] comp@[i]).rank,
        comp@.len() == 0 ==> r == u32::MAX,
        comp@.len() > 0 ==> exists|i: int|
            0 <= i < comp@.len() && (#[trigger] comp@[i]).rank == r,
{
    let mut best: u32 = u32::MAX;
    let mut i: usize = 0;
    let ghost all = completions(comp@);
    while i < comp.len()
        invariant
            i <= comp@.len(),
            all == completions(comp@),
            best == best_rank(all.take(i as int)),
        decreases comp@.len() - i,
    {
        let rank: u32 = comp[i].rank;
        if rank < best {
            best = rank;
        }
        i += 1;
        assert(all.take(i as int).drop_last() =~= all.take(i - 1));
        assert(all.take(i as int).last() == comp@[i - 1]@);
    }
    proof {
        assert(all.take(i as int) =~= all);
        lemma_best_rank(all);
        assert forall|i: int| 0 <= i < comp@.len() implies best <= (#[trigger] comp@[i]).rank by {
            assert(all[i] == comp@[i]@);
        }
        if comp@.len() > 0 {
            let k = choose|k: int| 0 <= k < all.len() && (#[trigger] all[k]).rank == best_rank(all);
            assert(all[k] == comp@[k]@);
            assert(comp@[k].rank == best);
        }
    }
    best
}

/// The quote in which the position `len` of `cmd` lies, looking from `i` on. `ends[i]` is where a
/// quote that opens at `i` is closed.
pub open spec fn open_quote(cmd: Seq<char>, ends: Seq<Option<usize>>, len: int, i: int) -> Option<
    char,
>
    decreases cmd.len() - i,
{
    if i >= cmd.len() {
        None
    } else if cmd[i] == '\\' {
        if i + 1 == cmd.len() {
            None
        } else {
            open_quote(cmd, ends, len, i + 2)
        }
    } else if cmd[i] == '\'' || cmd[i] == '"' {
        match ends[i] {
            Some(end) => if end > len || end <= i || end >= cmd.len() {
                Some(cmd[i])
            } else {
                open_quote(cmd, ends, len, end + 1)
            },
            None => Some(cmd[i]),
        }
    } else {
        open_quote(cmd, ends, len, i + 1)
    }
}

/// Every quote that is closed is closed behind the place where it opens.
pub open spec fn closes_behind(ends: Seq<Option<usize>>, len: int) -> bool {
    &&& ends.len() == len
    &&& forall|i: int|
        #![trigger ends[i]]
        0 <= i < ends.len() ==> (ends[i] matches Some(end) ==> i < end < len)
}

/// The quote in which the position `len` of `cmd` lies, if any. `ends` holds for each character
/// that is a quote where the quote that opens there is closed.
pub fn get_quote(cmd: &[char], len: usize, ends: &Vec<Option<usize>>) -> (r: Option<char>)
    requires
        closes_behind(ends@, cmd@.len() as int),
    ensures
        r == open_quote(cmd@, ends@, len as int, 0),
        r matches Some(q) ==> q == '\'' || q == '"',
{
    let mut i: usize = 0;
    while i < cmd.len()
        invariant
            closes_behind(ends@, cmd@.len() as int),
            i <= cmd@.len(),
            open_quote(cmd@, ends@, len as int, i as int) == open_quote(
                cmd@,
                ends@,
                len as int,
                0,
            ),
        decreases cmd@.len() - i,
    {
        if cmd[i] == '\\' {
            i += 1;
            if i == cmd.len() {
                return None;
            }
            i += 1;
        } else if cmd[i] == '\'' || cmd[i] == '"' {
            match ends[i] {
                Some(end) => {
                    assert(ends@[i as int] matches Some(e) && i < e < cmd@.len());
                    if end > len {
                        return Some(cmd[i]);
                    }
                    i = end + 1;
                },
                None => {
                    return Some(cmd[i]);
                },
            }
        } else {
            i += 1;
        }
    }
    None
}

/// How a string is to be escaped.
#[derive(Clone, Copy, PartialEq, Eq, Structural, Debug)]
pub struct EscapeFlags {
    /// Do not put the string in quotes.
    pub no_quoted: bool,
    /// Do not escape a tilde.
    pub no_tilde: bool,
}

/// What the escaped form of a completion is asked for.
#[derive(Clone, Copy, PartialEq, Eq, Structural, Debug)]
pub enum EscapeRequest {
    /// For use as a token.
    Script(EscapeFlags),
    /// For use inside the given quote, if any.
    WithQuote(Option<char>, EscapeFlags),
}

/// What the shell has to say about a command line for a completion to be applied to it.
pub struct CompletionContext {
    /// The extent of the command substitution around the cursor.
    pub cmdsub: Range<usize>,
    /// The extent of the token at the cursor.
    pub token: Range<usize>,
    /// For each character of the token that is a quote, where the quote that opens there closes.
    pub quote_ends: Vec<Option<usize>>,
    /// Where in the token the equals sign of a variable assignment stands.
    pub equals_pos: Option<usize>,
    /// The completion, escaped as [`completion_escape`] asks for.
    pub escaped: WString,
    /// Whether the text that [`completion_path`] names is that of a directory.
    pub is_dir: bool,
}

#[verifier::ext_equal]
pub struct ContextView {
    pub cmdsub: Range<int>,
    pub token: Range<int>,
    pub quote_ends: Seq<Option<usize>>,
    pub equals_pos: Option<usize>,
    pub escaped: Seq<char>,
    pub is_dir: bool,
}

impl View for CompletionContext {
    type V = ContextView;

    open spec fn view(&self) -> ContextView {
        ContextView {
            cmdsub: extent(self.cmdsub),
            token: extent(self.token),
            quote_ends: self.quote_ends@,
            equals_pos: self.equals_pos,
            escaped: self.escaped@,
            is_dir: self.is_dir,
        }
    }
}

impl ContextView {
    /// The extents lie inside the command line, and the quotes are those of the token.
    pub open spec fn describes(self, line: Seq<char>) -> bool {
        &&& inside(self.cmdsub, line.len() as int)
        &&& inside(self.token, line.len() as int)
        &&& closes_behind(self.quote_ends, self.token.end - self.token.start)
    }
}

/// The combinations of flags that are supported.
pub open spec fn applicable(
    flags: CompleteFlags,
    line: Seq<char>,
    cursor: int,
    ctx: ContextView,
) -> bool {
    &&& 0 <= cursor <= line.len()
    &&& ctx.describes(line)
    &&& flags.variable_name ==> at(line, cursor) != '/'
    &&& flags.replaces_line ==> flags.dont_escape
    &&& !flags.replaces_line && flags.replaces_token && flags.variable_name ==> flags.dont_escape
    &&& !flags.replaces_line && flags.replaces_token && flags.keep_variable_override_prefix ==> (
    ctx.equals_pos matches Some(p) && p < ctx.token.end - ctx.token.start)
}

/// What stands behind a completion: nothing, a space, or a slash behind a directory.
pub open spec fn trailer(flags: CompleteFlags, is_dir: bool) -> Option<char> {
    if flags.no_space {
        None
    } else if flags.variable_name && is_dir {
        Some('/')
    } else {
        Some(' ')
    }
}

/// A character that is inserted only if `insert`.
pub open spec fn only_if(insert: bool, c: char) -> Seq<char> {
    if insert {
        seq![c]
    } else {
        Seq::empty()
    }
}

/// The new command line and cursor of a completion.
pub struct Applied {
    pub line: Seq<char>,
    pub cursor: int,
}

/// A completion in place of the command substitution around the cursor, or, where that has several
/// lines, in place of the line at the cursor.
pub open spec fn line_replaced(
    val: Seq<char>,
    line: Seq<char>,
    cursor: int,
    cmdsub: Range<int>,
) -> Applied {
    let r = if part(line, cmdsub).contains('\n') {
        line_range(line, cursor)
    } else {
        cmdsub
    };
    Applied { line: splice(line, r, val), cursor: r.start + val.len() }
}

/// A completion in place of the token.
pub open spec fn token_replaced(
    val: Seq<char>,
    flags: CompleteFlags,
    line: Seq<char>,
    cursor: int,
    ctx: ContextView,
) -> Applied {
    let key = if flags.keep_variable_override_prefix {
        line.subrange(ctx.token.start, ctx.token.start + ctx.equals_pos.unwrap() + 1)
    } else {
        Seq::empty()
    };
    let body = if flags.dont_escape {
        val
    } else {
        ctx.escaped
    };
    let behind = trailer(flags, ctx.is_dir);
    let new = key + body + only_if(
        behind is Some && at(line, cursor) != ' ',
        behind.unwrap_or(' '),
    );
    Applied {
        line: splice(line, ctx.token, new),
        cursor: ctx.token.start + key.len() + body.len() + if behind is Some {
            1int
        } else {
            0int
        },
    }
}

/// The quote in which the cursor lies, by the token at the cursor.
pub open spec fn token_quote(line: Seq<char>, cursor: int, ctx: ContextView) -> Option<char> {
    if ctx.token.start <= cursor <= ctx.token.end {
        open_quote(part(line, ctx.token), ctx.quote_ends, cursor - ctx.token.start, 0)
    } else {
        None
    }
}

/// The token is unquoted but ends in a quote into which the completion can still go.
pub open spec fn goes_back(
    flags: CompleteFlags,
    line: Seq<char>,
    cursor: int,
    append_only: bool,
    ctx: ContextView,
) -> bool {
    &&& !flags.dont_escape
    &&& token_quote(line, cursor, ctx) is None
    &&& !append_only
    &&& cursor > 0
    &&& quote_at(line, cursor - 1) is Some
}

/// The quote inside which the completion is inserted.
pub open spec fn insertion_quote(
    flags: CompleteFlags,
    line: Seq<char>,
    cursor: int,
    append_only: bool,
    ctx: ContextView,
) -> Option<char> {
    if flags.dont_escape {
        None
    } else if goes_back(flags, line, cursor, append_only, ctx) {
        quote_at(line, cursor - 1)
    } else {
        token_quote(line, cursor, ctx)
    }
}

/// A completion inserted at the cursor, inside of the quote that is open there. The quote is closed
/// unless it is already, and what stands behind follows unless a space does already.
pub open spec fn inserted(
    val: Seq<char>,
    flags: CompleteFlags,
    line: Seq<char>,
    cursor: int,
    append_only: bool,
    ctx: ContextView,
) -> Applied {
    let back = goes_back(flags, line, cursor, append_only, ctx);
    let quote = insertion_quote(flags, line, cursor, append_only, ctx);
    let body = if flags.dont_escape {
        val
    } else {
        ctx.escaped
    };
    let point = if back {
        cursor - 1
    } else {
        cursor
    };
    let behind = trailer(flags, ctx.is_dir);
    let close = behind is Some && behind != Some('/') && quote is Some && quote_at(line, point)
        != quote;
    let tail = only_if(close, quote.unwrap_or('"')) + only_if(
        behind is Some && at(line, cursor) != ' ',
        behind.unwrap_or(' '),
    );
    Applied {
        line: line.subrange(0, point) + body + line.subrange(point, cursor) + tail
            + line.subrange(cursor, line.len() as int),
        cursor: cursor + body.len() + if close {
            1int
        } else {
            0int
        } + if behind is Some {
            1int
        } else {
            0int
        },
    }
}

pub open spec fn applied(
    val: Seq<char>,
    flags: CompleteFlags,
    line: Seq<char>,
    cursor: int,
    append_only: bool,
    ctx: ContextView,
) -> Applied {
    if flags.replaces_line {
        line_replaced(val, line, cursor, ctx.cmdsub)
    } else if flags.replaces_token {
        token_replaced(val, flags, line, cursor, ctx)
    } else {
        inserted(val, flags, line, cursor, append_only, ctx)
    }
}

/// The cursor stays in the text, if it was not before a space.
pub proof fn lemma_applied_cursor(
    val: Seq<char>,
    flags: CompleteFlags,
    line: Seq<char>,
    cursor: int,
    append_only: bool,
    ctx: ContextView,
)
    requires
        applicable(flags, line, cursor, ctx),
        at(line, cursor) != ' ',
    ensures
        ({
            let a = applied(val, flags, line, cursor, append_only, ctx);
            0 <= a.cursor <= a.line.len()
        }),
{
    lemma_line_start(line, cursor);
    lemma_line_end(line, cursor);
}

/// The escaping that a completion needs: none where it replaces the line or is escaped already.
pub open spec fn escape_needed(
    flags: CompleteFlags,
    line: Seq<char>,
    cursor: int,
    append_only: bool,
    is_unique: bool,
    ctx: ContextView,
) -> Option<EscapeRequest> {
    let plain = EscapeFlags {
        no_quoted: append_only || !is_unique || flags.no_space,
        no_tilde: flags.dont_escape_tildes,
    };
    if flags.replaces_line || flags.dont_escape {
        None
    } else if flags.replaces_token {
        Some(EscapeRequest::Script(plain))
    } else {
        let have_token = ctx.token.start <= cursor <= ctx.token.end && ctx.token.start
            < ctx.token.end;
        Some(
            EscapeRequest::WithQuote(
                insertion_quote(flags, line, cursor, append_only, ctx),
                EscapeFlags { no_quoted: plain.no_quoted || have_token, ..plain },
            ),
        )
    }
}

/// The text that is looked up as a path to decide between a slash and a space.
pub open spec fn path_asked(
    val: Seq<char>,
    flags: CompleteFlags,
    line: Seq<char>,
    cursor: int,
    append_only: bool,
    ctx: ContextView,
) -> Option<Seq<char>> {
    if flags.replaces_line || flags.no_space || !flags.variable_name {
        None
    } else if flags.replaces_token {
        Some(val)
    } else {
        let back = goes_back(flags, line, cursor, append_only, ctx);
        let body = if flags.dont_escape {
            val
        } else {
            ctx.escaped
        };
        let point = if back {
            cursor - 1
        } else {
            cursor
        };
        let whole = line.subrange(0, point) + body + line.subrange(point, line.len() as int);
        Some(whole.subrange(ctx.token.start, cursor + body.len()))
    }
}

fn back_into_quote(
    flags: CompleteFlags,
    command_line: &[char],
    cursor_pos: usize,
    append_only: bool,
    ctx: &CompletionContext,
) -> (r: (bool, Option<char>))
    requires
        cursor_pos <= command_line@.len(),
        ctx@.describes(command_line@),
    ensures
        r.0 == goes_back(flags, command_line@, cursor_pos as int, append_only, ctx@),
        r.1 == insertion_quote(flags, command_line@, cursor_pos as int, append_only, ctx@),
{
    if flags.dont_escape {
        return (false, None);
    }
    let mut quote = None;
    // Find the last quote in the token to complete.
    if ctx.token.start <= cursor_pos && cursor_pos <= ctx.token.end {
        quote = get_quote(
            &command_line[ctx.token.start..ctx.token.end],
            cursor_pos - ctx.token.start,
            &ctx.quote_ends,
        );
    }
    // If the token is reported as unquoted, but ends with an unescaped quote, and we can modify the
    // command line, then go back so that we insert within the quotes instead of after them.
    if quote.is_none() && !append_only && cursor_pos > 0 {
        let trailing_quote = unescaped_quote(command_line, cursor_pos - 1);
        if trailing_quote.is_some() {
            return (true, trailing_quote);
        }
    }
    (false, quote)
}

/// How the completion has to be escaped for [`completion_apply_to_command_line`], if at all.
pub fn completion_escape(
    flags: CompleteFlags,
    command_line: &[char],
    cursor_pos: usize,
    append_only: bool,
    is_unique: bool,
    ctx: &CompletionContext,
) -> (r: Option<EscapeRequest>)
    requires
        cursor_pos <= command_line@.len(),
        ctx@.describes(command_line@),
    ensures
        r == escape_needed(
            flags,
            command_line@,
            cursor_pos as int,
            append_only,
            is_unique,
            ctx@,
        ),
{
    if flags.replaces_line || flags.dont_escape {
        return None;
    }
    let mut escape_flags = EscapeFlags { no_quoted: false, no_tilde: false };
    if append_only || !is_unique || flags.no_space {
        escape_flags.no_quoted = true;
    }
    if flags.dont_escape_tildes {
        escape_flags.no_tilde = true;
    }
    if flags.replaces_token {
        return Some(EscapeRequest::Script(escape_flags));
    }
    let (_, quote) = back_into_quote(flags, command_line, cursor_pos, append_only, ctx);
    if ctx.token.start <= cursor_pos && cursor_pos <= ctx.token.end && ctx.token.start
        < ctx.token.end {
        escape_flags.no_quoted = true;
    }
    Some(EscapeRequest::WithQuote(quote, escape_flags))
}

/// The text that has to be looked up, after expansion, as a directory for
/// [`completion_apply_to_command_line`], if any. The context holds the escaped completion already.
pub fn completion_path(
    val_str: &[char],
    flags: CompleteFlags,
    command_line: &[char],
    cursor_pos: usize,
    append_only: bool,
    ctx: &CompletionContext,
) -> (r: Option<WString>)
    requires
        applicable(flags, command_line@, cursor_pos as int, ctx@),
        !flags.replaces_line && !flags.replaces_token && !flags.no_space && flags.variable_name
            ==> ctx@.token.start <= cursor_pos + if flags.dont_escape {
            val_str@.len()
        } else {
            ctx@.escaped.len()
        },
    ensures
        (match r {
            Some(path) => Some(path@),
            None => None,
        }) == path_asked(val_str@, flags, command_line@, cursor_pos as int, append_only, ctx@),
{
    if flags.replaces_line || flags.no_space || !flags.variable_name {
        return None;
    }
    if flags.replaces_token {
        return Some(copy_text(val_str));
    }
    let (back, _) = back_into_quote(flags, command_line, cursor_pos, append_only, ctx);
    let point = if back {
        cursor_pos - 1
    } else {
        cursor_pos
    };
    let body = if flags.dont_escape {
        copy_text(val_str)
    } else {
        copy_text(&ctx.escaped)
    };
    let whole = spliced(command_line, point, point, &body);
    let ghost w = command_line@.subrange(0, point as int) + body@ + command_line@.subrange(
        point as int,
        command_line@.len() as int,
    );
    assert(whole@ =~= w);
    let bound: usize = whole.len();
    assert(cursor_pos + body@.len() <= bound);
    Some(subtext(&whole, ctx.token.start, cursor_pos + body.len()))
}

/// Apply a completion string.
///
/// Insert the string in the given command line at the given cursor position. The function checks if
/// the string is quoted or not and uses the correctly escaped string.
///
/// `inout_cursor_pos` is on input the location of the cursor within the command line, and on output
/// the new desired position. `append_only` says whether we can only append to the command line, or
/// also modify previous characters. This is used to determine whether we go inside a trailing quote.
///
/// Returns the completed string.
pub fn completion_apply_to_command_line(
    val_str: &[char],
    flags: CompleteFlags,
    command_line: &[char],
    inout_cursor_pos: &mut usize,
    append_only: bool,
    ctx: &CompletionContext,
) -> (r: WString)
    requires
        applicable(flags, command_line@, *old(inout_cursor_pos) as int, ctx@),
    ensures
        (Applied { line: r@, cursor: *final(inout_cursor_pos) as int }) == applied(
            val_str@,
            flags,
            command_line@,
            *old(inout_cursor_pos) as int,
            append_only,
            ctx@,
        ),
{
    let cursor_pos = *inout_cursor_pos;
    if flags.replaces_line {
        let cmdsub = &command_line[ctx.cmdsub.start..ctx.cmdsub.end];
        if contains_char(cmdsub, '\n') {
            return replace_line_at_cursor(command_line, inout_cursor_pos, val_str);
        }
        let r = spliced(command_line, ctx.cmdsub.start, ctx.cmdsub.end, val_str);
        let bound: usize = r.len();
        assert(ctx.cmdsub.start + val_str@.len() <= bound);
        *inout_cursor_pos = ctx.cmdsub.start + val_str.len();
        return r;
    }
    if flags.replaces_token {
        return replace_token(val_str, flags, command_line, inout_cursor_pos, ctx);
    }
    insert(val_str, flags, command_line, inout_cursor_pos, append_only, ctx)
}

fn replace_token(
    val_str: &[char],
    flags: CompleteFlags,
    command_line: &[char],
    inout_cursor_pos: &mut usize,
    ctx: &CompletionContext,
) -> (r: WString)
    requires
        !flags.replaces_line,
        flags.replaces_token,
        applicable(flags, command_line@, *old(inout_cursor_pos) as int, ctx@),
    ensures
        (Applied { line: r@, cursor: *final(inout_cursor_pos) as int }) == token_replaced(
            val_str@,
            flags,
            command_line@,
            *old(inout_cursor_pos) as int,
            ctx@,
        ),
{
    let cursor_pos = *inout_cursor_pos;
    let have_trailer = char_at(command_line, cursor_pos) == ' ';
    let start = ctx.token.start;
    let end = ctx.token.end;
    let mut new: WString = Vec::new();
    if flags.keep_variable_override_prefix {
        let separator_pos: usize = ctx.equals_pos.unwrap();
        push_text(&mut new, &command_line[start..start + separator_pos + 1]);
    }
    if flags.dont_escape {
        push_text(&mut new, val_str);
    } else {
        push_text(&mut new, &ctx.escaped);
    }
    let behind = if flags.no_space {
        None
    } else if flags.variable_name && ctx.is_dir {
        Some('/')
    } else {
        Some(' ')
    };
    let mut padded = copy_text(&new);
    if behind.is_some() {
        padded.push(' ');
    }
    // The cursor ends up behind the inserted text and what stands behind it, also where that was
    // there already.
    let longest = spliced(command_line, start, end, &padded);
    let bound: usize = longest.len();
    assert(start + padded@.len() <= bound);
    *inout_cursor_pos = start + padded.len();
    if !have_trailer {
        if let Some(c) = behind {
            new.push(c);
        }
    }
    let r = spliced(command_line, start, end, &new);
    proof {
        let t = token_replaced(val_str@, flags, command_line@, cursor_pos as int, ctx@);
        let key = if flags.keep_variable_override_prefix {
            command_line@.subrange(
                ctx@.token.start,
                ctx@.token.start + ctx@.equals_pos.unwrap() + 1,
            )
        } else {
            Seq::empty()
        };
        let body = if flags.dont_escape {
            val_str@
        } else {
            ctx@.escaped
        };
        assert(new@ =~= key + body + only_if(
            behind is Some && at(command_line@, cursor_pos as int) != ' ',
            behind.unwrap_or(' '),
        ));
    }
    r
}

fn insert(
    val_str: &[char],
    flags: CompleteFlags,
    command_line: &[char],
    inout_cursor_pos: &mut usize,
    append_only: bool,
    ctx: &CompletionContext,
) -> (r: WString)
    requires
        !flags.replaces_line,
        !flags.replaces_token,
        applicable(flags, command_line@, *old(inout_cursor_pos) as int, ctx@),
    ensures
        (Applied { line: r@, cursor: *final(inout_cursor_pos) as int }) == inserted(
            val_str@,
            flags,
            command_line@,
            *old(inout_cursor_pos) as int,
            append_only,
            ctx@,
        ),
{
    let cursor_pos = *inout_cursor_pos;
    let have_trailer = char_at(command_line, cursor_pos) == ' ';
    let (back, quote) = back_into_quote(flags, command_line, cursor_pos, append_only, ctx);
    // Move the character back one so we enter the terminal quote.
    let insertion_point = if back {
        cursor_pos - 1
    } else {
        cursor_pos
    };
    let mut result = subtext(command_line, 0, insertion_point);
    if flags.dont_escape {
        push_text(&mut result, val_str);
    } else {
        push_text(&mut result, &ctx.escaped);
    }
    push_text(&mut result, &command_line[insertion_point..cursor_pos]);
    let behind = if flags.no_space {
        None
    } else if flags.variable_name && ctx.is_dir {
        Some('/')
    } else {
        Some(' ')
    };
    let close = behind.is_some() && behind != Some('/') && quote.is_some() && unescaped_quote(
        command_line,
        insertion_point,
    ) != quote;
    let mut tail: WString = Vec::new();
    if close {
        // This is a quoted parameter, first print a quote.
        tail.push(quote.unwrap());
    }
    if let Some(c) = behind {
        if !have_trailer {
            tail.push(c);
        }
    }
    assert(tail@ =~= only_if(close, quote.unwrap_or('"')) + only_if(
        behind is Some && at(command_line@, cursor_pos as int) != ' ',
        behind.unwrap_or(' '),
    ));
    // The cursor goes behind what is inserted, and behind the space that was there already.
    let mut padded = copy_text(&result);
    if close {
        padded.push(' ');
    }
    if behind.is_some() {
        padded.push(' ');
    }
    let cursor: usize = padded.len();
    push_text(&mut result, &tail);
    push_text(&mut result, &command_line[cursor_pos..command_line.len()]);
    *inout_cursor_pos = cursor;
    result
}

/// A completion that can only append keeps what stands before the cursor, and what stands behind
/// it: it neither replaces nor goes back into a quote.
pub proof fn law_append_only_keeps_text(
    val: Seq<char>,
    flags: CompleteFlags,
    line: Seq<char>,
    cursor: int,
    ctx: ContextView,
)
    requires
        applicable(flags, line, cursor, ctx),
        !flags.replaces_line,
        !flags.replaces_token,
    ensures
        ({
            let a = applied(val, flags, line, cursor, true, ctx);
            &&& a.line.len() >= line.len()
            &&& a.line.take(cursor) == line.take(cursor)
            &&& a.line.skip(a.line.len() - (line.len() - cursor)) == line.skip(cursor)
            &&& cursor <= a.cursor <= a.line.len()
        }),
{
    let a = applied(val, flags, line, cursor, true, ctx);
    assert(a.line.take(cursor) =~= line.take(cursor));
    assert(a.line.skip(a.line.len() - (line.len() - cursor)) =~= line.skip(cursor));
}

/// The completion itself, escaped where it has to be, is found in the new command line right where
/// the inserted text begins; the cursor ends up behind it.
pub proof fn law_completion_is_inserted(
    val: Seq<char>,
    flags: CompleteFlags,
    line: Seq<char>,
    cursor: int,
    append_only: bool,
    ctx: ContextView,
)
    requires
        applicable(flags, line, cursor, ctx),
        !flags.replaces_line,
        !flags.replaces_token,
    ensures
        ({
            let a = applied(val, flags, line, cursor, append_only, ctx);
            let body = if flags.dont_escape {
                val
            } else {
                ctx.escaped
            };
            let point = if goes_back(flags, line, cursor, append_only, ctx) {
                cursor - 1
            } else {
                cursor
            };
            &&& part(a.line, Range { start: point, end: point + body.len() }) == body
            &&& point + body.len() <= a.cursor <= a.line.len()
        }),
{
    let a = applied(val, flags, line, cursor, append_only, ctx);
    let body = if flags.dont_escape {
        val
    } else {
        ctx.escaped
    };
    let point = if goes_back(flags, line, cursor, append_only, ctx) {
        cursor - 1
    } else {
        cursor
    };
    assert(part(a.line, Range { start: point, end: point + body.len() }) =~= body);
}

} // verus!

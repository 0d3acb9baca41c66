//! What completing promises: which completions are used, and what a completion does to the command
//! line.

use crate::choice::{
    choice, common_prefix, lemma_common_prefix, lemma_survivors, survivors, will_replace_token,
    ChoiceView,
};
use crate::completion::{
    applicable, applied, best_rank, can_replace, escape_needed, goes_back, lemma_best_rank,
    open_quote, path_asked, CompleteFlags, CompletionView, ContextView, EscapeRequest,
};
use crate::text::{lemma_line_end, lemma_line_start, quote_at};
use vstd::prelude::*;

verus! {

/// A completion that replaces the token stands where the token stood, behind the beginning of the
/// token that is kept if it is an assignment: escaped, unless it asks not to be. Everything before
/// and behind the token stays. A space, or a slash behind a directory, follows unless none is wanted
/// or a space is there already; the cursor ends up behind it either way.
pub proof fn law_token_is_replaced(
    val: Seq<char>,
    flags: CompleteFlags,
    line: Seq<char>,
    cursor: int,
    append_only: bool,
    ctx: ContextView,
)
    requires
        applicable(flags, line, cursor, ctx),
        !flags.replaces_line,
        flags.replaces_token,
    ensures
        ({
            let a = applied(val, flags, line, cursor, append_only, ctx);
            let kept = if flags.keep_variable_override_prefix {
                ctx.equals_pos->0 + 1
            } else {
                0
            };
            let from = ctx.token.start + kept;
            let to = from + if flags.dont_escape {
                val.len()
            } else {
                ctx.escaped.len()
            };
            let rest = a.line.len() - (line.len() - ctx.token.end);
            &&& a.line.take(from) == line.take(from)
            &&& flags.dont_escape ==> a.line.subrange(from, to) == val
            &&& !flags.dont_escape ==> a.line.subrange(from, to) == ctx.escaped
            &&& a.line.skip(rest) == line.skip(ctx.token.end)
            &&& rest == to || rest == to + 1
            &&& rest == to + 1 <==> !flags.no_space && !(cursor < line.len() && line[cursor]
                == ' ')
            &&& rest == to + 1 ==> a.line[to] == if flags.variable_name && ctx.is_dir {
                '/'
            } else {
                ' '
            }
            &&& a.cursor == if flags.no_space {
                to
            } else {
                to + 1
            }
        }),
{
    let a = applied(val, flags, line, cursor, append_only, ctx);
    let kept = if flags.keep_variable_override_prefix {
        ctx.equals_pos->0 + 1
    } else {
        0
    };
    let from = ctx.token.start + kept;
    let to = from + if flags.dont_escape {
        val.len()
    } else {
        ctx.escaped.len()
    };
    let rest = a.line.len() - (line.len() - ctx.token.end);
    assert(a.line.take(from) =~= line.take(from));
    if flags.dont_escape {
        assert(a.line.subrange(from, to) =~= val);
    } else {
        assert(a.line.subrange(from, to) =~= ctx.escaped);
    }
    assert(a.line.skip(rest) =~= line.skip(ctx.token.end));
}

/// A completion that replaces the line takes the place of the command substitution around the
/// cursor, or, if that goes over several lines, of the line at the cursor alone. Everything else
/// stays, nothing is added, and the cursor ends up behind the completion.
pub proof fn law_line_is_replaced(
    val: Seq<char>,
    flags: CompleteFlags,
    line: Seq<char>,
    cursor: int,
    append_only: bool,
    ctx: ContextView,
)
    requires
        applicable(flags, line, cursor, ctx),
        flags.replaces_line,
    ensures
        ({
            let a = applied(val, flags, line, cursor, append_only, ctx);
            let single = forall|i: int| ctx.cmdsub.start <= i < ctx.cmdsub.end ==> line[i] != '\n';
            let from = a.cursor - val.len();
            let behind = line.len() - (a.line.len() - a.cursor);
            &&& 0 <= from <= behind <= line.len()
            &&& a.line == line.take(from) + val + line.skip(behind)
            &&& single ==> from == ctx.cmdsub.start && behind == ctx.cmdsub.end
            &&& !single ==> {
                &&& from <= cursor <= behind
                &&& from == 0 || line[from - 1] == '\n'
                &&& behind == line.len() || line[behind] == '\n'
                &&& forall|i: int| from <= i < behind ==> line[i] != '\n'
            }
        }),
{
    let a = applied(val, flags, line, cursor, append_only, ctx);
    lemma_line_start(line, cursor);
    lemma_line_end(line, cursor);
    let sub = line.subrange(ctx.cmdsub.start, ctx.cmdsub.end);
    if sub.contains('\n') {
        let k = choose|k: int| 0 <= k < sub.len() && sub[k] == '\n';
        assert(line[ctx.cmdsub.start + k] == '\n');
    } else {
        assert forall|i: int| ctx.cmdsub.start <= i < ctx.cmdsub.end implies line[i] != '\n' by {
            assert(sub[i - ctx.cmdsub.start] == line[i]);
            assert(sub.contains(sub[i - ctx.cmdsub.start]) );
        }
    }
    let from = a.cursor - val.len();
    let behind = line.len() - (a.line.len() - a.cursor);
    assert(a.line =~= line.take(from) + val + line.skip(behind));
}

/// A completion that is inserted at the cursor stands there as a whole, escaped unless it asks not to
/// be. If the token ends in a quote just before the cursor that is closed already, and text before
/// the cursor may be changed, it stands before that quote instead. An open quote is closed behind it
/// where a space follows. All that was there stays, in its order.
pub proof fn law_completion_stands_at_cursor(
    val: Seq<char>,
    flags: CompleteFlags,
    line: Seq<char>,
    cursor: int,
    append_only: bool,
    ctx: ContextView,
)
    requires
        applicable(flags, line, cursor, ctx),
        !flags.replaces_line,
        !flags.replaces_token,
    ensures
        ({
            let a = applied(val, flags, line, cursor, append_only, ctx);
            let token = line.subrange(ctx.token.start, ctx.token.end);
            let within = if ctx.token.start <= cursor <= ctx.token.end {
                open_quote(token, ctx.quote_ends, cursor - ctx.token.start, 0)
            } else {
                None
            };
            let before = if cursor > 0 {
                quote_at(line, cursor - 1)
            } else {
                None
            };
            let back = !flags.dont_escape && !append_only && within is None && before is Some;
            let point = if back {
                cursor - 1
            } else {
                cursor
            };
            let quote = if flags.dont_escape {
                None
            } else if back {
                before
            } else {
                within
            };
            let size = if flags.dont_escape {
                val.len()
            } else {
                ctx.escaped.len()
            };
            let slash = flags.variable_name && ctx.is_dir;
            let closes = quote is Some && !flags.no_space && !slash && quote_at(line, point)
                != quote;
            let spaced = !flags.no_space && !(cursor < line.len() && line[cursor] == ' ');
            let end = cursor + size;
            let tail = end + if closes {
                1int
            } else {
                0int
            };
            let rest = tail + if spaced {
                1int
            } else {
                0int
            };
            &&& a.line.len() == rest + (line.len() - cursor)
            &&& a.line.take(point) == line.take(point)
            &&& flags.dont_escape ==> a.line.subrange(point, point + size) == val
            &&& !flags.dont_escape ==> a.line.subrange(point, point + size) == ctx.escaped
            &&& a.line.subrange(point + size, end) == line.subrange(point, cursor)
            &&& closes ==> a.line[end] == quote->0
            &&& spaced ==> a.line[tail] == if slash {
                '/'
            } else {
                ' '
            }
            &&& a.line.skip(rest) == line.skip(cursor)
            &&& a.cursor == if flags.no_space {
                tail
            } else {
                tail + 1
            }
        }),
{
    let a = applied(val, flags, line, cursor, append_only, ctx);
    let back = goes_back(flags, line, cursor, append_only, ctx);
    let point = if back {
        cursor - 1
    } else {
        cursor
    };
    let body = if flags.dont_escape {
        val
    } else {
        ctx.escaped
    };
    let rest = a.line.len() - (line.len() - cursor);
    assert(a.line.take(point) =~= line.take(point));
    assert(a.line.subrange(point, point + body.len()) =~= body);
    assert(a.line.subrange(point + body.len(), cursor + body.len()) =~= line.subrange(
        point,
        cursor,
    ));
    assert(a.line.skip(rest) =~= line.skip(cursor));
}

/// A quote is open at a position if it opens before and is not closed by then. What comes behind a
/// backslash opens none, and neither does what stands in a quote that is closed.
pub proof fn law_open_quote(cmd: Seq<char>, ends: Seq<Option<usize>>, len: int, i: int)
    requires
        0 <= i <= cmd.len(),
        ends.len() == cmd.len(),
        forall|k: int|
            #![trigger ends[k]]
            0 <= k < ends.len() ==> (ends[k] matches Some(end) ==> k < end < cmd.len()),
    ensures
        (forall|k: int| i <= k < cmd.len() ==> cmd[k] != '\'' && cmd[k] != '"') ==> open_quote(
            cmd,
            ends,
            len,
            i,
        ) is None,
        i < cmd.len() && (cmd[i] == '\'' || cmd[i] == '"') && (ends[i] is None || ends[i]->0 > len)
            ==> open_quote(cmd, ends, len, i) == Some(cmd[i]),
        i < cmd.len() && (cmd[i] == '\'' || cmd[i] == '"') && ends[i] is Some && ends[i]->0 <= len
            ==> open_quote(cmd, ends, len, i) == open_quote(cmd, ends, len, ends[i]->0 + 1),
        i + 1 < cmd.len() && cmd[i] == '\\' ==> open_quote(cmd, ends, len, i) == open_quote(
            cmd,
            ends,
            len,
            i + 2,
        ),
        i < cmd.len() && cmd[i] != '\'' && cmd[i] != '"' && cmd[i] != '\\' ==> open_quote(
            cmd,
            ends,
            len,
            i,
        ) == open_quote(cmd, ends, len, i + 1),
    decreases cmd.len() - i,
{
    if i < cmd.len() {
        if cmd[i] == '\\' {
            if i + 2 <= cmd.len() {
                law_open_quote(cmd, ends, len, i + 2);
            }
        } else if cmd[i] != '\'' && cmd[i] != '"' {
            law_open_quote(cmd, ends, len, i + 1);
        }
    }
}

/// A completion is escaped as a token of its own if it replaces the token, and for the quote that it
/// goes into otherwise. It is put into quotes of its own only if it is the only one, a space follows,
/// and it does not go on with a token. One that replaces the line, or asks not to be, is not escaped.
pub proof fn law_escaping(
    flags: CompleteFlags,
    line: Seq<char>,
    cursor: int,
    append_only: bool,
    is_unique: bool,
    ctx: ContextView,
)
    ensures
        ({
            let e = escape_needed(flags, line, cursor, append_only, is_unique, ctx);
            let goes_on = ctx.token.start < ctx.token.end && ctx.token.start <= cursor
                <= ctx.token.end;
            &&& e is None <==> flags.replaces_line || flags.dont_escape
            &&& e matches Some(EscapeRequest::Script(f)) ==> {
                &&& flags.replaces_token
                &&& f.no_quoted <==> append_only || !is_unique || flags.no_space
                &&& f.no_tilde == flags.dont_escape_tildes
            }
            &&& e matches Some(EscapeRequest::WithQuote(q, f)) ==> {
                &&& !flags.replaces_token
                &&& f.no_quoted <==> append_only || !is_unique || flags.no_space || goes_on
                &&& f.no_tilde == flags.dont_escape_tildes
                &&& append_only && cursor < ctx.token.start ==> q is None
                &&& append_only && ctx.token.start <= cursor <= ctx.token.end ==> q == open_quote(
                    line.subrange(ctx.token.start, ctx.token.end),
                    ctx.quote_ends,
                    cursor - ctx.token.start,
                    0,
                )
                &&& !append_only && q is None && cursor > 0 ==> quote_at(line, cursor - 1) is None
            }
        }),
{
}

/// A path is looked up only for the name of a variable behind which something is to stand, and it is
/// the token as it is with the completion.
pub proof fn law_path_is_token(
    val: Seq<char>,
    flags: CompleteFlags,
    line: Seq<char>,
    cursor: int,
    append_only: bool,
    ctx: ContextView,
)
    requires
        applicable(flags, line, cursor, ctx),
        ctx.token.start <= cursor,
    ensures
        ({
            let p = path_asked(val, flags, line, cursor, append_only, ctx);
            let a = applied(val, flags, line, cursor, append_only, ctx);
            let size = if flags.dont_escape {
                val.len()
            } else {
                ctx.escaped.len()
            };
            &&& p is Some <==> !flags.replaces_line && !flags.no_space && flags.variable_name
            &&& p is Some && flags.replaces_token ==> p == Some(val)
            &&& p is Some && !flags.replaces_token ==> p == Some(
                a.line.subrange(ctx.token.start, cursor + size),
            )
        }),
{
    let p = path_asked(val, flags, line, cursor, append_only, ctx);
    let a = applied(val, flags, line, cursor, append_only, ctx);
    let size = if flags.dont_escape {
        val.len()
    } else {
        ctx.escaped.len()
    };
    if p is Some && !flags.replaces_token {
        assert(p->0 =~= a.line.subrange(ctx.token.start, cursor + size));
    }
}

/// A token can be replaced if the completion is not escaped, or if it holds none of the characters
/// that mean something wherever they stand.
pub proof fn law_replaceable(tok: Seq<char>, flags: CompleteFlags)
    ensures
        can_replace(tok, flags) <==> flags.dont_escape || (!tok.contains('$') && !tok.contains('*')
            && !tok.contains('?') && !tok.contains('(') && !tok.contains(')') && !tok.contains('{')
            && !tok.contains('}')),
{
    if !can_replace(tok, flags) {
        let i = choose|i: int| 0 <= i < tok.len() && crate::completion::special(#[trigger] tok[i]);
        assert(tok.contains(tok[i]));
    }
    if can_replace(tok, flags) && !flags.dont_escape {
        assert forall|c: char| tok.contains(c) implies !crate::completion::special(c) by {
            let i = choose|i: int| 0 <= i < tok.len() && tok[i] == c;
            assert(!crate::completion::special(tok[i]));
        }
        assert(crate::completion::special('$') && crate::completion::special('*'));
    }
}

/// A completion that no other beats, that replaces the token only if all such do, and whose token can
/// be replaced in that case.
pub open spec fn usable(comp: Seq<CompletionView>, tok: Seq<char>, i: int) -> bool {
    &&& 0 <= i < comp.len()
    &&& forall|j: int| 0 <= j < comp.len() ==> comp[i].rank <= (#[trigger] comp[j]).rank
    &&& comp[i].flags.replaces_token ==> {
        &&& forall|j: int|
            0 <= j < comp.len() && (#[trigger] comp[j]).rank == comp[i].rank
                ==> comp[j].flags.replaces_token
        &&& can_replace(tok, comp[i].flags)
    }
}

/// The indices of the usable completions below `n`.
pub open spec fn usable_below(comp: Seq<CompletionView>, tok: Seq<char>, n: int) -> Seq<int>
    decreases n,
{
    if n <= 0 {
        Seq::empty()
    } else if usable(comp, tok, n - 1) {
        usable_below(comp, tok, n - 1).push(n - 1)
    } else {
        usable_below(comp, tok, n - 1)
    }
}

/// `used` are the indices of the usable completions, in their order.
pub open spec fn are_usable(comp: Seq<CompletionView>, tok: Seq<char>, used: Seq<int>) -> bool {
    &&& forall|k: int| 0 <= k < used.len() ==> usable(comp, tok, #[trigger] used[k])
    &&& forall|k: int, l: int| 0 <= k < l < used.len() ==> #[trigger] used[k] < #[trigger] used[l]
    &&& forall|i: int| #[trigger] usable(comp, tok, i) ==> used.contains(i)
}

proof fn lemma_usable_below(comp: Seq<CompletionView>, tok: Seq<char>, n: int)
    requires
        0 <= n <= comp.len(),
    ensures
        ({
            let used = usable_below(comp, tok, n);
            let left = crate::choice::surviving(
                comp.take(n),
                best_rank(comp),
                will_replace_token(comp),
                tok,
            );
            &&& forall|k: int|
                0 <= k < used.len() ==> usable(comp, tok, #[trigger] used[k]) && used[k] < n
            &&& forall|k: int, l: int|
                0 <= k < l < used.len() ==> #[trigger] used[k] < #[trigger] used[l]
            &&& forall|i: int| #[trigger] usable(comp, tok, i) && i < n ==> used.contains(i)
            &&& left.len() == used.len()
            &&& forall|k: int| 0 <= k < used.len() ==> #[trigger] left[k] == comp[used[k]]
        }),
    decreases n,
{
    if n > 0 {
        lemma_usable_below(comp, tok, n - 1);
        lemma_best_rank(comp);
        assert(comp.take(n).drop_last() =~= comp.take(n - 1));
        let used = usable_below(comp, tok, n);
        let before = usable_below(comp, tok, n - 1);
        let c = comp[n - 1];
        let best = best_rank(comp);
        let b = choose|b: int| 0 <= b < comp.len() && (#[trigger] comp[b]).rank == best;
        let replace = will_replace_token(comp);
        assert(usable(comp, tok, n - 1) <==> crate::choice::survives(c, best, replace, tok)) by {
            if usable(comp, tok, n - 1) {
                assert(c.rank <= comp[b].rank);
                if !c.flags.replaces_token {
                    assert(comp[n - 1].rank <= best);
                }
            }
            if crate::choice::survives(c, best, replace, tok) {
                assert forall|j: int| 0 <= j < comp.len() implies c.rank <= (
                #[trigger] comp[j]).rank by {}
            }
        }
        assert forall|i: int| #[trigger] usable(comp, tok, i) && i < n implies used.contains(
            i,
        ) by {
            if i == n - 1 {
                assert(used[used.len() - 1] == i);
            } else {
                let k = choose|k: int| 0 <= k < before.len() && before[k] == i;
                assert(used[k] == i);
            }
        }
    }
}

/// Without completions nothing is done, and the only one is inserted. Of several, those count that
/// are usable: if there is one, it is inserted; otherwise they are all listed, in their order. What
/// is inserted before is how all of them go on, and as long as possible. It is inserted if each
/// matched what was typed as it is, and if it makes the line longer; what is listed is what is then
/// left of each.
pub proof fn law_completions_are_chosen(
    comp: Seq<CompletionView>,
    tok: Seq<char>,
    ellipsis: char,
) -> (used: Seq<int>)
    ensures
        are_usable(comp, tok, used),
        match choice(comp, tok, ellipsis) {
            ChoiceView::Nothing => comp.len() == 0,
            ChoiceView::Insert(c) => {
                ||| comp.len() == 1 && c == comp[0]
                ||| comp.len() > 1 && used.len() == 1 && c == comp[used[0]]
            },
            ChoiceView::List { insert, prefix, list } => {
                let exact = forall|k: int|
                    0 <= k < used.len() ==> comp[#[trigger] used[k]].exact_or_prefix;
                &&& comp.len() > 1
                &&& used.len() != 1
                &&& list.len() == used.len()
                &&& insert is None ==> {
                    &&& forall|k: int| 0 <= k < used.len() ==> #[trigger] list[k] == comp[used[k]]
                    &&& used.len() > 0 && exact ==> forall|longer: Seq<char>|
                        (forall|k: int|
                            0 <= k < used.len() ==> longer.is_prefix_of(
                                comp[#[trigger] used[k]].completion,
                            )) ==> #[trigger] longer.len() <= if comp[used[0]].flags.replaces_token {
                            tok.len()
                        } else {
                            0
                        }
                }
                &&& insert matches Some((text, flags)) ==> {
                    &&& exact
                    &&& used.len() > 0
                    &&& flags == CompleteFlags { no_space: true, ..comp[used[0]].flags }
                    &&& text.len() > if flags.replaces_token {
                        tok.len()
                    } else {
                        0
                    }
                    &&& forall|k: int|
                        #![trigger used[k]]
                        #![trigger list[k]]
                        0 <= k < used.len() ==> {
                            &&& text + list[k].completion == comp[used[k]].completion
                            &&& list[k].description == comp[used[k]].description
                            &&& !list[k].flags.replaces_token
                        }
                    &&& forall|longer: Seq<char>|
                        (forall|k: int|
                            0 <= k < used.len() ==> longer.is_prefix_of(
                                comp[#[trigger] used[k]].completion,
                            )) ==> #[trigger] longer.len() <= text.len()
                }
            },
        },
{
    let used = usable_below(comp, tok, comp.len() as int);
    lemma_usable_below(comp, tok, comp.len() as int);
    assert(comp.take(comp.len() as int) =~= comp);
    let left = survivors(comp, tok);
    let common = common_prefix(left);
    lemma_common_prefix(left, Seq::empty());
    assert forall|longer: Seq<char>|
        left.len() > 0 && (forall|k: int|
            0 <= k < used.len() ==> longer.is_prefix_of(
                comp[#[trigger] used[k]].completion,
            )) implies #[trigger] longer.len() <= common.len() by {
        assert forall|k: int| 0 <= k < left.len() implies longer.is_prefix_of(
            (#[trigger] left[k]).completion,
        ) by {
            assert(left[k] == comp[used[k]]);
        }
        lemma_common_prefix(left, longer);
    }
    if used.len() > 0 {
        assert(left[0] == comp[used[0]]);
        assert(usable(comp, tok, used[0]));
        lemma_survivors(comp, best_rank(comp), will_replace_token(comp), tok);
    }
    if let ChoiceView::List { insert, prefix, list } = choice(comp, tok, ellipsis) {
        let exact = forall|k: int|
            0 <= k < used.len() ==> comp[#[trigger] used[k]].exact_or_prefix;
        assert(exact <==> crate::choice::all_exact_or_prefix(left)) by {
            if exact {
                assert forall|k: int| 0 <= k < left.len() implies (
                #[trigger] left[k]).exact_or_prefix by {
                    assert(left[k] == comp[used[k]]);
                }
            }
            if crate::choice::all_exact_or_prefix(left) {
                assert forall|k: int| 0 <= k < used.len() implies comp[
                    #[trigger] used[k]
                ].exact_or_prefix by {
                    assert(left[k] == comp[used[k]]);
                }
            }
        }
        if let Some((text, flags)) = insert {
            assert forall|k: int|
                #![trigger used[k]]
                #![trigger list[k]]
                0 <= k < used.len() implies {
                &&& text + list[k].completion == comp[used[k]].completion
                &&& list[k].description == comp[used[k]].description
                &&& !list[k].flags.replaces_token
            } by {
                assert(left[k] == comp[used[k]]);
                assert(common.is_prefix_of(left[k].completion));
                assert(common + left[k].completion.skip(common.len() as int)
                    =~= left[k].completion);
            }
        }
    }
    used
}

proof fn lemma_last_component(s: Seq<char>)
    ensures
        ({
            let c = crate::choice::last_component(s);
            let n = s.len() - c.len();
            &&& 0 <= n
            &&& c == s.skip(n)
            &&& !c.contains('/')
            &&& n == 0 || s[n - 1] == '/'
        }),
    decreases s.len(),
{
    let c = crate::choice::last_component(s);
    if s.len() == 0 || s.last() == '/' {
        assert(c =~= s.skip(s.len() as int));
    } else {
        lemma_last_component(s.drop_last());
        let before = crate::choice::last_component(s.drop_last());
        let n = s.len() - c.len();
        assert(c =~= s.skip(n));
        assert forall|i: int| 0 <= i < c.len() implies c[i] != '/' by {
            if i < before.len() {
                assert(before.contains(before[i]));
            }
        }
    }
}

/// What stands before a list is shown in full if it has at most nine characters. A longer one is cut
/// to its last nine characters, or to what follows the last slash in them, and marked by an ellipsis.
pub proof fn law_list_prefix_is_cut(whole: Seq<char>, ellipsis: char, tok: Seq<char>, more: Seq<char>)
    requires
        whole == tok + more,
    ensures
        ({
            let prefix = crate::choice::list_prefix(tok, more, false, true, more.len() > 0, ellipsis);
            let n = whole.len() as int;
            let cut = whole.skip(n - 9);
            &&& n <= 9 ==> prefix == whole
            &&& n > 9 ==> {
                &&& 1 <= prefix.len() <= 10
                &&& prefix[0] == ellipsis
                &&& prefix.skip(1) == whole.skip(n - (prefix.len() - 1))
                &&& !cut.contains('/') ==> prefix.len() == 10
                &&& cut.contains('/') ==> prefix.len() > 1 && prefix[1] == '/' && !prefix.skip(
                    2,
                ).contains('/')
            }
        }),
{
    let prefix = crate::choice::list_prefix(tok, more, false, true, more.len() > 0, ellipsis);
    let n = whole.len() as int;
    if n > 9 {
        let cut = whole.skip(n - 9);
        lemma_last_component(cut);
        if cut.contains('/') {
            let c = crate::choice::last_component(cut);
            assert(prefix.skip(2) =~= c);
            assert(c.len() < 9) by {
                if c.len() >= 9 {
                    assert(c =~= cut);
                }
            }
            assert(prefix.skip(1) =~= whole.skip(n - (prefix.len() - 1)));
        } else {
            assert(prefix.skip(1) =~= cut);
        }
    }
}

/// Before the listed completions stands the beginning that they share, if they are appended to what
/// was typed and each matched it as it is. Otherwise only what was inserted stands there.
pub proof fn law_list_prefix(comp: Seq<CompletionView>, tok: Seq<char>, ellipsis: char)
    ensures
        choice(comp, tok, ellipsis) matches ChoiceView::List { insert, prefix, list } ==> {
            let text = match insert {
                Some((text, _)) => text,
                None => Seq::empty(),
            };
            let appended = (exists|i: int| usable(comp, tok, i) && !comp[i].flags.replaces_token)
                && forall|i: int| #[trigger] usable(comp, tok, i) ==> comp[i].exact_or_prefix;
            &&& !appended && list.len() > 0 ==> prefix == text
            &&& appended ==> prefix == crate::choice::list_prefix(
                tok,
                text,
                false,
                true,
                text.len() > 0,
                ellipsis,
            )
        },
{
    if let ChoiceView::List { insert, prefix, list } = choice(comp, tok, ellipsis) {
        let left = survivors(comp, tok);
        lemma_usable_below(comp, tok, comp.len() as int);
        assert(comp.take(comp.len() as int) =~= comp);
        let below = usable_below(comp, tok, comp.len() as int);
        let appended = (exists|i: int| usable(comp, tok, i) && !comp[i].flags.replaces_token)
            && forall|i: int| #[trigger] usable(comp, tok, i) ==> comp[i].exact_or_prefix;
        lemma_usable_replace(comp, tok);
        if appended {
            let i = choose|i: int| usable(comp, tok, i) && !comp[i].flags.replaces_token;
            assert(!will_replace_token(comp));
            assert forall|k: int| 0 <= k < left.len() implies (
            #[trigger] left[k]).exact_or_prefix by {
                assert(usable(comp, tok, below[k]));
            }
            if insert is None {
                assert(common_prefix(left) =~= Seq::empty());
            }
        } else if list.len() > 0 && !will_replace_token(comp) {
            assert(left[0] == comp[below[0]]);
            assert(usable(comp, tok, below[0]));
            let i = choose|i: int| #[trigger] usable(comp, tok, i) && !comp[i].exact_or_prefix;
            let k = choose|k: int| 0 <= k < below.len() && below[k] == i;
            assert(left[k] == comp[i]);
            assert(!crate::choice::all_exact_or_prefix(left));
        }
    }
}

/// The usable completions replace the token if that is to be replaced, and none else.
proof fn lemma_usable_replace(comp: Seq<CompletionView>, tok: Seq<char>)
    ensures
        forall|i: int| #[trigger]
            usable(comp, tok, i) ==> comp[i].flags.replaces_token == will_replace_token(comp),
{
    lemma_best_rank(comp);
    assert forall|i: int| #[trigger] usable(comp, tok, i) implies comp[i].flags.replaces_token
        == will_replace_token(comp) by {
        let b = choose|b: int| 0 <= b < comp.len() && (#[trigger] comp[b]).rank == best_rank(comp);
        assert(comp[i].rank <= comp[b].rank);
        assert(best_rank(comp) <= comp[i].rank);
        if comp[i].flags.replaces_token {
            assert forall|j: int|
                0 <= j < comp.len() && (#[trigger] comp[j]).rank <= best_rank(
                    comp,
                ) implies comp[j].flags.replaces_token by {
                assert(best_rank(comp) <= comp[j].rank);
            }
        }
    }
}

} // verus!

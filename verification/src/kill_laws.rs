//! What the commands that kill and yank promise.

use crate::command::ReadlineCmd;
use crate::data::{CursorEndMode, DataView, EditableLineTag, Kill};
use crate::edit::{lemma_edited, lemma_moved};
use crate::edit_laws::{has_killed, law_line_is_edited, lemma_has_killed};
use crate::event::{ReaderView, TerminalState};
use crate::flags::Flag;
use crate::motion::leading;
use crate::readline::SurroundingsView;
use crate::suggestion_laws::{bounds_line, law_line_bounds};
use std::ops::Range;
use vstd::prelude::*;

verus! {

/// The first `n` answers say yes, and no more do, of as many as there is room for.
pub open spec fn leads(answers: Seq<bool>, n: int, room: int) -> bool {
    &&& 0 <= n <= room
    &&& n <= answers.len()
    &&& forall|i: int| 0 <= i < n ==> #[trigger] answers[i]
    &&& n < room && n < answers.len() ==> !answers[n]
}

/// A word goes on as long as the answers say so.
pub proof fn law_leading(answers: Seq<bool>, room: int)
    requires
        0 <= room,
    ensures
        leads(answers, leading(answers, room), room),
        forall|n: int| #[trigger] leads(answers, n, room) ==> n == leading(answers, room),
    decreases room,
{
    let m = leading(answers, room);
    if room > 0 && answers.len() > 0 && answers[0] {
        law_leading(answers.skip(1), room - 1);
        let rest = leading(answers.skip(1), room - 1);
        assert forall|i: int| 0 <= i < m implies #[trigger] answers[i] by {
            if i > 0 {
                assert(answers.skip(1)[i - 1]);
            }
        }
        if m < room && m < answers.len() {
            assert(!answers.skip(1)[rest]);
        }
    }
    assert forall|n: int| #[trigger] leads(answers, n, room) implies n == m by {
        if n < m {
            assert(answers[n]);
        } else if n > m {
            assert(answers[m]);
        }
    }
}

/// The same command was given just before.
pub open spec fn repeats(d: DataView, c: ReadlineCmd) -> bool {
    d.rls->0.last_cmd == Some(c)
}

/// A word was killed backwards just before.
pub open spec fn repeats_word(d: DataView) -> bool {
    repeats(d, ReadlineCmd::BackwardKillWord) || repeats(d, ReadlineCmd::BackwardKillBigword)
        || repeats(d, ReadlineCmd::BackwardKillPathComponent)
}

/// At least one character is killed.
pub open spec fn at_least_one(n: int) -> int {
    if n < 1 {
        1
    } else {
        n
    }
}

/// Killing the line takes what stands between the cursor and the end of the line, or the newline if
/// the cursor is there, or nothing at the end of the text. Killing it backwards takes what stands
/// between the beginning of the line and the cursor, or the newline before it. What is killed by the
/// same command again is added to what was killed before, on its side.
pub proof fn law_kill_line(reader: ReaderView, env: SurroundingsView, t: TerminalState)
    requires
        reader.data.wf(),
        reader.data.rls is Some,
    ensures
        ({
            let d = reader.data;
            let text = d.active_line().text;
            let pos = d.active_line().position;
            let next = reader.commanded(ReadlineCmd::KillLine, env, t).data;
            let back = reader.commanded(ReadlineCmd::BackwardKillLine, env, t).data;
            let again = repeats(d, ReadlineCmd::KillLine);
            let again_back = repeats(d, ReadlineCmd::BackwardKillLine);
            forall|from: int, to: int| #[trigger]
                bounds_line(text, pos, from, to) ==> {
                    &&& to > pos ==> has_killed(d, next, pos, to, false, again)
                    &&& to == pos && pos < text.len() ==> has_killed(
                        d,
                        next,
                        pos,
                        pos + 1,
                        false,
                        again,
                    )
                    &&& pos == text.len() ==> next == d
                    &&& from < pos ==> has_killed(d, back, from, pos, true, again_back)
                    &&& from == pos && pos > 0 ==> has_killed(
                        d,
                        back,
                        pos - 1,
                        pos,
                        true,
                        again_back,
                    )
                    &&& pos == 0 ==> back == d
                }
        }),
{
    reveal(DataView::kill_command);
    let d = reader.data;
    let text = d.active_line().text;
    let pos = d.active_line().position;
    law_line_bounds(text, pos);
    let r = d.rest_of_line();
    if r.start < r.end {
        lemma_has_killed(d, r, Kill::Append, !repeats(d, ReadlineCmd::KillLine));
    }
    if pos > 0 {
        let quiet = d.quieted(d.active_tag());
        let start = crate::text::line_start(text, pos);
        let q = Range {
            start: if start < pos {
                start
            } else {
                pos - 1
            },
            end: pos,
        };
        lemma_has_killed(quiet, q, Kill::Prepend, !repeats(d, ReadlineCmd::BackwardKillLine));
    }
}

/// Killing the whole line takes it with the newline behind it, or with the one before it if it is the
/// last line. Killing the inner line takes it without newlines.
pub proof fn law_kill_whole_line(reader: ReaderView, env: SurroundingsView, t: TerminalState)
    requires
        reader.data.wf(),
        reader.data.rls is Some,
    ensures
        ({
            let d = reader.data;
            let text = d.active_line().text;
            let pos = d.active_line().position;
            let n = text.len() as int;
            let whole = reader.commanded(ReadlineCmd::KillWholeLine, env, t).data;
            let inner = reader.commanded(ReadlineCmd::KillInnerLine, env, t).data;
            let again = repeats(d, ReadlineCmd::KillWholeLine);
            let again_inner = repeats(d, ReadlineCmd::KillInnerLine);
            forall|from: int, to: int| #[trigger]
                bounds_line(text, pos, from, to) ==> {
                    &&& to < n ==> has_killed(d, whole, from, to + 1, false, again)
                    &&& to == n && from > 0 ==> has_killed(d, whole, from - 1, to, false, again)
                    &&& to == n && from == 0 && n > 0 ==> has_killed(
                        d,
                        whole,
                        0,
                        n,
                        false,
                        again,
                    )
                    &&& n == 0 ==> whole == d
                    &&& from < to ==> has_killed(d, inner, from, to, false, again_inner)
                    &&& from == to ==> inner == d
                }
        }),
{
    reveal(DataView::kill_command);
    let d = reader.data;
    law_line_bounds(d.active_line().text, d.active_line().position);
    let r = d.line_extent(true);
    if r.start < r.end {
        lemma_has_killed(d, r, Kill::Append, !repeats(d, ReadlineCmd::KillWholeLine));
    }
    let q = d.line_extent(false);
    if q.start < q.end {
        lemma_has_killed(d, q, Kill::Append, !repeats(d, ReadlineCmd::KillInnerLine));
    }
}

proof fn lemma_word_killed(d: DataView, right: bool, word: Seq<bool>, newv: bool)
    requires
        d.wf(),
    ensures
        ({
            let elt = d.active_tag();
            let n = d.active_line().text.len() as int;
            let pos = d.active_line().position;
            let back = d.word_moved(elt, crate::motion::MoveWordDir::Left, true, word, newv);
            let ahead = d.word_moved(elt, crate::motion::MoveWordDir::Right, true, word, newv);
            &&& pos == 0 ==> back == d
            &&& pos == n ==> ahead == d
            &&& pos > 0 ==> forall|k: int| #[trigger]
                leads(word, k, pos) ==> has_killed(d, back, pos - at_least_one(k), pos, true, !newv)
            &&& pos < n ==> forall|k: int| #[trigger]
                leads(word, k, n - pos) ==> has_killed(
                    d,
                    ahead,
                    pos,
                    pos + at_least_one(k),
                    false,
                    !newv,
                )
        }),
{
    let elt = d.active_tag();
    let n = d.active_line().text.len() as int;
    let pos = d.active_line().position;
    let quiet = if elt == EditableLineTag::Commandline {
        d.with_flag(Flag::SuppressAutosuggestion, true)
    } else {
        d
    };
    law_leading(word, pos);
    law_leading(word, n - pos);
    if pos > 0 {
        let k = at_least_one(leading(word, pos));
        lemma_has_killed(quiet, Range { start: pos - k, end: pos }, Kill::Prepend, newv);
    }
    if pos < n {
        let k = at_least_one(leading(word, n - pos));
        lemma_has_killed(quiet, Range { start: pos, end: pos + k }, Kill::Append, newv);
    }
}

/// The answers that tell how far a word goes, for a command that kills one.
pub open spec fn killed_word(c: ReadlineCmd, env: SurroundingsView) -> Seq<bool> {
    if c == ReadlineCmd::BackwardKillPathComponent {
        env.words.path_components
    } else if c == ReadlineCmd::BackwardKillBigword || c == ReadlineCmd::KillBigword {
        env.words.whitespace
    } else {
        env.words.punctuation
    }
}

/// Killing a word backwards takes what stands before the cursor as far as the word goes, and at least
/// one character. It is added in front of what was killed before, if that was a word killed
/// backwards, whatever kind of word.
pub proof fn law_kill_word_backwards(
    reader: ReaderView,
    c: ReadlineCmd,
    env: SurroundingsView,
    t: TerminalState,
)
    requires
        reader.data.wf(),
        reader.data.rls is Some,
        c == ReadlineCmd::BackwardKillWord || c == ReadlineCmd::BackwardKillBigword || c
            == ReadlineCmd::BackwardKillPathComponent,
    ensures
        ({
            let d = reader.data;
            let pos = d.active_line().position;
            let next = reader.commanded(c, env, t).data;
            &&& pos == 0 ==> next == d
            &&& pos > 0 ==> forall|k: int| #[trigger]
                leads(killed_word(c, env), k, pos) ==> has_killed(
                    d,
                    next,
                    pos - at_least_one(k),
                    pos,
                    true,
                    repeats_word(d),
                )
        }),
{
    reveal(DataView::kill_command);
    lemma_word_killed(reader.data, false, killed_word(c, env), !repeats_word(reader.data));
}

/// Killing a word takes what stands behind the cursor as far as the word goes, and at least one
/// character.
pub proof fn law_kill_word(
    reader: ReaderView,
    c: ReadlineCmd,
    env: SurroundingsView,
    t: TerminalState,
)
    requires
        reader.data.wf(),
        reader.data.rls is Some,
        c == ReadlineCmd::KillWord || c == ReadlineCmd::KillBigword,
    ensures
        ({
            let d = reader.data;
            let n = d.active_line().text.len() as int;
            let pos = d.active_line().position;
            let next = reader.commanded(c, env, t).data;
            &&& pos == n ==> next == d
            &&& pos < n ==> forall|k: int| #[trigger]
                leads(killed_word(c, env), k, n - pos) ==> has_killed(
                    d,
                    next,
                    pos,
                    pos + at_least_one(k),
                    false,
                    repeats(d, c),
                )
        }),
{
    reveal(DataView::kill_command);
    lemma_word_killed(reader.data, true, killed_word(c, env), !repeats(reader.data, c));
}

/// Killing a token backwards takes what stands between its beginning and the cursor; if the cursor is
/// at its beginning, the token before it goes too; if that begins there as well, everything back to
/// the parenthesis that the command stands in, or to the beginning.
pub proof fn law_kill_token_backwards(reader: ReaderView, env: SurroundingsView, t: TerminalState)
    requires
        reader.data.wf(),
        reader.data.rls is Some,
        0 <= env.token.token.start <= reader.data.active_line().position,
        0 <= env.token.previous.start <= reader.data.active_line().position,
        0 <= env.token.previous_cmdsub_start <= reader.data.active_line().position,
    ensures
        ({
            let d = reader.data;
            let pos = d.active_line().position;
            let next = reader.commanded(ReadlineCmd::BackwardKillToken, env, t).data;
            let again = repeats(d, ReadlineCmd::BackwardKillToken);
            let a = env.token.token.start;
            let b = env.token.previous.start;
            let p = env.token.previous_cmdsub_start;
            &&& pos == 0 ==> next == d
            &&& a < pos ==> has_killed(d, next, a, pos, true, again)
            &&& a == pos && b < pos ==> has_killed(d, next, b, pos, true, again)
            &&& a == pos && b == pos && p > 0 ==> has_killed(d, next, p - 1, pos, true, again)
            &&& a == pos && b == pos && p == 0 && pos > 0 ==> has_killed(
                d,
                next,
                0,
                pos,
                true,
                again,
            )
        }),
{
    reveal(DataView::kill_command);
    let d = reader.data;
    let pos = d.active_line().position;
    match d.token_back(env.token) {
        Some(p) => {
            lemma_has_killed(
                d.quieted(d.active_tag()),
                Range { start: p, end: pos },
                Kill::Prepend,
                !repeats(d, ReadlineCmd::BackwardKillToken),
            );
        },
        None => {},
    }
}

/// The first string token that ends behind the cursor is the `k`th.
pub open spec fn is_next_token(env: SurroundingsView, pos: int, k: int) -> bool {
    &&& 0 <= k < env.tokens.len()
    &&& env.tokens[k].is_string
    &&& env.cmdsub_start + env.tokens[k].end > pos
    &&& forall|j: int|
        0 <= j < k ==> !((#[trigger] env.tokens[j]).is_string && env.cmdsub_start
            + env.tokens[j].end > pos)
}

/// The next token ends where the first string token behind the cursor does.
pub proof fn law_next_token(tokens: Seq<crate::cursor::LexedToken>, start: int, pos: int)
    ensures
        ({
            let found = crate::cursor::next_token_end(tokens, start, pos);
            &&& found is None <==> forall|j: int|
                0 <= j < tokens.len() ==> !((#[trigger] tokens[j]).is_string && start
                    + tokens[j].end > pos)
            &&& forall|k: int|
                0 <= k < tokens.len() && (#[trigger] tokens[k]).is_string && start + tokens[k].end
                    > pos && (forall|j: int|
                    0 <= j < k ==> !((#[trigger] tokens[j]).is_string && start + tokens[j].end
                        > pos)) ==> found == Some(start + tokens[k].end)
        }),
    decreases tokens.len(),
{
    if tokens.len() > 0 && !(tokens[0].is_string && start + tokens[0].end > pos) {
        let rest = tokens.skip(1);
        law_next_token(rest, start, pos);
        assert(forall|j: int| 0 <= j < rest.len() ==> rest[j] == tokens[j + 1]);
        assert(forall|j: int| 0 < j < tokens.len() ==> tokens[j] == rest[j - 1]);
    }
}

/// Killing a token takes what stands between the cursor and the end of the next token, or everything
/// behind the cursor if no token ends there.
pub proof fn law_kill_token(reader: ReaderView, env: SurroundingsView, t: TerminalState)
    requires
        reader.data.wf(),
        reader.data.rls is Some,
        forall|i: int|
            #![trigger env.tokens[i]]
            0 <= i < env.tokens.len() ==> env.cmdsub_start + env.tokens[i].end
                <= reader.data.active_line().text.len(),
    ensures
        ({
            let d = reader.data;
            let n = d.active_line().text.len() as int;
            let pos = d.active_line().position;
            let next = reader.commanded(ReadlineCmd::KillToken, env, t).data;
            let again = repeats(d, ReadlineCmd::KillToken);
            &&& pos == n ==> next == d
            &&& pos < n ==> forall|k: int| #[trigger]
                is_next_token(env, pos, k) ==> has_killed(
                    d,
                    next,
                    pos,
                    env.cmdsub_start + env.tokens[k].end,
                    false,
                    again,
                )
            &&& pos < n && (forall|k: int|
                0 <= k < env.tokens.len() ==> !((#[trigger] env.tokens[k]).is_string
                    && env.cmdsub_start + env.tokens[k].end > pos)) ==> has_killed(
                d,
                next,
                pos,
                n,
                false,
                again,
            )
        }),
{
    reveal(DataView::kill_command);
    let d = reader.data;
    let pos = d.active_line().position;
    law_next_token(env.tokens, env.cmdsub_start, pos);
    match d.token_forward(false, env.cmdsub_start, env.tokens) {
        Some(p) => {
            lemma_next_token_fits(env, pos, d.active_line().text.len() as int);
            lemma_has_killed(
                d.quieted(d.active_tag()),
                Range { start: pos, end: p },
                Kill::Append,
                !repeats(d, ReadlineCmd::KillToken),
            );
        },
        None => {},
    }
}

proof fn lemma_next_token_fits(env: SurroundingsView, pos: int, n: int)
    requires
        forall|i: int|
            #![trigger env.tokens[i]]
            0 <= i < env.tokens.len() ==> env.cmdsub_start + env.tokens[i].end <= n,
    ensures
        crate::cursor::next_token_end(env.tokens, env.cmdsub_start, pos) matches Some(p) ==> pos < p
            <= n,
    decreases env.tokens.len(),
{
    if env.tokens.len() > 0 {
        let rest = env.tokens.skip(1);
        assert(forall|j: int| 0 <= j < rest.len() ==> rest[j] == env.tokens[j + 1]);
        assert(env.cmdsub_start + env.tokens[0].end <= n);
        lemma_next_token_fits(SurroundingsView { tokens: rest, ..env }, pos, n);
    }
}

/// Killing the selection takes what is selected, as far as there is text.
pub proof fn law_kill_selection(reader: ReaderView, env: SurroundingsView, t: TerminalState)
    requires
        reader.data.wf(),
        reader.data.rls is Some,
        reader.data.active_tag() == EditableLineTag::Commandline,
        reader.data.selection matches Some(s) ==> s.start <= s.stop,
    ensures
        ({
            let d = reader.data;
            let n = d.command_line.text.len() as int;
            let next = reader.commanded(ReadlineCmd::KillSelection, env, t).data;
            let again = repeats(d, ReadlineCmd::KillSelection);
            &&& d.selection is None ==> next == d
            &&& d.selection matches Some(s) ==> {
                &&& s.start < s.stop <= n ==> has_killed(
                    d,
                    next,
                    s.start as int,
                    s.stop as int,
                    false,
                    again,
                )
                &&& s.start < n < s.stop ==> has_killed(d, next, s.start as int, n, false, again)
                &&& s.start == s.stop || s.start >= n ==> next == d
            }
        }),
{
    reveal(DataView::kill_command);
    let d = reader.data;
    match d.selected_range() {
        Some(r) => {
            lemma_has_killed(d, r, Kill::Append, !repeats(d, ReadlineCmd::KillSelection));
        },
        None => {},
    }
}

/// Yanking inserts at the cursor, which goes behind what was inserted, and its length is kept.
/// Popping a yank puts another text in the place of what was yanked, and does nothing where nothing
/// was.
pub proof fn law_yank(reader: ReaderView, env: SurroundingsView, t: TerminalState)
    requires
        reader.data.wf(),
        reader.data.rls is Some,
        reader.data.end_mode == CursorEndMode::Exclusive,
        0 <= reader.data.rls->0.yank_len <= reader.data.active_line().position,
    ensures
        ({
            let d = reader.data;
            let text = d.active_line().text;
            let pos = d.active_line().position;
            let k = d.rls->0.yank_len;
            let n = env.yank.len() as int;
            let next = reader.commanded(ReadlineCmd::Yank, env, t).data;
            let popped = reader.commanded(ReadlineCmd::YankPop, env, t).data;
            &&& next.active_tag() == d.active_tag()
            &&& next.active_line().text == text.take(pos) + env.yank + text.skip(pos)
            &&& next.active_line().position == pos + n
            &&& next.rls->0.yank_len == n
            &&& k == 0 ==> popped == d
            &&& k > 0 ==> {
                &&& popped.active_line().text == text.take(pos - k) + env.yank + text.skip(pos)
                &&& popped.active_line().position == pos - k + n
                &&& popped.rls->0.yank_len == n
            }
        }),
{
    reveal(DataView::kill_command);
    let d = reader.data;
    let elt = d.active_tag();
    let pos = d.active_line().position;
    let k = d.rls->0.yank_len;
    let at = Range { start: pos, end: pos };
    lemma_edited(d, elt, at, env.yank, !d.search.active());
    law_line_is_edited(d.active_line(), at, env.yank, !d.search.active());
    let quiet = d.with_flag(Flag::SuppressAutosuggestion, true);
    let r = Range { start: pos - k, end: pos };
    lemma_edited(quiet, elt, r, env.yank, false);
    law_line_is_edited(d.active_line(), r, env.yank, false);
    lemma_moved(quiet.replaced(elt, r, env.yank), elt, None);
}

} // verus!

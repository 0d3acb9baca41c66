//! What searching the history promises.

use crate::action::ActionView;
use crate::command::ReadlineCmd;
use crate::data::{DataView, EditableLineTag, TransientEdit};
use crate::edit::{lemma_edited, lemma_moved};
use crate::edit_laws::law_line_is_edited;
use crate::event::{ReaderView, TerminalState};
use crate::laws::lemma_push_undone;
use crate::paint::ScreenState;
use crate::readline::{search_mode, SurroundingsView};
use crate::recall::SearchAnswersView;
use crate::search::{MatchView, SearchDirection, SearchMode, SearchView};
use std::ops::Range;
use vstd::prelude::*;

verus! {

/// The commands that look for a token of the history, at the cursor or as the last one of a command.
pub open spec fn searches_tokens(c: ReadlineCmd) -> bool {
    c == ReadlineCmd::HistoryTokenSearchBackward || c == ReadlineCmd::HistoryTokenSearchForward
        || c == ReadlineCmd::HistoryLastTokenSearchBackward || c
        == ReadlineCmd::HistoryLastTokenSearchForward
}

/// The commands that look for a whole command.
pub open spec fn searches_lines(c: ReadlineCmd) -> bool {
    c == ReadlineCmd::HistorySearchBackward || c == ReadlineCmd::HistorySearchForward || c
        == ReadlineCmd::HistoryPrefixSearchBackward || c == ReadlineCmd::HistoryPrefixSearchForward
}

/// The commands that go to an older result.
pub open spec fn searches_backward(c: ReadlineCmd) -> bool {
    c == ReadlineCmd::HistoryTokenSearchBackward || c
        == ReadlineCmd::HistoryLastTokenSearchBackward || c == ReadlineCmd::HistorySearchBackward
        || c == ReadlineCmd::HistoryPrefixSearchBackward
}

/// What putting the current result of a search into the command line does to it.
proof fn lemma_result_shown(d: DataView, token: Range<int>)
    requires
        d.command_line.group_depth == 0,
        d.active_tag() == EditableLineTag::Commandline,
        d.search.index > 0,
        d.search.mode == SearchMode::Token || d.search.mode == SearchMode::LastToken
            ==> 0 <= token.start <= token.end <= d.command_line.text.len(),
        d.transient_edit != Some(TransientEdit::HistorySearch),
    ensures
        ({
            let next = d.showing_search_result(token);
            let found = d.search.matches[d.search.index].text;
            let text = d.command_line.text;
            let by_token = d.search.mode == SearchMode::Token || d.search.mode
                == SearchMode::LastToken;
            let r = if by_token {
                token
            } else {
                Range { start: 0, end: text.len() as int }
            };
            &&& by_token ==> next.command_line.text == text.take(token.start) + found + text.skip(
                token.end,
            )
            &&& !by_token ==> next.command_line.text == found
            &&& next.search == d.search
            &&& next.transient_edit == Some(TransientEdit::HistorySearch)
            &&& next.active_tag() == EditableLineTag::Commandline
            &&& found.len() > 0 ==> next.command_line.undone() == d.command_line.pushed(r, found, false).undone()
            &&& d.search.mode == SearchMode::Prefix && 0 < d.search.search_string.len()
                < found.len() ==> next.command_line.position == d.search.search_string.len()
        }),
{
    let elt = EditableLineTag::Commandline;
    let found = d.search.matches[d.search.index].text;
    let text = d.command_line.text;
    let by_token = d.search.mode == SearchMode::Token || d.search.mode == SearchMode::LastToken;
    let r = if by_token {
        token
    } else {
        Range { start: 0, end: text.len() as int }
    };
    let base = d.without_transient(TransientEdit::HistorySearch);
    assert(base.command_line == d.command_line);
    lemma_edited(base, elt, r, found, false);
    let put = base.search_result_put(token);
    lemma_moved(put, elt, None);
    let pushed = d.command_line.pushed(r, found, false);
    let next = put.moved(elt, None);
    assert(next.command_line == pushed.moved_to(next.command_line.position));
    if found.len() > 0 {
        assert(next.command_line.undone() == pushed.undone());
    }
    assert(pushed.text =~= text.take(r.start) + found + text.skip(r.end));
    if !by_token {
        assert(text.take(0) + found + text.skip(text.len() as int) =~= found);
    }
}

/// A search that begins with a command and finds something puts what it found into the command line.
/// One for tokens replaces the token it looked for, and keeps all that stands before and behind it.
/// Only one for whole commands replaces everything; one that looks for what begins with the text
/// leaves the cursor behind that beginning.
pub proof fn law_search_puts_result(
    reader: ReaderView,
    c: ReadlineCmd,
    env: SurroundingsView,
    t: TerminalState,
)
    requires
        reader.data.wf(),
        searches_tokens(c) || searches_lines(c),
        searches_backward(c),
        reader.data.search == SearchView::inactive(),
        reader.data.transient_edit is None,
        reader.data.command_line.group_depth == 0,
        reader.data.active_tag() == EditableLineTag::Commandline,
        0 <= env.search.token.start <= env.search.token.end <= reader.data.command_line.text.len(),
        0 <= env.search.result_token.start <= env.search.result_token.end
            <= reader.data.command_line.text.len(),
        env.search.next is Some,
    ensures
        ({
            let text = reader.data.command_line.text;
            let next = reader.commanded(c, env, t).data;
            let found = env.search.next->0.text;
            let token = env.search.token;
            let r = env.search.result_token;
            &&& searches_tokens(c) ==> next.command_line.text == text.take(r.start) + found
                + text.skip(r.end)
            &&& searches_lines(c) ==> next.command_line.text == found
            &&& c == ReadlineCmd::HistoryPrefixSearchBackward && 0 < text.len() < found.len()
                ==> next.command_line.position == text.len()
            &&& searches_tokens(c) ==> next.search.search_string == text.subrange(
                token.start,
                token.end,
            )
            &&& searches_lines(c) ==> next.search.search_string == text
            &&& next.search.matches[next.search.index] == env.search.next->0
            &&& next.search.mode != SearchMode::Inactive
        }),
{
    reveal(DataView::history_command);
    let d = reader.data;
    let a = env.search;
    let mode = search_mode(c);
    let ready = d.search_prepared(mode, a.token, a.suggestion_truncated);
    let moved = DataView {
        search: ready.search.moved(SearchDirection::Backward, a.next),
        ..ready
    };
    assert(moved.search.index == 1);
    assert(moved.search.matches[1] == a.next->0);
    lemma_result_shown(moved, a.result_token);
    assert(reader.commanded(c, env, t).data == moved.showing_search_result(a.result_token));
}

/// Going on with a search by any of these commands replaces what was found before by what is found
/// now: everything else in the command line is what it was before the search.
pub proof fn law_search_goes_on(
    reader: ReaderView,
    c: ReadlineCmd,
    env: SurroundingsView,
    t: TerminalState,
    again: ReadlineCmd,
    next_env: SurroundingsView,
)
    requires
        reader.data.wf(),
        searches_tokens(c) || searches_lines(c),
        searches_backward(c),
        searches_tokens(again) || searches_lines(again),
        searches_backward(again),
        reader.data.search == SearchView::inactive(),
        reader.data.transient_edit is None,
        reader.data.command_line.group_depth == 0,
        reader.data.active_tag() == EditableLineTag::Commandline,
        0 <= env.search.token.start <= env.search.token.end <= reader.data.command_line.text.len(),
        0 <= env.search.result_token.start <= env.search.result_token.end
            <= reader.data.command_line.text.len(),
        0 <= next_env.search.result_token.start <= next_env.search.result_token.end
            <= reader.data.command_line.text.len(),
        env.search.next is Some,
        env.search.next->0.text.len() > 0,
        next_env.search.next is Some,
    ensures
        ({
            let text = reader.data.command_line.text;
            let next = reader.commanded(c, env, t).commanded(again, next_env, t).data;
            let found = next_env.search.next->0.text;
            let r = next_env.search.result_token;
            &&& searches_tokens(c) ==> next.command_line.text == text.take(r.start) + found
                + text.skip(r.end)
            &&& searches_lines(c) ==> next.command_line.text == found
        }),
{
    let d = reader.data;
    let a = env.search;
    let ready = d.search_prepared(search_mode(c), a.token, a.suggestion_truncated);
    let moved = DataView { search: ready.search.moved(SearchDirection::Backward, a.next), ..ready };
    lemma_result_shown(moved, a.result_token);
    let one = moved.showing_search_result(a.result_token);
    lemma_found(reader, c, env, t);
    let r = if searches_tokens(c) {
        a.result_token
    } else {
        Range { start: 0, end: d.command_line.text.len() as int }
    };
    lemma_push_undone(d.command_line, r, a.next->0.text);
    let b = next_env.search;
    let then = reader.commanded(c, env, t);
    assert(then.data == one);
    lemma_found(then, again, next_env, t);
    let more = DataView { search: one.search.moved(SearchDirection::Backward, b.next), ..one };
    assert(more.search.matches[more.search.index] == b.next->0);
    lemma_shown_again(more, b.result_token);
}

/// A search that finds something older shows it.
proof fn lemma_found(reader: ReaderView, c: ReadlineCmd, env: SurroundingsView, t: TerminalState)
    requires
        searches_tokens(c) || searches_lines(c),
        searches_backward(c),
        env.search.next is Some,
    ensures
        ({
            let a = env.search;
            let ready = reader.data.search_prepared(
                search_mode(c),
                a.token,
                a.suggestion_truncated,
            );
            let moved = DataView {
                search: ready.search.moved(SearchDirection::Backward, a.next),
                ..ready
            };
            reader.commanded(c, env, t).data == moved.showing_search_result(a.result_token)
        }),
{
    reveal(DataView::history_command);
}

/// What was found before is taken out of the command line before the next result is put there.
proof fn lemma_shown_again(d: DataView, token: Range<int>)
    requires
        d.transient_edit == Some(TransientEdit::HistorySearch),
        d.command_line.undone().group_depth == 0,
        d.active_tag() == EditableLineTag::Commandline,
        d.search.index > 0,
        d.search.mode == SearchMode::Token || d.search.mode == SearchMode::LastToken
            ==> 0 <= token.start <= token.end <= d.command_line.undone().text.len(),
    ensures
        ({
            let next = d.showing_search_result(token);
            let found = d.search.matches[d.search.index].text;
            let text = d.command_line.undone().text;
            let by_token = d.search.mode == SearchMode::Token || d.search.mode
                == SearchMode::LastToken;
            &&& by_token ==> next.command_line.text == text.take(token.start) + found + text.skip(
                token.end,
            )
            &&& !by_token ==> next.command_line.text == found
        }),
{
    reveal(DataView::undone);
    let back = d.without_transient(TransientEdit::HistorySearch);
    assert(back.command_line == d.command_line.undone());
    lemma_result_shown(back, token);
    assert(back.without_transient(TransientEdit::HistorySearch) == back);
    assert(d.showing_search_result(token) == back.showing_search_result(token));
}

/// A search looks for older results backward and for newer ones forward, one at a time, and keeps
/// those that it found. Forward from the newest result it comes back to the text it began with, and
/// no further.
pub proof fn law_search_moves(s: SearchView, next: Option<MatchView>)
    requires
        s.wf(),
        s.mode != SearchMode::Inactive,
    ensures
        ({
            let older = s.moved(SearchDirection::Backward, next);
            let newer = s.moved(SearchDirection::Forward, next);
            let n = s.matches.len();
            &&& s.index > 0 ==> newer.index == s.index - 1 && newer.matches == s.matches
            &&& s.index == 0 ==> newer == s
            &&& s.index + 1 < n ==> older.index == s.index + 1 && older.matches == s.matches
            &&& s.index + 1 == n && next is Some ==> older.index == n && older.matches
                == s.matches.push(next->0)
            &&& s.index + 1 == n && next is None ==> older == s
            &&& older.search_string == s.search_string
            &&& older.mode == s.mode
            &&& newer.mode == s.mode
        }),
{
}

/// The first match of a search is the text that it looks for, where that stands.
pub proof fn law_search_begins(text: Seq<char>, mode: SearchMode, offset: int)
    ensures
        ({
            let s = SearchView::begun(text, mode, offset);
            &&& s.mode == mode
            &&& s.search_string == text
            &&& s.index == 0
            &&& s.matches.len() == 1
            &&& s.matches[0].text == text
            &&& s.matches[0].range.start == offset
            &&& s.matches[0].range.end == offset + text.len()
            &&& s.range_if_active() is None
        }),
{
}

/// The ends of a search are its oldest result, after all that are left were found, and the text that
/// it began with.
pub proof fn law_ends_of_search(s: SearchView, rest: Seq<MatchView>)
    requires
        s.wf(),
        s.mode != SearchMode::Inactive,
    ensures
        ({
            let oldest = s.at_oldest(rest);
            let newest = s.at_newest();
            &&& oldest.matches == s.matches + rest
            &&& rest.len() > 0 ==> oldest.matches[oldest.index] == rest.last()
            &&& rest.len() == 0 ==> oldest.matches[oldest.index] == s.matches.last()
            &&& newest.index == 0
            &&& newest.matches == s.matches
        }),
{
    if rest.len() > 0 {
        assert((s.matches + rest).last() == rest.last());
    }
}

/// A result that is deleted is gone from the search, and the next older one takes its place, or the
/// next newer one if there is none.
pub proof fn law_result_is_deleted(s: SearchView, next: Option<MatchView>)
    requires
        s.wf(),
        s.index > 0,
    ensures
        ({
            let left = s.deleted(next);
            let n = s.matches.len() as int;
            &&& s.index + 1 < n ==> left.matches[left.index] == s.matches[s.index + 1]
                && left.matches.len() == n - 1
            &&& s.index + 1 == n && next is Some ==> left.matches[left.index] == next->0
                && left.matches.len() == n
            &&& s.index + 1 == n && next is None ==> left.matches[left.index] == s.matches[s.index
                - 1] && left.matches.len() == n - 1
        }),
{
    let m = s.matches.remove(s.index);
    assert(m.len() == s.matches.len() - 1);
    if s.index + 1 < s.matches.len() {
        assert(m[s.index] == s.matches[s.index + 1]);
    }
    assert(m[s.index - 1] == s.matches[s.index - 1]);
}

/// A search that finds nothing leaves the command line as it is, and one that only begins with it does
/// not begin.
pub proof fn law_failed_search_changes_nothing(
    d: DataView,
    mode: SearchMode,
    a: SearchAnswersView,
    screen: ScreenState,
)
    requires
        d.wf(),
        d.search == SearchView::inactive(),
        mode != SearchMode::Inactive,
        a.next is None,
    ensures
        ({
            let next = d.history_searched(mode, SearchDirection::Backward, a, screen);
            &&& next.command_line == d.command_line
            &&& next.search == SearchView::inactive()
            &&& next.transient_edit == d.transient_edit
            &&& next.actions.len() > d.actions.len()
            &&& next.actions.last() == ActionView::NoteFlash
        }),
{
    reveal(DataView::flashing);
}

/// Deleting from the history deletes what is shown of it: the result of the search, or the suggestion
/// if it is a whole command, or what is selected in the list.
pub proof fn law_shown_command_is_deleted(
    d: DataView,
    next: Option<MatchView>,
    token: Range<int>,
    screen: ScreenState,
)
    requires
        d.wf(),
    ensures
        ({
            let done = d.history_item_deleted(next, token, screen);
            let n = d.actions.len() as int;
            let searching = d.search.index > 0;
            let part = d.at_suggestion() && !d.autosuggestion.is_whole;
            &&& !part && searching ==> done.actions[n + 1] == ActionView::RemoveFromHistory(
                d.search.matches[d.search.index].text,
            )
            &&& !part && !searching && d.at_suggestion() ==> done.actions[n + 1]
                == ActionView::RemoveFromHistory(d.autosuggestion.text)
                && done.autosuggestion.text.len() == 0 && done.command_line == d.command_line
            &&& part ==> done.command_line == d.command_line && done.search == d.search
            &&& !searching && !d.at_suggestion() && d.history_pager is Some && d.pager.selected is Some
                ==> done.actions[n + 1] == ActionView::RemoveFromHistory(
                d.pager.selected->0.completion,
            )
            &&& !searching && !d.at_suggestion() && d.history_pager is None ==> done.actions
                == d.actions.push(ActionView::FunctionStatus(false))
            &&& searching || d.at_suggestion() || d.history_pager is Some ==> done.actions[n]
                == ActionView::FunctionStatus(true)
        }),
{
    reveal(DataView::flashing);
    let noted = d.queued(ActionView::FunctionStatus(true));
    let searching = d.search.index > 0;
    let part = d.at_suggestion() && !d.autosuggestion.is_whole;
    if !part && searching {
        let gone = DataView {
            search: d.search.deleted(next),
            ..noted.queued(ActionView::RemoveFromHistory(d.search.current().text))
        };
        lemma_showing_asks_more(gone, token);
        let done = gone.showing_search_result(token);
        let n = d.actions.len() as int;
        let kept = done.actions.subrange(0, gone.actions.len() as int);
        assert(kept[n] == gone.actions[n]);
        assert(kept[n + 1] == gone.actions[n + 1]);
    }
}

/// Showing a result takes nothing back that was asked for.
proof fn lemma_showing_asks_more(d: DataView, token: Range<int>)
    ensures
        d.actions.is_prefix_of(d.showing_search_result(token).actions),
{
    reveal(DataView::undone);
    reveal(DataView::edited);
    reveal(DataView::moved);
    let shown = d.showing_search_result(token);
    assert(d.actions =~= shown.actions.subrange(0, d.actions.len() as int));
}

/// Opening the list of the history remembers the command line, shows the search field and looks for
/// what is in the command line, or for what was searched already. Opened again, it goes on with the
/// older commands, as long as there are any.
pub proof fn law_list_of_history_opens(
    d: DataView,
    size: int,
    prefix: Seq<char>,
    escaped: Seq<char>,
    screen: ScreenState,
)
    requires
        d.wf(),
        d.pager.search_field.text.len() == 0,
    ensures
        ({
            let next = d.history_pager_opened(size, prefix, escaped, screen);
            let sought = if d.search.mode != SearchMode::Inactive && d.search.search_string.len()
                > 0 {
                d.search.search_string
            } else {
                escaped
            };
            &&& d.history_pager is None ==> {
                &&& next.cycle_command_line == d.command_line.text
                &&& next.cycle_cursor_pos == d.command_line.position
                &&& next.history_pager == Some(Range { start: 0int, end: 1int })
                &&& next.pager.search_field_shown
                &&& next.pager.prefix == prefix
                &&& next.pager.search_field.text == sought
                &&& next.command_line == d.command_line
            }
            &&& d.history_pager matches Some(r) ==> {
                &&& r.end > size ==> next.actions.last() == ActionView::NoteFlash
                &&& r.end <= size ==> next.actions.len() == d.actions.len() + 1
                    && next.actions.last() is FillHistoryPager
                &&& next.history_pager == d.history_pager
                &&& next.command_line == d.command_line
            }
        }),
{
    reveal(DataView::flashing);
    reveal(DataView::edited);
    let field = d.pager.search_field;
    assert(field.position == 0);
    let sought = if d.reuses_search_string() {
        d.search.search_string
    } else {
        escaped
    };
    let at = Range { start: 0int, end: 0int };
    law_line_is_edited(field, at, sought, !d.search.active());
    assert(field.text.take(0) + sought + field.text.skip(0) =~= sought);
}

} // verus!

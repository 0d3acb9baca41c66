//! What listing and choosing completions promise.

use crate::action::{ActionView, HistoryPagerInvocation};
use crate::choice::{choice, ChoiceView};
use crate::command::ReadlineCmd;
use crate::completion::{CompletionView, ContextView};
use crate::command_laws::{law_complete_and_search_command, law_complete_command};
use crate::data::{CursorEndMode, DataView, EditableLineTag, LoopView};
use crate::edit::{lemma_edited, lemma_moved};
use crate::edit_laws::law_line_is_edited;
use crate::event::{ReaderView, TerminalState};
use crate::execution_laws::{escapes_newline, law_backslashed, law_backslashes};
use crate::flags::Flag;
use crate::motion::composed_start;
use crate::pager::SelectionMotion;
use crate::paging::{CharOffset, ExpandResultCode};
use crate::paint::ScreenState;
use crate::readline::SurroundingsView;
use crate::search::SearchDirection;
use crate::text::backslashed;
use std::ops::Range;
use vstd::prelude::*;

verus! {

/// A click moves the cursor to the character, or selects the completion, that it hit; elsewhere it
/// does nothing.
pub proof fn law_click(d: DataView, at: usize)
    requires
        d.wf(),
        at <= d.active_line().text.len(),
        d.end_mode == CursorEndMode::Exclusive,
    ensures
        ({
            let there = d.clicked(CharOffset::Cmd(at));
            let chosen = d.clicked(CharOffset::Pager(at));
            &&& there.active_line().text == d.active_line().text
            &&& there.active_line().position == at
            &&& d.clicked(CharOffset::Pointer(at)) == there
            &&& d.clicked(CharOffset::Elsewhere) == d
            &&& d.pager.selected_idx == Some(at) ==> chosen == d
            &&& d.pager.selected_idx != Some(at) ==> {
                &&& chosen.pager.selected_idx == Some(at)
                &&& chosen.actions == d.actions.push(ActionView::SelectCompletion(Some(at)))
                &&& chosen.command_line == d.command_line
            }
        }),
{
    lemma_moved(d, d.active_tag(), Some(at as int));
}

/// Completing asks for completions where they may be made. Where the user is in the list already, or
/// completes again with a list that none was chosen from, it shows all of the list if some of it is
/// hidden, or else goes to the next completion in it; completing with a search goes to the one before.
pub proof fn law_completing_asks_or_cycles(
    reader: ReaderView,
    env: SurroundingsView,
    t: TerminalState,
)
    requires
        reader.data.rls is Some,
    ensures
        ({
            let d = reader.data;
            let next = reader.commanded(ReadlineCmd::Complete, env, t).data;
            let search = reader.commanded(ReadlineCmd::CompleteAndSearch, env, t).data;
            let rls = d.rls->0;
            let cycles = d.pager.selected_idx is Some || d.history_pager is Some || (rls.comp.len()
                > 0 && !rls.complete_chose_one && rls.last_cmd == Some(ReadlineCmd::Complete));
            let motion = |m: SelectionMotion| ActionView::MoveSelection { motion: m, force: false };
            &&& !d.conf.complete_ok ==> next == d && search == d
            &&& d.conf.complete_ok && !cycles ==> {
                &&& next.actions == d.actions.push(
                    ActionView::ComputeCompletions { and_search: false },
                )
                &&& search.actions == d.actions.push(
                    ActionView::ComputeCompletions { and_search: true },
                )
            }
            &&& d.conf.complete_ok && cycles && d.pager.remaining != 0 ==> {
                &&& next.pager.fully_disclosed && next.actions == d.actions
                &&& search.pager.fully_disclosed && search.actions == d.actions
            }
            &&& d.conf.complete_ok && cycles && d.pager.remaining == 0 ==> {
                &&& next.actions == d.actions.push(motion(SelectionMotion::Next))
                &&& search.actions == d.actions.push(motion(SelectionMotion::Prev))
            }
            &&& next.command_line == d.command_line
            &&& search.command_line == d.command_line
        }),
{
    law_complete_command(reader, env, t);
    law_complete_and_search_command(reader, env, t);
}

/// A wildcard that was expanded is replaced by what it stands for; where that is too much, or nothing,
/// the command line stays.
pub proof fn law_wildcard_is_expanded(
    d: DataView,
    token: Range<int>,
    text: Seq<char>,
    screen: ScreenState,
)
    requires
        d.wf(),
        d.rls is Some,
        0 <= token.start <= token.end <= d.command_line.text.len(),
    ensures
        ({
            let old = d.command_line.text;
            let done = d.wildcard_handled(token, ExpandResultCode::Expanded, text, screen);
            let over = d.wildcard_handled(token, ExpandResultCode::Overflow, text, screen);
            &&& done.command_line.text == old.take(token.start) + text + old.skip(token.end)
            &&& done.rls->0.comp.len() == 0
            &&& !done.rls->0.complete_did_insert
            &&& over.command_line == d.command_line
        }),
{
    reveal(DataView::flashing);
    let cleared = d.with_loop(
        LoopView {
            comp: Seq::empty(),
            complete_did_insert: false,
            complete_chose_one: false,
            ..d.rls->0
        },
    );
    lemma_edited(cleared, EditableLineTag::Commandline, token, text, false);
    law_line_is_edited(d.command_line, token, text, false);
}

/// What is asked of the history for the list of it: a fresh list begins with the newest command; going
/// on begins behind what is shown, on the side that it goes to; a list shown again begins where it
/// did, and what was selected stays selected.
pub proof fn law_history_is_asked(
    d: DataView,
    motion: Option<SelectionMotion>,
    direction: SearchDirection,
)
    requires
        d.history_pager is Some,
        0 <= d.history_pager->0.start < d.history_pager->0.end <= usize::MAX,
    ensures
        ({
            let shown = d.history_pager->0;
            let fresh = d.fill_request(HistoryPagerInvocation::Anew, motion, direction);
            let more = d.fill_request(HistoryPagerInvocation::Advance, motion, direction);
            let again = d.fill_request(HistoryPagerInvocation::Refresh, motion, direction);
            &&& fresh.index == 0
            &&& fresh.direction == direction
            &&& fresh.motion == motion
            &&& fresh.old_pager_index is None
            &&& direction == SearchDirection::Backward ==> more.index == shown.end - 1
            &&& direction == SearchDirection::Forward && shown.start < usize::MAX ==> more.index
                == shown.start + 1
            &&& more.direction == direction
            &&& more.old_pager_index is None
            &&& again.index == shown.start
            &&& again.direction == SearchDirection::Backward
            &&& again.old_pager_index == d.pager.selected_idx
        }),
{
}

/// A backslash before the cursor that escapes nothing yet is deleted before completing.
pub proof fn law_completing_drops_backslash(d: DataView, widths: Seq<i32>)
    requires
        d.wf(),
        d.active_tag() == EditableLineTag::Commandline,
        widths.len() == d.command_line.text.len(),
        d.command_line.position > 0 ==> widths[d.command_line.position - 1] != 0,
    ensures
        ({
            let text = d.command_line.text;
            let pos = d.command_line.position;
            let next = d.completion_begun(widths);
            &&& escapes_newline(text, pos) ==> next.command_line.text == text.take(pos - 1)
                + text.skip(pos)
            &&& !escapes_newline(text, pos) ==> next == d
        }),
{
    let text = d.command_line.text;
    let pos = d.command_line.position;
    law_backslashed(text, pos);
    if backslashed(text, pos) {
        law_backslashes(text, pos);
        let elt = EditableLineTag::Commandline;
        let quiet = d.with_flag(Flag::SuppressAutosuggestion, true);
        let r = Range { start: pos - 1, end: pos };
        assert(composed_start(widths, pos) == pos - 1);
        lemma_edited(quiet, elt, r, Seq::empty(), false);
        law_line_is_edited(d.command_line, r, Seq::empty(), false);
        lemma_moved(quiet.erased(elt, r), elt, None);
        assert(text.take(pos - 1) + Seq::empty() + text.skip(pos) =~= text.take(pos - 1)
            + text.skip(pos));
    }
}

/// Cancelling just after completions were asked for takes out what they inserted; otherwise nothing is
/// taken out.
pub proof fn law_cancelled_completion_is_undone(d: DataView)
    requires
        d.wf(),
        d.rls is Some,
    ensures
        ({
            let next = d.completion_cancelled();
            let rls = d.rls->0;
            let completed = rls.complete_did_insert && (rls.last_cmd == Some(ReadlineCmd::Complete)
                || rls.last_cmd == Some(ReadlineCmd::CompleteAndSearch));
            let line = d.active_line();
            let e = line.past.last();
            &&& !completed ==> next == d
            &&& completed && line.past.len() == 0 ==> next.active_line().text == line.text
            &&& completed && line.past.len() > 0 && e.group is None && line.group_depth == 0
                ==> next.active_line().text == line.text.take(e.range.start) + e.old
                + line.text.skip(e.range.start + e.replacement.len())
        }),
{
    reveal(DataView::undone);
    let elt = d.active_tag();
    lemma_moved(d.undone(elt), elt, None);
}

/// What was completed is kept to cycle through: the text that completing began with, and the end of
/// the token in it. Choosing one completion is remembered, and so is whether anything was inserted.
/// With a search, a list that none was chosen from gets the search field and its first completion is
/// selected.
pub proof fn law_completing_is_remembered(
    d: DataView,
    comp: Seq<CompletionView>,
    token: Range<int>,
    and_search: bool,
    ellipsis: char,
    ctx: ContextView,
    screen: ScreenState,
)
    requires
        d.wf(),
        d.rls is Some,
        0 <= token.start <= token.end <= d.command_line.text.len(),
    ensures
        ({
            let next = d.completed(comp, token, and_search, ellipsis, ctx, screen);
            let text = d.command_line.text;
            let chosen = choice(comp, text.subrange(token.start, token.end), ellipsis);
            &&& next.rls is Some
            &&& next.rls->0.comp == comp
            &&& next.rls->0.complete_chose_one <==> chosen is Insert
            &&& chosen is Nothing ==> {
                &&& !next.rls->0.complete_did_insert
                &&& next.command_line == d.command_line
                &&& next.cycle_command_line == text
                &&& next.cycle_cursor_pos == token.end
            }
            &&& chosen matches ChoiceView::List { insert, prefix, list } ==> {
                &&& next.rls->0.complete_did_insert <==> insert is Some
                &&& next.pager.completions == list
                &&& next.pager.prefix == prefix
                &&& and_search && list.len() > 0 ==> next.pager.search_field_shown
                    && next.actions.last() == (ActionView::MoveSelection {
                    motion: SelectionMotion::Next,
                    force: false,
                })
                &&& !and_search ==> next.actions.last() == ActionView::RefilterPager
                &&& insert is None ==> next.command_line == d.command_line
                    && next.cycle_command_line == text && next.cycle_cursor_pos == token.end
            }
        }),
{
    reveal(DataView::flashing);
    let ready = d.completing(comp, token);
    assert(d.clamped_token(token) == token);
    assert(ready.chosen(token, ellipsis) == choice(
        comp,
        d.command_line.text.subrange(token.start, token.end),
        ellipsis,
    ));
}

} // verus!

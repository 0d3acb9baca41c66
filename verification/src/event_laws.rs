//! What handling events promises.

use crate::command::{ends_paging, CharInputStyle, KeyEvent, ReadlineCmd};
use crate::data::{DataView, EditableLineTag};
use crate::edit::lemma_edited;
use crate::edit_laws::law_line_is_edited;
use crate::flags::Flag;
use crate::search::SearchView;
use std::ops::Range;
use vstd::prelude::*;

verus! {

/// What was typed stands at the cursor of the active line, which went behind it. Typing into the
/// command line closes the list below it.
pub open spec fn has_typed(d: DataView, next: DataView, typed: Seq<char>) -> bool {
    let elt = d.active_tag();
    let text = d.line(elt).text;
    let pos = d.line(elt).position;
    &&& next.line(elt).text == text.take(pos) + typed + text.skip(pos)
    &&& next.line(elt).position == pos + typed.len()
    &&& elt == EditableLineTag::Commandline ==> {
        &&& next.pager.completions.len() == 0
        &&& next.pager.selected_idx is None
        &&& !next.pager.search_field_shown
        &&& next.history_pager is None
        &&& next.transient_edit is None
        &&& !next.is(Flag::SuppressAutosuggestion)
    }
    &&& elt == EditableLineTag::SearchField ==> next.command_line == d.command_line
}

proof fn lemma_typed(d: DataView, typed: Seq<char>)
    requires
        d.wf(),
        d.rls is Some,
    ensures
        ({
            let next = d.inserted(d.active_tag(), typed);
            let shown = if d.active_tag() == EditableLineTag::Commandline {
                next.pager_cleared()
            } else {
                next
            };
            &&& has_typed(d, shown, typed)
            &&& shown.search == d.search
            &&& shown.rls == d.rls
        }),
{
    reveal(DataView::edited);
    let elt = d.active_tag();
    let pos = d.line(elt).position;
    let at = Range { start: pos, end: pos };
    lemma_edited(d, elt, at, typed, !d.search.active());
    law_line_is_edited(d.line(elt), at, typed, !d.search.active());
}

/// A key types its character at the cursor, unless it is one that does nothing at the beginning and
/// the cursor is there. Typing into the command line ends a search of the history. The last command
/// is forgotten.
pub proof fn law_key_types(d: DataView, k: KeyEvent)
    requires
        d.wf(),
        d.rls is Some,
    ensures
        ({
            let next = d.key_handled(k);
            let idle = k.input_style == CharInputStyle::NotFirst && d.active_line().position == 0;
            &&& !idle && k.codepoint_text is Some ==> {
                &&& has_typed(d, next, seq![k.codepoint_text->0])
                &&& d.active_tag() == EditableLineTag::Commandline ==> next.search
                    == SearchView::inactive()
            }
            &&& idle || k.codepoint_text is None ==> next.command_line == d.command_line
                && next.pager == d.pager && next.search == d.search
            &&& next.rls is Some
            &&& next.rls->0.last_cmd is None
        }),
{
    match k.codepoint_text {
        Some(c) => {
            lemma_typed(d, seq![c]);
        },
        None => {},
    }
}

/// Characters that were typed ahead are typed together.
pub proof fn law_read_characters_are_typed(d: DataView, chars: Seq<char>)
    requires
        d.wf(),
        d.rls is Some,
    ensures
        ({
            let next = d.chars_read(chars);
            &&& chars.len() > 0 ==> has_typed(d, next, chars) && next.rls->0.last_cmd is None
            &&& chars.len() == 0 ==> next == d
        }),
{
    lemma_typed(d, chars);
}

/// Reading stops when as many characters are in the command line as were asked for, and not before.
pub proof fn law_reading_stops_at_limit(d: DataView)
    requires
        d.rls is Some,
    ensures
        d.at_limit() <==> d.rls->0.nchars is Some && d.command_line.text.len()
            >= d.rls->0.nchars->0,
        d.rls->0.nchars matches Some(n) ==> d.command_line.text.len() <= n ==> d.readahead()
            + d.command_line.text.len() <= n,
        d.readahead() <= 256,
{
}

/// A search of the history goes on over the commands that search, go to its ends, delete what was
/// found or repaint. Every other command ends it, and what was found is then an edit like others.
pub proof fn law_other_commands_end_search(d: DataView, c: ReadlineCmd)
    requires
        d.rls is Some,
        d.search.active(),
        c != ReadlineCmd::Cancel,
    ensures
        ({
            let next = d.command_ended(c);
            let goes_on = c == ReadlineCmd::HistoryPrefixSearchBackward || c
                == ReadlineCmd::HistoryPrefixSearchForward || c
                == ReadlineCmd::HistorySearchBackward || c == ReadlineCmd::HistorySearchForward || c
                == ReadlineCmd::HistoryTokenSearchBackward || c
                == ReadlineCmd::HistoryTokenSearchForward || c
                == ReadlineCmd::HistoryLastTokenSearchBackward || c
                == ReadlineCmd::HistoryLastTokenSearchForward || c == ReadlineCmd::HistoryDelete
                || c == ReadlineCmd::HistoryPagerDelete || c == ReadlineCmd::BeginningOfHistory || c
                == ReadlineCmd::EndOfHistory || c == ReadlineCmd::Repaint || c
                == ReadlineCmd::ForceRepaint;
            &&& goes_on ==> next.search == d.search && next.transient_edit == d.transient_edit
            &&& !goes_on ==> next.search == SearchView::inactive() && next.transient_edit is None
            &&& next.command_line == d.command_line
            &&& next.rls->0.last_cmd == Some(c)
        }),
{
}

/// The commands that move in the list or ask for it leave it open; those that search the history,
/// cancel or accept a suggestion close it; those that edit a line close it unless they edit its search
/// field.
pub proof fn law_commands_close_list(in_field: bool)
    ensures
        !ends_paging(ReadlineCmd::BackwardChar, in_field),
        !ends_paging(ReadlineCmd::ForwardChar, in_field),
        !ends_paging(ReadlineCmd::UpLine, in_field),
        !ends_paging(ReadlineCmd::DownLine, in_field),
        !ends_paging(ReadlineCmd::Complete, in_field),
        !ends_paging(ReadlineCmd::CompleteAndSearch, in_field),
        !ends_paging(ReadlineCmd::PagerToggleSearch, in_field),
        !ends_paging(ReadlineCmd::Execute, in_field),
        !ends_paging(ReadlineCmd::HistoryPager, in_field),
        !ends_paging(ReadlineCmd::HistoryPagerDelete, in_field),
        !ends_paging(ReadlineCmd::Repaint, in_field),
        ends_paging(ReadlineCmd::Cancel, in_field),
        ends_paging(ReadlineCmd::CancelCommandline, in_field),
        ends_paging(ReadlineCmd::ClearCommandline, in_field),
        ends_paging(ReadlineCmd::HistorySearchBackward, in_field),
        ends_paging(ReadlineCmd::HistoryPrefixSearchBackward, in_field),
        ends_paging(ReadlineCmd::HistoryTokenSearchBackward, in_field),
        ends_paging(ReadlineCmd::HistoryLastTokenSearchBackward, in_field),
        ends_paging(ReadlineCmd::AcceptAutosuggestion, in_field),
        ends_paging(ReadlineCmd::DeleteOrExit, in_field),
        ends_paging(ReadlineCmd::BeginningOfLine, in_field) == !in_field,
        ends_paging(ReadlineCmd::EndOfLine, in_field) == !in_field,
        ends_paging(ReadlineCmd::BackwardDeleteChar, in_field) == !in_field,
        ends_paging(ReadlineCmd::DeleteChar, in_field) == !in_field,
        ends_paging(ReadlineCmd::BackwardKillWord, in_field) == !in_field,
        ends_paging(ReadlineCmd::KillLine, in_field) == !in_field,
        ends_paging(ReadlineCmd::Yank, in_field) == !in_field,
        ends_paging(ReadlineCmd::TransposeChars, in_field) == !in_field,
        ends_paging(ReadlineCmd::Undo, in_field) == !in_field,
        ends_paging(ReadlineCmd::Redo, in_field) == !in_field,
{
}

/// What was yanked can only be exchanged by the command that follows: the length of the last yank is
/// kept over yanks, and forgotten by every other command.
pub proof fn law_yank_is_forgotten(d: DataView, c: ReadlineCmd)
    requires
        d.rls is Some,
        d.search.active(),
        c != ReadlineCmd::Cancel,
    ensures
        ({
            let next = d.command_begun(c);
            let yanked = d.rls->0.last_cmd == Some(ReadlineCmd::Yank) || d.rls->0.last_cmd == Some(
                ReadlineCmd::YankPop,
            );
            &&& next.rls->0.yank_len == if yanked {
                d.rls->0.yank_len
            } else {
                0
            }
            &&& next.command_line == d.command_line
            &&& next.rls->0.last_cmd == d.rls->0.last_cmd
        }),
{
}

/// A loop begins with no command given, no search made and nothing finished.
pub proof fn law_loop_begins(d: DataView, nchars: Option<usize>)
    ensures
        ({
            let next = d.loop_begun(nchars);
            &&& next.rls is Some
            &&& !next.rls->0.finished
            &&& next.rls->0.last_cmd is None
            &&& next.rls->0.yank_len == 0
            &&& next.rls->0.nchars == nchars
            &&& next.rls->0.comp.len() == 0
            &&& next.search == SearchView::inactive()
            &&& next.command_line == d.command_line
            &&& next.cycle_command_line.len() == 0
        }),
{
}

} // verus!

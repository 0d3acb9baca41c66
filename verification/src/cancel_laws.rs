//! What cancelling and exiting promise.

use crate::action::ActionView;
use crate::command::ReadlineCmd;
use crate::command_laws::{
    law_cancel_commandline_command, law_clear_commandline_command, law_delete_or_exit_command,
    law_exit_command,
};
use crate::data::{CursorEndMode, DataView, EditableLineTag};
use crate::edit::{lemma_edited, lemma_moved};
use crate::edit_laws::{law_line_is_edited, lemma_edit_is_quiet};
use crate::event::{ReaderView, TerminalState};
use crate::flags::Flag;
use crate::readline::SurroundingsView;
use std::ops::Range;
use vstd::prelude::*;

verus! {

/// Clearing the command line empties it and lets others know. Nothing happens where it is empty, and
/// a reader that is to exit on an interrupt exits with its text.
pub proof fn law_clearing_empties_line(reader: ReaderView, env: SurroundingsView, t: TerminalState)
    requires
        reader.data.wf(),
    ensures
        ({
            let d = reader.data;
            let next = reader.commanded(ReadlineCmd::ClearCommandline, env, t).data;
            let exits = d.conf.exit_on_interrupt;
            &&& !exits && d.command_line.text.len() > 0 ==> {
                &&& next.command_line.text.len() == 0
                &&& next.command_line.position == 0
                &&& next.actions == d.actions.push(ActionView::FireCancel)
            }
            &&& !exits && d.command_line.text.len() == 0 ==> next == d
            &&& exits ==> {
                &&& next.command_line == d.command_line
                &&& next.is(Flag::ExitLoopRequested)
                &&& next.actions == d.actions.push(ActionView::SetLastStatus { ok: false })
            }
        }),
{
    law_cancel_commandline_command(reader, env, t);
    law_clear_commandline_command(reader, env, t);
    law_exit_command(reader, env, t);
    law_delete_or_exit_command(reader, env, t);
    let d = reader.data;
    let n = d.command_line.text.len() as int;
    let whole = Range { start: 0, end: n };
    lemma_edited(d, EditableLineTag::Commandline, whole, Seq::empty(), false);
    lemma_edit_is_quiet(d, whole, Seq::empty(), false);
    law_line_is_edited(d.command_line, whole, Seq::empty(), false);
}

/// Cancelling the command line leaves it on the screen with a mark, and goes on with an empty one on a
/// fresh line.
pub proof fn law_cancelling_leaves_mark(reader: ReaderView, env: SurroundingsView, t: TerminalState)
    requires
        reader.data.wf(),
        !reader.data.conf.exit_on_interrupt,
        reader.data.command_line.text.len() > 0,
    ensures
        ({
            let d = reader.data;
            let next = reader.commanded(ReadlineCmd::CancelCommandline, env, t).data;
            let n = next.actions.len() as int;
            &&& next.command_line.text.len() == 0
            &&& n >= d.actions.len() + 3
            &&& next.actions[n - 3] == ActionView::PrintCancelMark
            &&& next.actions[n - 2] == ActionView::ResetAbandoningLine
            &&& next.actions[n - 1] == ActionView::FireCancel
            &&& forall|i: int|
                d.actions.len() <= i < n - 3 ==> #[trigger] next.actions[i] is Paint
        }),
{
    law_cancel_commandline_command(reader, env, t);
    law_clear_commandline_command(reader, env, t);
    law_exit_command(reader, env, t);
    law_delete_or_exit_command(reader, env, t);
    let d = reader.data;
    let elt = EditableLineTag::Commandline;
    let n = d.command_line.text.len() as int;
    let whole = Range { start: 0, end: n };
    let wide = DataView { end_mode: CursorEndMode::Exclusive, ..d };
    lemma_moved(wide, elt, Some(n));
    let shown = d.cancel_shown(env.screen);
    assert(shown.command_line.text == d.command_line.text);
    lemma_edited(shown, elt, whole, Seq::empty(), false);
    lemma_edit_is_quiet(shown, whole, Seq::empty(), false);
    law_line_is_edited(shown.command_line, whole, Seq::empty(), false);
}

/// Asking to exit makes the reader exit with success, unless there are jobs that the user was not
/// warned about. The command that deletes or exits only exits where nothing was typed.
pub proof fn law_exit_is_requested(reader: ReaderView, env: SurroundingsView, t: TerminalState)
    requires
        reader.data.wf(),
    ensures
        ({
            let d = reader.data;
            let next = reader.commanded(ReadlineCmd::Exit, env, t).data;
            let or_delete = reader.commanded(ReadlineCmd::DeleteOrExit, env, t).data;
            let e = env.exit;
            let warns = !e.sighup && !d.is(Flag::DidWarnForBgJobs) && e.top_level && e.has_jobs;
            let ok = ActionView::SetLastStatus { ok: true };
            &&& !warns ==> next.is(Flag::ExitLoopRequested) && next.actions == d.actions.push(ok)
            &&& warns ==> !next.is(Flag::ExitLoopRequested) && next.is(Flag::DidWarnForBgJobs)
                && next.actions == d.actions.push(ok).push(ActionView::WarnAboutJobs)
            &&& next.command_line == d.command_line
            &&& d.active_line().text.len() == 0 && d.active_line().position == 0 ==> or_delete
                == next
            &&& d.active_line().text.len() > 0 && d.active_line().position
                == d.active_line().text.len() ==> or_delete == d
        }),
{
    law_cancel_commandline_command(reader, env, t);
    law_clear_commandline_command(reader, env, t);
    law_exit_command(reader, env, t);
    law_delete_or_exit_command(reader, env, t);
}

} // verus!

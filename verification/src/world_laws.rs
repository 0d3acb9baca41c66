//! What the readers, taken together, and the screen promise.

use crate::action::ActionView;
use crate::command::ReadlineCmd;
use crate::data::{ConfigView, DataView, EditableLineTag};
use crate::edit::{lemma_edited, lemma_moved};
use crate::edit_laws::law_line_is_edited;
use crate::flags::Flag;
use crate::highlight::HighlightRole;
use crate::layout::{PaintContextView, PaintView};
use crate::suggestion_laws::{bounds_line, law_line_bounds};
use crate::world::{counted, interactive, says_yes, ExitPhase, WorldView};
use std::ops::Range;
use vstd::prelude::*;

verus! {

/// The first reader begins with the command line that was left from outside; one that is pushed on
/// another begins with an empty one. Both begin with a new generation.
pub proof fn law_reader_begins(w: WorldView, history: Seq<char>, conf: ConfigView)
    requires
        w.wf(),
    ensures
        ({
            let next = w.pushed(history, conf);
            let n = w.readers.len() as int;
            let d = next.readers[n];
            &&& next.readers.len() == n + 1
            &&& forall|i: int| 0 <= i < n ==> #[trigger] next.readers[i] == w.readers[i]
            &&& d.conf == conf
            &&& d.history_name == history
            &&& d.rls is None
            &&& n == 0 ==> d.command_line.text == w.snapshot.text && d.command_line.position
                == w.snapshot.cursor_pos
            &&& n > 0 ==> d.command_line.text.len() == 0
            &&& n == 0 && w.generation < u32::MAX ==> d.generation == w.generation + 1
            &&& n > 0 && w.readers.last().generation < u32::MAX ==> d.generation
                == w.readers.last().generation + 1
            &&& d.autosuggestion.text.len() == 0
        }),
{
    let line = crate::line::LineView::empty();
    let at = Range { start: 0int, end: 0int };
    law_line_is_edited(line, at, w.snapshot.text, false);
    assert(line.text.take(0) + w.snapshot.text + line.text.skip(0) =~= w.snapshot.text);
}

/// A reader exits if the terminal went away, or if its exit was asked for and there are no jobs to warn
/// about first. Without a reader, only the terminal counts. Jobs are warned about in the outermost
/// reader only.
pub proof fn law_when_reader_exits(w: WorldView, has_jobs: bool)
    ensures
        ({
            let asked = w.readers.last().is(Flag::ExitLoopRequested);
            let warned = w.readers.last().is(Flag::DidWarnForBgJobs);
            &&& w.sighup ==> w.exits(has_jobs)
            &&& w.readers.len() == 0 ==> w.exits(has_jobs) == w.sighup
            &&& w.readers.len() == 1 && !w.sighup ==> w.exits(has_jobs) == (asked && (warned
                || !has_jobs))
            &&& w.readers.len() > 1 && !w.sighup ==> w.exits(has_jobs) == asked
        }),
{
}

/// Execution is unwound when the terminal went away, except while the handlers of the exit run, and
/// always after they ran.
pub proof fn law_when_unwinding(w: WorldView)
    ensures
        w.exit_phase == ExitPhase::NotExiting ==> w.unwinding() == w.sighup,
        w.exit_phase == ExitPhase::RunningHandlers ==> !w.unwinding(),
        w.exit_phase == ExitPhase::FinishedHandlers ==> w.unwinding(),
{
}

/// A command that ran is counted, unless it left no status. One that asked to exit makes the reader
/// exit, and that is noted once.
pub proof fn law_command_is_counted(w: WorldView, n: u64)
    requires
        w.readers.len() > 0,
    ensures
        n < u64::MAX ==> counted(n) == n + 1,
        w.command_ran(true).status_count == w.status_count,
        w.status_count < u64::MAX ==> w.command_ran(false).status_count == w.status_count + 1,
        !w.command_ran(true).parser.exit_current_script,
        w.command_ran(true).readers.last().is(Flag::ExitLoopRequested)
            <==> w.parser.exit_current_script || w.readers.last().is(Flag::ExitLoopRequested),
{
}

/// A switch is off if it says 0, and on if it says anything else. Suggestions are on by default,
/// transient prompts are off.
pub proof fn law_switches_are_read(value: Seq<char>, default: bool)
    ensures
        !says_yes(Some("0"@), default),
        value != "0"@ ==> says_yes(Some(value), default),
        says_yes(None, default) == default,
        interactive(None, None, false).autosuggest_ok,
        !interactive(None, None, false).transient_prompt,
        interactive(Some("0"@), None, false).autosuggest_ok == false,
        interactive(None, None, false).complete_ok,
        interactive(None, None, false).highlight_ok,
        interactive(None, None, false).syntax_check_ok,
        interactive(None, None, false).expand_abbrev_ok,
        !interactive(None, None, false).exit_on_interrupt,
        !interactive(None, None, false).in_silent_mode,
        interactive(None, None, false).left_prompt_cmd == "fish_prompt"@,
        interactive(None, None, false).right_prompt_cmd == "fish_right_prompt"@,
        interactive(None, None, true).left_prompt_cmd == "fish_breakpoint_prompt"@,
        interactive(None, None, true).right_prompt_cmd.len() == 0,
        interactive(None, None, true).event == "fish_prompt"@,
{
}

/// Turning suggestions on or off repaints; turning them to what they are does nothing.
pub proof fn law_suggestions_are_switched(d: DataView, on: bool)
    ensures
        ({
            let next = d.autosuggestions_set(on);
            &&& next.conf.autosuggest_ok == on
            &&& d.conf.autosuggest_ok == on ==> next == d
            &&& d.conf.autosuggest_ok != on ==> next.is(Flag::ForceExecPromptAndRepaint)
                && next.actions == d.actions.push(ActionView::QueueReadline(ReadlineCmd::Repaint))
        }),
{
}

/// A suggestion shows if it adds more than a space to the line of the cursor.
pub proof fn law_suggestion_shows(d: DataView)
    requires
        d.wf(),
    ensures
        ({
            let s = d.autosuggestion.text;
            let line = d.command_line;
            &&& s.len() == 0 ==> !d.shows_suggestion()
            &&& forall|from: int, to: int| #[trigger]
                bounds_line(line.text, line.position, from, to) ==> {
                    &&& s.len() > 0 && s == line.text.subrange(from, to).push(' ')
                        ==> !d.shows_suggestion()
                    &&& s.len() > 0 && s != line.text.subrange(from, to).push(' ')
                        ==> d.shows_suggestion()
                }
        }),
{
    let s = d.autosuggestion.text;
    let line = d.command_line;
    law_line_bounds(line.text, line.position);
    if s.len() > 0 {
        assert(s =~= s.drop_last().push(s.last()));
        assert forall|from: int, to: int| #[trigger]
            bounds_line(line.text, line.position, from, to) && s == line.text.subrange(
                from,
                to,
            ).push(' ') implies s.drop_last() == line.text.subrange(from, to) && s.last()
            == ' ' by {
            assert(s.drop_last() =~= line.text.subrange(from, to));
        }
    }
}

/// Taking the command leaves an empty command line.
pub proof fn law_command_is_taken(d: DataView)
    requires
        d.wf(),
    ensures
        d.command_taken().command_line.text.len() == 0,
{
    let elt = EditableLineTag::Commandline;
    let n = d.command_line.text.len() as int;
    let whole = Range { start: 0, end: n };
    lemma_edited(d, elt, whole, Seq::empty(), false);
    law_line_is_edited(d.command_line, whole, Seq::empty(), false);
    lemma_moved(d.cleared(elt), elt, None);
}

/// On the screen, what is selected is shown as such before all else, then what a search found, then
/// the color that the character has. A suggestion has its own color, or flashes.
pub proof fn law_colors_on_screen(p: PaintView, ctx: PaintContextView, i: int)
    requires
        p.wf(),
        0 <= i < p.layout.text.len(),
        p.suggestion is None || p.silent,
    ensures
        ({
            let own = p.layout.colors[i];
            let c = p.painted(ctx).colors[i];
            let selected = p.layout.selection is Some && p.layout.selection->0.start <= i
                < p.layout.selection->0.stop;
            let searched = !p.silent && p.layout.history_search_range is Some
                && p.layout.history_search_range->0.start <= i
                < p.layout.history_search_range->0.end;
            &&& p.painted(ctx).colors.len() == p.layout.text.len()
            &&& selected ==> c.foreground == HighlightRole::Selection && c.background
                == HighlightRole::Selection
            &&& !selected && searched ==> c.background == HighlightRole::SearchMatch
            &&& !selected && searched && ctx.explicit_foreground ==> c.foreground
                == HighlightRole::SearchMatch
            &&& !selected && searched && !ctx.explicit_foreground ==> c.foreground
                == own.foreground
            &&& !selected && !searched ==> c == own
        }),
{
}

/// The screen shows the mode prompt before the left one, the cursor where it is, and the text, or as
/// many marks in its place in silent mode. Behind the text, the rest of the suggestion is shown.
pub proof fn law_text_on_screen(p: PaintView, ctx: PaintContextView)
    requires
        p.wf(),
    ensures
        ({
            let screen = p.painted(ctx);
            let text = p.layout.text;
            &&& screen.left_prompt == p.layout.mode_prompt + p.layout.left_prompt
            &&& screen.right_prompt == p.layout.right_prompt
            &&& screen.cursor == p.layout.position
            &&& screen.is_final == p.is_final
            &&& p.silent ==> screen.full_line.len() == text.len() && forall|i: int|
                0 <= i < text.len() ==> #[trigger] screen.full_line[i] == ctx.obfuscation
            &&& !p.silent && p.suggestion is None ==> screen.full_line == text
            &&& p.silent || p.suggestion is None ==> screen.suggested.start
                == screen.suggested.end
            &&& !p.silent && p.suggestion is Some ==> {
                let (r, s) = p.suggestion->0;
                &&& screen.suggested.start == r.end
                &&& screen.suggested.end - screen.suggested.start == s.len() - (r.end - r.start)
                &&& forall|i: int|
                    r.end <= i < screen.suggested.end ==> (#[trigger] screen.colors[i]).foreground
                        == if p.flash {
                        HighlightRole::SearchMatch
                    } else {
                        HighlightRole::Autosuggestion
                    }
            }
        }),
{
}

} // verus!

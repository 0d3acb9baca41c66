//! What prompts, pages of the history and the state seen from outside promise.

use crate::action::{ActionView, AfterPrompt};
use crate::data::{CursorEndMode, DataView, EditableLineTag};
use crate::edit::{lemma_edited, lemma_moved};
use crate::edit_laws::law_line_is_edited;
use crate::flags::Flag;
use crate::history_pager::{page_found, page_size, PageRun, PageSearchView};
use crate::pager::SelectionMotion;
use crate::prompt::{prompts_planned, title_planned, OutputView, PromptFunctions};
use crate::search::SearchDirection;
use crate::state::StateView;
use crate::text::{concat, joined};
use std::ops::Range;
use vstd::prelude::*;

verus! {

/// The prompts that are run are those there are functions for. The left one has a default, which is
/// used where its function is missing; the mode prompt is all of a prompt that is not full. In the
/// last rendering of a prompt its function is told so.
pub proof fn law_prompts_are_planned(
    left: Seq<char>,
    right: Seq<char>,
    full: bool,
    last: bool,
    f: PromptFunctions,
)
    ensures
        ({
            let plan = prompts_planned(left, right, full, last, f);
            let told = " --final-rendering"@;
            &&& plan.mode is Some <==> f.mode
            &&& f.mode && !last ==> plan.mode->0 == "fish_mode_prompt"@
            &&& f.mode && last ==> plan.mode->0 == "fish_mode_prompt"@ + told
            &&& plan.left is Some <==> full && left.len() > 0
            &&& plan.left is Some && f.left && last ==> plan.left->0 == left + told
            &&& plan.left is Some && f.left && !last ==> plan.left->0 == left
            &&& plan.left is Some && !f.left && left != "fish_prompt"@ ==> plan.left->0 == left
            &&& plan.left is Some && !f.left && left == "fish_prompt"@ ==> plan.left->0
                == "echo -n \"$USER@$hostname $PWD \"'> '"@
            &&& plan.right is Some <==> full && right.len() > 0 && (f.right || right
                != "fish_right_prompt"@)
            &&& plan.right is Some && f.right && last ==> plan.right->0 == right + told
            &&& plan.right is Some && !(f.right && last) ==> plan.right->0 == right
        }),
{
}

/// What the prompts printed is shown: the left one with its lines, the others in one line. Without a
/// full prompt only the mode prompt changes.
pub proof fn law_prompts_are_shown(
    d: DataView,
    full: bool,
    last: bool,
    out: OutputView,
    exits: bool,
)
    ensures
        ({
            let next = d.prompts_set(full, last, out, exits);
            &&& out.mode matches Some(lines) ==> next.mode_prompt == concat(lines)
            &&& out.mode is None ==> next.mode_prompt.len() == 0
            &&& full && out.left is Some ==> next.left_prompt == joined(out.left->0, '\n')
            &&& full && out.left is None ==> next.left_prompt.len() == 0
            &&& full && out.right is Some ==> next.right_prompt == concat(out.right->0)
            &&& full && out.right is None ==> next.right_prompt.len() == 0
            &&& !full ==> next.left_prompt == d.left_prompt && next.right_prompt == d.right_prompt
            &&& next.is(Flag::ExitLoopRequested) <==> exits || d.is(Flag::ExitLoopRequested)
            &&& next.command_line == d.command_line
        }),
{
}

/// Lines that are put in one line follow one another.
pub proof fn law_lines_follow(a: Seq<Seq<char>>, line: Seq<char>)
    ensures
        concat(Seq::empty()) == Seq::<char>::empty(),
        concat(seq![line]) == line,
        concat(a + seq![line]) == concat(a) + line,
{
    assert((a + seq![line]).drop_last() =~= a);
    assert(seq![line].drop_last() =~= Seq::empty());
    assert(Seq::<char>::empty() + line =~= line);
}

/// A repaint runs the prompts first: all of them, or the mode prompt only. Where that turns out to be
/// empty, all of them are run after all.
pub proof fn law_repaint_runs_prompts(d: DataView, screen: crate::paint::ScreenState)
    ensures
        ({
            let n = d.actions.len() as int;
            let mode = d.repaint_begun(true);
            let all = d.repaint_begun(false);
            let full = ActionView::ExecPrompt {
                full_prompt: true,
                final_prompt: false,
                next: AfterPrompt::Repaint,
            };
            &&& mode.actions == d.actions.push(ActionView::SetRepainting(true)).push(
                ActionView::ExecPrompt {
                    full_prompt: false,
                    final_prompt: false,
                    next: AfterPrompt::RepaintMode,
                },
            )
            &&& all.actions == d.actions.push(ActionView::SetRepainting(true)).push(full)
            &&& d.mode_prompt.len() == 0 ==> d.prompted(AfterPrompt::RepaintMode, screen).actions
                == d.actions.push(full)
            &&& d.mode_prompt.len() > 0 ==> d.prompted(
                AfterPrompt::RepaintMode,
                screen,
            ).actions.last() == ActionView::SetRepainting(false)
            &&& d.prompted(AfterPrompt::Repaint, screen).actions.last()
                == ActionView::SetRepainting(false)
            &&& d.prompted(AfterPrompt::Nothing, screen) == d
        }),
{
}

/// The title is computed by its function, which is told the command that runs, or is the default one.
pub proof fn law_title(cmd: Seq<char>, escaped: Seq<char>)
    ensures
        title_planned(cmd, false, escaped) == "echo (status current-command) \" \" $PWD"@,
        cmd.len() == 0 ==> title_planned(cmd, true, escaped) == "fish_title"@,
        cmd.len() > 0 ==> title_planned(cmd, true, escaped) == "fish_title"@ + seq![' '] + escaped,
{
    assert("fish_title"@.push(' ') =~= "fish_title"@ + seq![' ']);
}

/// A page of the history takes half of the screen less two lines, and at least twelve. It holds the
/// first commands that were found, in their order, as many as fit. Where none was found and there is
/// more to look at, the search starts over from the other end.
pub proof fn law_page_of_history(
    run: PageRun,
    height: int,
    motion: Option<SelectionMotion>,
    history_size: int,
)
    requires
        run.wf(),
        height >= 0,
        0 <= history_size < usize::MAX,
    ensures
        ({
            let size = page_size(height);
            let found = run.items@.len();
            let page = page_found(run, size, motion, history_size);
            &&& height >= 28 ==> size == height / 2 - 2
            &&& height < 28 ==> size == 12
            &&& found > 0 ==> {
                &&& page matches PageSearchView::Page(p)
                &&& p.matched.len() == if found < size {
                    found
                } else {
                    size as nat
                }
                &&& forall|i: int|
                    0 <= i < p.matched.len() ==> (#[trigger] p.matched[i]).completion
                        == run.items@[i]@ && p.matched[i].flags.replaces_line
                        && p.matched[i].flags.dont_escape && p.matched[i].flags.dont_sort
                &&& p.range.start == run.first_index
                &&& p.range.end == run.indices@[p.matched.len() as int]
                &&& p.motion == motion
            }
            &&& found == 0 && !(run.first_index == 0 && run.indices@[0] == history_size + 1)
                ==> page == (PageSearchView::Again {
                direction: SearchDirection::Forward,
                motion: Some(SelectionMotion::Prev),
                index: (history_size + 1) as usize,
            })
        }),
{
}

/// A buffer that is set from outside replaces the text, with the cursor where it was asked to be or at
/// the end; the list is closed and a search ended. One that is as it was changes nothing.
pub proof fn law_state_is_applied(d: DataView, s: StateView)
    requires
        d.wf(),
        s.wf(),
        d.end_mode == CursorEndMode::Exclusive,
        s.search_field is None,
    ensures
        ({
            let next = d.state_applied(s);
            let same = s.text == d.command_line.text && s.cursor_pos == d.command_line.position;
            &&& same ==> next == d
            &&& !same ==> {
                &&& next.command_line.text == s.text
                &&& next.command_line.position == s.cursor_pos
                &&& next.pager.completions.len() == 0
                &&& !next.search.active()
                &&& next.is(Flag::ResetLoopState)
            }
            &&& next.state().text == s.text
            &&& next.state().cursor_pos == s.cursor_pos
        }),
{
    reveal(DataView::edited);
    let elt = EditableLineTag::Commandline;
    let bare = d.pager_cleared();
    assert(bare.command_line == d.command_line);
    let n = d.command_line.text.len() as int;
    let whole = Range { start: 0, end: n };
    lemma_edited(bare, elt, whole, s.text, false);
    law_line_is_edited(d.command_line, whole, s.text, false);
    assert(d.command_line.text.take(0) + s.text + d.command_line.text.skip(n) =~= s.text);
    lemma_moved(bare.replaced(elt, whole, s.text), elt, Some(s.cursor_pos));
}

} // verus!

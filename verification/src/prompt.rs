//! The prompts, the title, and repainting after the prompts were executed.

use crate::action::{Action, ActionView, AfterPrompt};
use crate::data::{DataView, ReaderConfig, ReaderData};
use crate::flags::Flag;
use crate::paint::ScreenState;
use crate::text::{
    concat, concat_strings, copy_text, join_strings, joined, push_text, text_eq, texts, wide,
    WString,
};
use vstd::prelude::*;

verus! {

/// A simple prompt for reading shell commands that does not rely on functions of the shell, meaning
/// it will work even if those are not installed.
pub open spec fn default_prompt() -> Seq<char> {
    "echo -n \"$USER@$hostname $PWD \"'> '"@
}

/// The name of the function that prints the prompt.
pub open spec fn left_prompt_function() -> Seq<char> {
    "fish_prompt"@
}

/// The name of the function that prints the right prompt.
pub open spec fn right_prompt_function() -> Seq<char> {
    "fish_right_prompt"@
}

/// The name of the function for getting the input mode indicator.
pub open spec fn mode_prompt_function() -> Seq<char> {
    "fish_mode_prompt"@
}

/// The name of the function to use in place of the left prompt if we're in the debugger context.
pub open spec fn debug_prompt_function() -> Seq<char> {
    "fish_breakpoint_prompt"@
}

/// The default title.
pub open spec fn default_title() -> Seq<char> {
    "echo (status current-command) \" \" $PWD"@
}

/// Which of the prompt functions exist.
#[derive(Clone, Copy, PartialEq, Eq, Structural, Debug)]
pub struct PromptFunctions {
    pub mode: bool,
    /// The function that the configuration names for the left prompt.
    pub left: bool,
    /// The function that the configuration names for the right prompt.
    pub right: bool,
}

/// The commands to run for the prompts, in this order.
pub struct PromptPlan {
    pub mode: Option<WString>,
    pub left: Option<WString>,
    pub right: Option<WString>,
}

#[verifier::ext_equal]
pub struct PlanView {
    pub mode: Option<Seq<char>>,
    pub left: Option<Seq<char>>,
    pub right: Option<Seq<char>>,
}

pub open spec fn opt_command(t: Option<WString>) -> Option<Seq<char>> {
    match t {
        Some(t) => Some(t@),
        None => None,
    }
}

impl View for PromptPlan {
    type V = PlanView;

    open spec fn view(&self) -> PlanView {
        PlanView {
            mode: opt_command(self.mode),
            left: opt_command(self.left),
            right: opt_command(self.right),
        }
    }
}

/// The command that runs a prompt: a function is told when the prompt is rendered for the last
/// time.
pub open spec fn prompt_command(cmd: Seq<char>, exists: bool, final_prompt: bool) -> Seq<char> {
    if final_prompt && exists {
        cmd + " --final-rendering"@
    } else {
        cmd
    }
}

pub open spec fn prompts_planned(
    left_cmd: Seq<char>,
    right_cmd: Seq<char>,
    full_prompt: bool,
    final_prompt: bool,
    functions: PromptFunctions,
) -> PlanView {
    PlanView {
        mode: if functions.mode {
            Some(prompt_command(mode_prompt_function(), true, final_prompt))
        } else {
            None
        },
        left: if !full_prompt || left_cmd.len() == 0 {
            None
        } else if left_cmd != left_prompt_function() || functions.left {
            Some(prompt_command(left_cmd, functions.left, final_prompt))
        } else {
            Some(default_prompt())
        },
        right: if full_prompt && right_cmd.len() > 0 && (right_cmd != right_prompt_function()
            || functions.right) {
            Some(prompt_command(right_cmd, functions.right, final_prompt))
        } else {
            None
        },
    }
}

/// What the commands of a plan printed.
pub struct PromptOutput {
    pub mode: Option<Vec<WString>>,
    pub left: Option<Vec<WString>>,
    pub right: Option<Vec<WString>>,
}

#[verifier::ext_equal]
pub struct OutputView {
    pub mode: Option<Seq<Seq<char>>>,
    pub left: Option<Seq<Seq<char>>>,
    pub right: Option<Seq<Seq<char>>>,
}

pub open spec fn opt_lines(t: Option<Vec<WString>>) -> Option<Seq<Seq<char>>> {
    match t {
        Some(t) => Some(texts(t@)),
        None => None,
    }
}

impl View for PromptOutput {
    type V = OutputView;

    open spec fn view(&self) -> OutputView {
        OutputView {
            mode: opt_lines(self.mode),
            left: opt_lines(self.left),
            right: opt_lines(self.right),
        }
    }
}

pub open spec fn concat_or_empty(lines: Option<Seq<Seq<char>>>) -> Seq<char> {
    match lines {
        Some(lines) => concat(lines),
        None => Seq::empty(),
    }
}

pub open spec fn joined_or_empty(lines: Option<Seq<Seq<char>>>) -> Seq<char> {
    match lines {
        Some(lines) => joined(lines, '\n'),
        None => Seq::empty(),
    }
}

impl DataView {
    /// The prompts taken over. Some prompt may have requested an exit.
    pub open spec fn prompts_set(
        self,
        full_prompt: bool,
        final_prompt: bool,
        out: OutputView,
        exit_requested: bool,
    ) -> DataView {
        let mode = DataView { mode_prompt: concat_or_empty(out.mode), ..self };
        let next = if full_prompt {
            DataView {
                left_prompt: joined_or_empty(out.left),
                right_prompt: concat_or_empty(out.right),
                ..mode
            }
        } else {
            mode
        };
        let hacked = if full_prompt && final_prompt && self.conf.left_prompt_cmd.len() > 0 {
            next.queued(ActionView::MultilinePromptHack)
        } else {
            next
        };
        if exit_requested {
            hacked.with_flag(Flag::ExitLoopRequested, true)
        } else {
            hacked
        }
    }

    pub open spec fn prompting(self, full_prompt: bool, final_prompt: bool, next: AfterPrompt) -> DataView {
        self.queued(ActionView::ExecPrompt { full_prompt, final_prompt, next })
    }

    /// The line painted anew, prompt and all.
    pub open spec fn line_repainted(self, screen: ScreenState) -> DataView {
        self.queued(ActionView::ResetLine).painted(screen, false)
    }

    /// A repaint begun: the mode prompt executed, or all prompts.
    pub open spec fn repaint_begun(self, mode_only: bool) -> DataView {
        let noted = self.with_flag(Flag::QueuedRepaint, false).queued(
            ActionView::SetRepainting(true),
        );
        if mode_only {
            noted.prompting(false, false, AfterPrompt::RepaintMode)
        } else {
            noted.prompting(true, false, AfterPrompt::Repaint)
        }
    }

    /// What follows after the prompts were executed.
    pub open spec fn prompted(self, next: AfterPrompt, screen: ScreenState) -> DataView {
        match next {
            AfterPrompt::Nothing => self,
            AfterPrompt::RepaintMode => if self.mode_prompt.len() > 0 {
                let shown = if self.stale(None, screen) {
                    self.line_repainted(screen)
                } else {
                    self
                };
                shown.queued(ActionView::SetRepainting(false))
            } else {
                self.prompting(true, false, AfterPrompt::Repaint)
            },
            AfterPrompt::Repaint => self.line_repainted(screen).with_flag(
                Flag::ForceExecPromptAndRepaint,
                false,
            ).queued(ActionView::SetRepainting(false)),
        }
    }

    /// The screen cleared, the old prompt drawn, and the prompts executed to be drawn over it.
    pub open spec fn screen_cleared(self, screen: ScreenState) -> DataView {
        self.queued(ActionView::SetRepainting(true)).queued(ActionView::ClearScreen).line_repainted(
            screen,
        ).prompting(true, false, AfterPrompt::Repaint)
    }
}

fn exec_prompt_cmd(cmd: &[char], exists: bool, final_prompt: bool) -> (r: WString)
    ensures
        r@ == prompt_command(cmd@, exists, final_prompt),
{
    let mut r = copy_text(cmd);
    if final_prompt && exists {
        push_text(&mut r, &wide(" --final-rendering"));
    }
    r
}

/// The commands to run for the prompts.
pub fn plan_prompts(
    conf: &ReaderConfig,
    full_prompt: bool,
    final_prompt: bool,
    functions: PromptFunctions,
) -> (r: PromptPlan)
    ensures
        r@ == prompts_planned(
            conf@.left_prompt_cmd,
            conf@.right_prompt_cmd,
            full_prompt,
            final_prompt,
            functions,
        ),
{
    let mode = if functions.mode {
        Some(exec_prompt_cmd(&wide("fish_mode_prompt"), true, final_prompt))
    } else {
        None
    };
    let mut left = None;
    let mut right = None;
    if full_prompt {
        if conf.left_prompt_cmd.len() > 0 {
            // If the left prompt function is deleted, then use a default prompt instead of producing
            // an error.
            left = Some(
                if !text_eq(&conf.left_prompt_cmd, &wide("fish_prompt")) || functions.left {
                    exec_prompt_cmd(&conf.left_prompt_cmd, functions.left, final_prompt)
                } else {
                    wide("echo -n \"$USER@$hostname $PWD \"'> '")
                },
            );
        }
        // Don't execute the right prompt if it is undefined fish_right_prompt
        if conf.right_prompt_cmd.len() > 0 && (!text_eq(
            &conf.right_prompt_cmd,
            &wide("fish_right_prompt"),
        ) || functions.right) {
            right = Some(exec_prompt_cmd(&conf.right_prompt_cmd, functions.right, final_prompt));
        }
    }
    PromptPlan { mode, left, right }
}

pub open spec fn title_planned(cmd: Seq<char>, function_exists: bool, escaped: Seq<char>) -> Seq<char> {
    if !function_exists {
        default_title()
    } else if cmd.len() == 0 {
        "fish_title"@
    } else {
        "fish_title"@.push(' ') + escaped
    }
}

/// The command whose output is written to the titlebar, just before a new application starts
/// executing and just after it finishes. `escaped` is the command line, escaped.
pub fn reader_write_title(cmd: &[char], function_exists: bool, escaped: &[char]) -> (r: WString)
    ensures
        r@ == title_planned(cmd@, function_exists, escaped@),
{
    if !function_exists {
        return wide("echo (status current-command) \" \" $PWD");
    }
    let mut r = wide("fish_title");
    if cmd.len() > 0 {
        r.push(' ');
        push_text(&mut r, escaped);
    }
    r
}

/// Something to write for a title.
pub enum TitleWrite {
    /// The lines that the title is made of.
    Title(Vec<WString>),
    ResetTextFace,
    CarriageReturn,
}

pub enum TitleWriteView {
    Title(Seq<Seq<char>>),
    ResetTextFace,
    CarriageReturn,
}

impl View for TitleWrite {
    type V = TitleWriteView;

    open spec fn view(&self) -> TitleWriteView {
        match self {
            TitleWrite::Title(lines) => TitleWriteView::Title(texts(lines@)),
            TitleWrite::ResetTextFace => TitleWriteView::ResetTextFace,
            TitleWrite::CarriageReturn => TitleWriteView::CarriageReturn,
        }
    }
}

pub open spec fn title_writes(s: Seq<TitleWrite>) -> Seq<TitleWriteView> {
    s.map_values(|w: TitleWrite| w@)
}

/// What is written for a title that consists of the given lines: the title unless there is none,
/// then the text face is reset, and the cursor put back where that is asked for.
pub open spec fn title_written(lines: Seq<Seq<char>>, reset_cursor_position: bool) -> Seq<
    TitleWriteView,
> {
    let title = if lines.len() > 0 {
        seq![TitleWriteView::Title(lines)]
    } else {
        seq![]
    };
    let face = title.push(TitleWriteView::ResetTextFace);
    if reset_cursor_position {
        face.push(TitleWriteView::CarriageReturn)
    } else {
        face
    }
}

/// Decide what to write for a title, from what the command printed. If `reset_cursor_position` is
/// set, issue a \r so the line driver knows where we are.
pub fn write_title(lines: Vec<WString>, reset_cursor_position: bool) -> (r: Vec<TitleWrite>)
    ensures
        title_writes(r@) == title_written(texts(lines@), reset_cursor_position),
{
    let mut r: Vec<TitleWrite> = Vec::new();
    let ghost all = texts(lines@);
    if lines.len() > 0 {
        r.push(TitleWrite::Title(lines));
    }
    r.push(TitleWrite::ResetTextFace);
    if reset_cursor_position {
        // Put the cursor back at the beginning of the line.
        r.push(TitleWrite::CarriageReturn);
    }
    assert(title_writes(r@) =~= title_written(all, reset_cursor_position));
    r
}

impl ReaderData {
    /// Take over what the prompts printed. `exit_requested` tells whether some prompt asked for an
    /// exit.
    pub fn set_prompts(
        &mut self,
        full_prompt: bool,
        final_prompt: bool,
        out: &PromptOutput,
        exit_requested: bool,
    )
        requires
            old(self)@.wf(),
        ensures
            final(self)@ == old(self)@.prompts_set(full_prompt, final_prompt, out@, exit_requested),
            final(self)@.wf(),
    {
        // We do not support multiline mode indicators, so just concatenate all of them.
        self.mode_prompt_buff = match &out.mode {
            Some(lines) => concat_strings(lines),
            None => Vec::new(),
        };
        if full_prompt {
            self.left_prompt_buff = match &out.left {
                Some(lines) => join_strings(lines, '\n'),
                None => Vec::new(),
            };
            // Right prompt does not support multiple lines, so just concatenate all of them.
            self.right_prompt_buff = match &out.right {
                Some(lines) => concat_strings(lines),
                None => Vec::new(),
            };
            if final_prompt && self.conf.left_prompt_cmd.len() > 0 {
                self.queue(Action::MultilinePromptHack);
            }
        }
        // Some prompt may have requested an exit.
        if exit_requested {
            self.flags.set(Flag::ExitLoopRequested, true);
        }
    }

    /// Have the prompts executed.
    pub fn exec_prompt(&mut self, full_prompt: bool, final_prompt: bool, next: AfterPrompt)
        requires
            old(self)@.wf(),
        ensures
            final(self)@ == old(self)@.prompting(full_prompt, final_prompt, next),
            final(self)@.wf(),
    {
        self.queue(Action::ExecPrompt { full_prompt, final_prompt, next });
    }

    fn repaint_line(&mut self, screen: ScreenState)
        requires
            old(self)@.wf(),
        ensures
            final(self)@ == old(self)@.line_repainted(screen),
            final(self)@.wf(),
    {
        self.queue(Action::ResetLine);
        self.layout_and_repaint(screen);
    }

    /// Begin a repaint, of the mode prompt only if possible.
    pub fn begin_repaint(&mut self, mode_only: bool)
        requires
            old(self)@.wf(),
        ensures
            final(self)@ == old(self)@.repaint_begun(mode_only),
            final(self)@.wf(),
    {
        self.flags.set(Flag::QueuedRepaint, false);
        self.queue(Action::SetRepainting(true));
        if mode_only {
            // Repaint the mode-prompt only if possible.
            // This is an optimization basically exclusively for vi-mode, since the prompt may
            // sometimes take a while but when switching the mode all we care about is the
            // mode-prompt.
            self.exec_prompt(false, false, AfterPrompt::RepaintMode);
        } else {
            self.exec_prompt(true, false, AfterPrompt::Repaint);
        }
    }

    /// Called after the prompts were executed.
    pub fn prompt_executed(
        &mut self,
        full_prompt: bool,
        final_prompt: bool,
        next: AfterPrompt,
        out: &PromptOutput,
        exit_requested: bool,
        screen: ScreenState,
    )
        requires
            old(self)@.wf(),
        ensures
            final(self)@ == old(self)@.prompts_set(
                full_prompt,
                final_prompt,
                out@,
                exit_requested,
            ).prompted(next, screen),
            final(self)@.wf(),
    {
        self.set_prompts(full_prompt, final_prompt, out, exit_requested);
        self.follow_prompt(next, screen);
    }

    fn follow_prompt(&mut self, next: AfterPrompt, screen: ScreenState)
        requires
            old(self)@.wf(),
        ensures
            final(self)@ == old(self)@.prompted(next, screen),
            final(self)@.wf(),
    {
        match next {
            AfterPrompt::Nothing => {},
            AfterPrompt::RepaintMode => {
                // Because some users set `fish_mode_prompt` to an empty function and display the
                // mode elsewhere, we detect if the mode output is empty.
                if self.mode_prompt_buff.len() > 0 {
                    if self.is_repaint_needed(None, screen) {
                        self.repaint_line(screen);
                    }
                    self.queue(Action::SetRepainting(false));
                } else {
                    // Else we repaint as normal.
                    self.exec_prompt(true, false, AfterPrompt::Repaint);
                }
            },
            AfterPrompt::Repaint => {
                self.repaint_line(screen);
                self.flags.set(Flag::ForceExecPromptAndRepaint, false);
                self.queue(Action::SetRepainting(false));
            },
        }
    }

    /// Clear the screen. This is subtle: We first clear, draw the old prompt, and *then* reexecute
    /// the prompt and overdraw it. This removes the flicker, while keeping the prompt up-to-date.
    pub fn clear_screen_and_repaint(&mut self, screen: ScreenState)
        requires
            old(self)@.wf(),
        ensures
            final(self)@ == old(self)@.screen_cleared(screen),
            final(self)@.wf(),
    {
        self.queue(Action::SetRepainting(true));
        self.queue(Action::ClearScreen);
        self.repaint_line(screen);
        self.exec_prompt(true, false, AfterPrompt::Repaint);
    }
}

} // verus!

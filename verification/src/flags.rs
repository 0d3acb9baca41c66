//! The switches of the reader.

use vstd::prelude::*;

verus! {

/// A switch of the reader.
#[derive(Clone, Copy, PartialEq, Eq, Structural, Debug)]
pub enum Flag {
    /// When backspacing, we temporarily suppress autosuggestions.
    SuppressAutosuggestion,
    /// Reset the loop state from the outside.
    ResetLoopState,
    /// This is the first prompt.
    FirstPrompt,
    /// The autosuggestion flashes.
    FlashAutosuggestion,
    /// A repaint is in the input queue.
    QueuedRepaint,
    /// A key binding or the 'exit' command has asked us to exit our read loop.
    ExitLoopRequested,
    /// Exit even if there are running jobs. This happens if we press e.g. ^D twice.
    DidWarnForBgJobs,
    /// Re-execute all prompts and re-render. This may come about when a color like
    /// $fish_color... has changed.
    ForceExecPromptAndRepaint,
}

/// The switches; seen from outside, the set of those that are on.
#[derive(Clone, Copy, PartialEq, Eq, Structural, Debug)]
pub struct Flags {
    suppress_autosuggestion: bool,
    reset_loop_state: bool,
    first_prompt: bool,
    flash_autosuggestion: bool,
    queued_repaint: bool,
    exit_loop_requested: bool,
    did_warn_for_bg_jobs: bool,
    force_exec_prompt_and_repaint: bool,
}

/// The set with one switch turned on or off.
pub open spec fn switched(s: Set<Flag>, f: Flag, on: bool) -> Set<Flag> {
    if on {
        s.insert(f)
    } else {
        s.remove(f)
    }
}

impl View for Flags {
    type V = Set<Flag>;

    closed spec fn view(&self) -> Set<Flag> {
        Set::new(
            |f: Flag|
                match f {
                    Flag::SuppressAutosuggestion => self.suppress_autosuggestion,
                    Flag::ResetLoopState => self.reset_loop_state,
                    Flag::FirstPrompt => self.first_prompt,
                    Flag::FlashAutosuggestion => self.flash_autosuggestion,
                    Flag::QueuedRepaint => self.queued_repaint,
                    Flag::ExitLoopRequested => self.exit_loop_requested,
                    Flag::DidWarnForBgJobs => self.did_warn_for_bg_jobs,
                    Flag::ForceExecPromptAndRepaint => self.force_exec_prompt_and_repaint,
                },
        )
    }
}

impl Flags {
    /// All switches off.
    pub fn new() -> (r: Flags)
        ensures
            r@ == Set::<Flag>::empty(),
    {
        let r = Flags {
            suppress_autosuggestion: false,
            reset_loop_state: false,
            first_prompt: false,
            flash_autosuggestion: false,
            queued_repaint: false,
            exit_loop_requested: false,
            did_warn_for_bg_jobs: false,
            force_exec_prompt_and_repaint: false,
        };
        assert(r@ =~= Set::<Flag>::empty());
        r
    }

    pub fn get(&self, f: Flag) -> (on: bool)
        ensures
            on == self@.contains(f),
    {
        match f {
            Flag::SuppressAutosuggestion => self.suppress_autosuggestion,
            Flag::ResetLoopState => self.reset_loop_state,
            Flag::FirstPrompt => self.first_prompt,
            Flag::FlashAutosuggestion => self.flash_autosuggestion,
            Flag::QueuedRepaint => self.queued_repaint,
            Flag::ExitLoopRequested => self.exit_loop_requested,
            Flag::DidWarnForBgJobs => self.did_warn_for_bg_jobs,
            Flag::ForceExecPromptAndRepaint => self.force_exec_prompt_and_repaint,
        }
    }

    pub fn set(&mut self, f: Flag, on: bool)
        ensures
            final(self)@ == switched(old(self)@, f, on),
    {
        match f {
            Flag::SuppressAutosuggestion => self.suppress_autosuggestion = on,
            Flag::ResetLoopState => self.reset_loop_state = on,
            Flag::FirstPrompt => self.first_prompt = on,
            Flag::FlashAutosuggestion => self.flash_autosuggestion = on,
            Flag::QueuedRepaint => self.queued_repaint = on,
            Flag::ExitLoopRequested => self.exit_loop_requested = on,
            Flag::DidWarnForBgJobs => self.did_warn_for_bg_jobs = on,
            Flag::ForceExecPromptAndRepaint => self.force_exec_prompt_and_repaint = on,
        }
        assert(self@ =~= switched(old(self)@, f, on));
    }
}

} // verus!

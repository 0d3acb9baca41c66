//! Handling the events of the input.

use crate::action::{Action, ActionView, AfterPrompt};
use crate::command::{
    command_ends_history_search, command_ends_paging, ends_history_search, ends_paging, is_repaint,
    CharEvent, CharInputStyle, CursorPositionQuery, ImplicitEvent, KeyEvent, QueryResponseEvent,
    ReadlineCmd, TerminalQuery,
};
use crate::data::{DataView, EditableLineTag, LoopView, ReaderData, ReadlineLoopState};
use crate::flags::Flag;
use crate::host::stdin_fileno;
use crate::paging::CharOffset;
use crate::paint::ScreenState;
use crate::readline::{command_group, group_of, CommandGroup, Surroundings, SurroundingsView};
use crate::search::SearchView;
use crate::text::{contains_char, copy_text, text_eq, wide, WString};
use vstd::prelude::*;

verus! {

/// The maximum number of characters to read from the keyboard without repainting. Note that this
/// readahead will only occur if new characters are available for reading, we never block for more
/// input without repainting.
pub const READAHEAD_MAX: usize = 256;

/// What the reader shares with the interpreter of scripts.
#[derive(Clone, Copy, PartialEq, Eq, Structural, Debug)]
pub struct ParserState {
    /// A script asked for an exit.
    pub exit_current_script: bool,
    /// Scripts may not change the command line.
    pub readonly_commandline: bool,
    /// The terminal was asked for its capabilities, or is known not to answer.
    pub queried: bool,
    /// The query that the terminal has not answered yet.
    pub blocking_query: Option<TerminalQuery>,
}

/// Reader is ReaderData equipped with the state of the interpreter.
pub struct Reader {
    pub data: ReaderData,
    pub parser: ParserState,
}

pub struct ReaderView {
    pub data: DataView,
    pub parser: ParserState,
}

impl View for Reader {
    type V = ReaderView;

    open spec fn view(&self) -> ReaderView {
        ReaderView { data: self.data@, parser: self.parser }
    }
}

/// What is known of the terminal when an event comes in.
#[derive(Clone, Copy, PartialEq, Eq, Structural, Debug)]
pub struct TerminalState {
    /// The output goes to a terminal.
    pub stdout_is_tty: bool,
    /// The terminal can scroll forward.
    pub scroll_forward_supported: bool,
    /// The terminal has not said whether it supports the kitty keyboard protocol.
    pub kitty_unknown: bool,
    /// What the cell belongs to that the mouse was clicked on.
    pub clicked: CharOffset,
}

/// What is known of the terminal at startup.
#[derive(Clone, Copy, PartialEq, Eq, Structural, Debug)]
pub struct TerminalKind {
    pub is_dumb: bool,
    pub in_midnight_commander: bool,
    pub in_dvtm: bool,
    pub stdout_is_tty: bool,
    /// Capabilities can be asked for by device control strings.
    pub via_dcs: bool,
}

/// Whether the terminal's capabilities can be asked for by device control strings: not within
/// screen, which `STY` or the name of the terminal gives away.
pub fn query_capabilities_via_dcs(sty_is_set: bool, term: Option<&[char]>) -> (r: bool)
    ensures
        r == (!sty_is_set && (term matches Some(t) ==> t@ != "screen"@ && t@
            != "screen-256color"@)),
{
    if sty_is_set {
        return false;
    }
    match term {
        Some(term) => {
            let screen = wide("screen");
            let screen_256 = wide("screen-256color");
            !(text_eq(term, &screen) || text_eq(term, &screen_256))
        },
        None => true,
    }
}

impl DataView {
    pub open spec fn with_last_cmd(self, c: Option<ReadlineCmd>) -> DataView {
        DataView { rls: Some(LoopView { last_cmd: c, ..self.rls.unwrap() }), ..self }
    }

    /// The limit of characters to read is reached.
    pub open spec fn at_limit(self) -> bool {
        self.rls.unwrap().nchars matches Some(n) && n <= self.command_line.text.len()
    }

    /// What was remembered for the next command forgotten, if a script changed the command line.
    pub open spec fn loop_state_reset(self) -> DataView {
        if self.is(Flag::ResetLoopState) {
            DataView {
                rls: Some(
                    LoopView {
                        last_cmd: None,
                        complete_did_insert: false,
                        complete_chose_one: false,
                        ..self.rls.unwrap()
                    },
                ),
                ..self.with_flag(Flag::ResetLoopState, false)
            }
        } else {
            self
        }
    }

    /// Everything shown before the next event. Reading ends where the limit is reached.
    #[verifier::opaque]
    pub open spec fn event_begun(self, screen: ScreenState) -> DataView {
        let shown = self.loop_state_reset().refreshed(screen);
        if shown.at_limit() {
            DataView { rls: Some(LoopView { finished: true, ..shown.rls.unwrap() }), ..shown }
        } else {
            shown
        }
    }

    /// How many characters are read before the next repaint.
    pub open spec fn readahead(self) -> int {
        match self.rls.unwrap().nchars {
            Some(n) => if n - self.command_line.text.len() < READAHEAD_MAX {
                n - self.command_line.text.len()
            } else {
                READAHEAD_MAX as int
            },
            None => READAHEAD_MAX as int,
        }
    }

    /// Characters that were read inserted into the active line.
    pub open spec fn chars_read(self, chars: Seq<char>) -> DataView {
        if chars.len() == 0 {
            self
        } else {
            let next = self.inserted(self.active_tag(), chars);
            let shown = if self.active_tag() == EditableLineTag::Commandline {
                next.pager_cleared()
            } else {
                next
            };
            shown.with_last_cmd(None)
        }
    }

    /// One character typed. It ends paging and a history search, unless it goes into the search
    /// field.
    pub open spec fn typed(self, c: char) -> DataView {
        let next = self.inserted(self.active_tag(), seq![c]);
        if self.active_tag() == EditableLineTag::Commandline {
            DataView { search: SearchView::inactive(), ..next.pager_cleared() }
        } else {
            next
        }
    }

    pub open spec fn key_handled(self, k: KeyEvent) -> DataView {
        let next = if k.input_style == CharInputStyle::NotFirst && self.active_line().position
            == 0 {
            self
        } else {
            match k.codepoint_text {
                Some(c) => self.typed(c),
                None => self,
            }
        };
        next.with_last_cmd(None)
    }

    /// What goes before a command: the length of the last yank is forgotten unless the last command
    /// was a yank, what the pager put into the command line is taken back on cancelling, and paging
    /// ends.
    pub open spec fn command_begun(self, c: ReadlineCmd) -> DataView {
        let noted = if self.last_cmd() == Some(ReadlineCmd::Yank) || self.last_cmd() == Some(
            ReadlineCmd::YankPop,
        ) {
            self
        } else {
            self.with_yank_len(0)
        };
        let kept = if c == ReadlineCmd::Cancel && noted.navigating() {
            noted.transient_edit_undone()
        } else {
            noted
        };
        if !kept.search.active() && ends_paging(
            c,
            kept.active_tag() == EditableLineTag::SearchField,
        ) {
            kept.pager_cleared()
        } else {
            kept
        }
    }

    /// What follows a command: a history search ends, unless the command goes on with it. Cancelling
    /// goes back to what was searched for.
    pub open spec fn command_ended(self, c: ReadlineCmd) -> DataView {
        let next = if self.search.active() && ends_history_search(c) {
            let base = if c == ReadlineCmd::Cancel {
                self.transient_edit_undone()
            } else {
                self
            };
            DataView { search: SearchView::inactive(), transient_edit: None, ..base }
        } else {
            self
        };
        next.with_last_cmd(Some(c))
    }

    /// A new loop begun: nothing is remembered of the last one, and everything is to be painted.
    pub open spec fn loop_begun(self, nchars: Option<usize>) -> DataView {
        DataView {
            rls: Some(LoopView { nchars, ..LoopView::start() }),
            cycle_command_line: Seq::empty(),
            cycle_cursor_pos: 0,
            search: SearchView::inactive(),
            ..self
        }
    }

    /// Some loop state, where there is none yet.
    pub open spec fn looping(self) -> DataView {
        DataView {
            rls: Some(
                match self.rls {
                    Some(l) => l,
                    None => LoopView::start(),
                },
            ),
            ..self
        }
    }

    /// That a repaint is asked for noted.
    pub open spec fn repaint_noted(self, c: ReadlineCmd) -> DataView {
        if is_repaint(c) {
            self.with_flag(Flag::QueuedRepaint, true)
        } else {
            self
        }
    }

    /// The first prompt of a loop asked for, on a fresh line but for the very first one.
    pub open spec fn first_prompted(self) -> DataView {
        let fresh = if self.is(Flag::FirstPrompt) {
            self.with_flag(Flag::FirstPrompt, false)
        } else {
            self.queued(ActionView::ResetAbandoningLine)
        };
        let fired = if self.conf.event.len() > 0 {
            fresh.queued(ActionView::FireEvent(self.conf.event))
        } else {
            fresh
        };
        fired.prompting(true, false, AfterPrompt::Nothing).with_flag(
            Flag::ForceExecPromptAndRepaint,
            true,
        )
    }

    /// The prompts executed for the last time, where that is asked for.
    pub open spec fn finally_prompted(self, wrote_to_tty: bool) -> DataView {
        let saved = if wrote_to_tty {
            self.queued(ActionView::SaveScreenState)
        } else {
            self
        };
        if self.conf.transient_prompt {
            saved.prompting(true, true, AfterPrompt::Nothing)
        } else {
            saved
        }
    }

    /// The command line painted for the last time, if that changes anything.
    pub open spec fn finally_painted(self, scrolled: bool, screen: ScreenState) -> DataView {
        if self.stale(None, screen) || scrolled || self.conf.inputfd != 0 {
            self.painted(screen, true)
        } else {
            self
        }
    }

    /// The cursor put where the output of the command goes: below the command line.
    pub open spec fn placed_below(self, wrapped: bool) -> DataView {
        let below = if wrapped {
            self
        } else {
            self.queued(ActionView::WriteNewline)
        };
        if self.conf.inputfd != 0 {
            below.queued(ActionView::WriteCarriageReturn)
        } else {
            below
        }
    }

    /// The pager erased from the screen.
    pub open spec fn pager_erased(self) -> DataView {
        if self.pager.is_empty() {
            self
        } else {
            self.queued(ActionView::ClearToEnd).pager_cleared()
        }
    }

    /// The loop left: the output goes below the command line, and the pager is gone.
    pub open spec fn loop_ended(self, wrapped: bool) -> DataView {
        DataView { rls: None, ..self.placed_below(wrapped).pager_erased() }
    }
}

impl ReaderView {
    pub open spec fn wf(self) -> bool {
        self.data.wf()
    }

    pub open spec fn with_data(self, data: DataView) -> ReaderView {
        ReaderView { data, ..self }
    }

    pub open spec fn with_query(self, q: Option<TerminalQuery>) -> ReaderView {
        ReaderView { parser: ParserState { blocking_query: q, ..self.parser }, ..self }
    }

    /// The terminal asked for the position of the cursor.
    pub open spec fn position_requested(self, stdout_is_tty: bool, q: CursorPositionQuery) -> ReaderView {
        if stdout_is_tty {
            self.with_query(Some(TerminalQuery::CursorPositionReport(q))).with_data(
                self.data.queued(ActionView::QueryCursorPosition).queued(
                    ActionView::SaveScreenState,
                ),
            )
        } else {
            self
        }
    }

    pub open spec fn command_fits(self, c: ReadlineCmd, env: SurroundingsView, t: TerminalState) -> bool {
        match group_of(c) {
            CommandGroup::Motion => self.data.cursor_command_fits(c, env),
            CommandGroup::Kill => self.data.kill_command_fits(c, env),
            CommandGroup::Rewrite => self.data.text_command_fits(c, env),
            CommandGroup::History => self.data.history_command_fits(c, env),
            CommandGroup::Control => self.data.control_command_fits(c, env),
            CommandGroup::Scrollback => t.scroll_forward_supported
                ==> self.parser.blocking_query != Some(TerminalQuery::PrimaryDeviceAttribute),
            CommandGroup::Inert => true,
        }
    }

    /// A command run.
    pub open spec fn commanded(self, c: ReadlineCmd, env: SurroundingsView, t: TerminalState) -> ReaderView {
        match group_of(c) {
            CommandGroup::Motion => self.with_data(self.data.cursor_command(c, env)),
            CommandGroup::Kill => self.with_data(self.data.kill_command(c, env)),
            CommandGroup::Rewrite => self.with_data(self.data.text_command(c, env)),
            CommandGroup::History => self.with_data(self.data.history_command(c, env)),
            CommandGroup::Control => self.with_data(self.data.control_command(c, env)),
            CommandGroup::Scrollback => if t.scroll_forward_supported
                && self.parser.blocking_query is None {
                self.position_requested(t.stdout_is_tty, CursorPositionQuery::ScrollbackPush)
            } else {
                self
            },
            CommandGroup::Inert => self,
        }
    }

    /// An exit that a script asked for is one that the reader is asked for.
    pub open spec fn exit_noted(self) -> ReaderView {
        ReaderView {
            parser: ParserState { exit_current_script: false, ..self.parser },
            data: if self.parser.exit_current_script {
                self.data.with_flag(Flag::ExitLoopRequested, true)
            } else {
                self.data
            },
        }
    }

    pub open spec fn implicit_handled(self, e: ImplicitEvent, t: TerminalState) -> ReaderView {
        match e {
            ImplicitEvent::Eof => self.with_data(self.data.queued(ActionView::Hangup)),
            ImplicitEvent::CheckExit => self,
            ImplicitEvent::FocusIn => self.with_data(self.data.queued(ActionView::FireFocusIn)),
            ImplicitEvent::FocusOut => self.with_data(self.data.queued(ActionView::FireFocusOut)),
            ImplicitEvent::DisableMouseTracking => self.with_data(
                self.data.queued(ActionView::DisableMouseTracking).queued(
                    ActionView::SaveScreenState,
                ),
            ),
            ImplicitEvent::MouseLeft(position) => self.position_requested(
                t.stdout_is_tty,
                CursorPositionQuery::MouseLeft(position),
            ),
        }
    }

    /// A reply of the terminal handled. One that was not asked for is ignored.
    pub open spec fn response_handled(self, response: QueryResponseEvent, t: TerminalState) -> ReaderView {
        match response {
            QueryResponseEvent::PrimaryDeviceAttribute => {
                if self.parser.blocking_query != Some(TerminalQuery::PrimaryDeviceAttribute) {
                    self
                } else if t.kitty_unknown {
                    self.with_data(
                        self.data.queued(ActionView::NoteKittyUnsupported).queued(
                            ActionView::SaveScreenState,
                        ),
                    ).with_query(None)
                } else {
                    self.with_query(None)
                }
            },
            QueryResponseEvent::CursorPositionReport(pos) => {
                match self.parser.blocking_query {
                    Some(TerminalQuery::CursorPositionReport(q)) => self.with_data(
                        match q {
                            CursorPositionQuery::MouseLeft(_) => self.data.clicked(t.clicked),
                            CursorPositionQuery::ScrollbackPush => self.data.queued(
                                ActionView::PushToScrollback(pos.y),
                            ),
                        },
                    ).with_query(None),
                    _ => self,
                }
            },
        }
    }

    /// An event handled. A command is only begun here.
    pub open spec fn event_handled(self, event: Option<CharEvent>, t: TerminalState) -> ReaderView {
        let next = self.exit_noted();
        if next.data.is(Flag::ExitLoopRequested) {
            next
        } else {
            match event {
                Some(CharEvent::Readline(c)) => next.with_data(next.data.command_begun(c)),
                Some(CharEvent::Command(command)) => next.with_data(
                    next.data.queued(ActionView::RunInputCommand(command@)),
                ),
                Some(CharEvent::Key(k)) => next.with_data(next.data.key_handled(k)),
                Some(CharEvent::Implicit(e)) => next.implicit_handled(e, t),
                Some(CharEvent::QueryResponse(response)) => next.response_handled(response, t),
                None => next,
            }
        }
    }

    /// The event is one that can come now, with what is said of the terminal.
    pub open spec fn event_fits(self, event: Option<CharEvent>, t: TerminalState) -> bool {
        let n = self.data.active_line().text.len();
        &&& event matches Some(CharEvent::Implicit(ImplicitEvent::MouseLeft(_))) ==> (t.stdout_is_tty
            ==> self.parser.blocking_query is None)
        &&& event matches Some(CharEvent::QueryResponse(_)) ==> (t.clicked matches CharOffset::Cmd(p)
            ==> p <= n)
        &&& event matches Some(CharEvent::QueryResponse(_)) ==> (t.clicked matches CharOffset::Pointer(p)
            ==> p <= n)
    }

    /// A command that a script asks for begun. Repaints, and what follows one, are put off.
    pub open spec fn script_command_begun(
        self,
        c: ReadlineCmd,
        screen: ScreenState,
        t: TerminalState,
    ) -> ReaderView {
        let noted = self.data.repaint_noted(c);
        if noted.is(Flag::QueuedRepaint) {
            self.with_data(noted.queued(ActionView::QueueReadline(c)))
        } else {
            let begun = noted.looping().queued(ActionView::SaveScreenState).event_begun(screen);
            if begun.at_limit() {
                self.with_data(begun)
            } else {
                self.with_data(begun).event_handled(Some(CharEvent::Readline(c)), t)
            }
        }
    }

    /// Whether a command that a script asks for is to be run now.
    pub open spec fn runs_script_command(self, c: ReadlineCmd, screen: ScreenState) -> bool {
        let noted = self.data.repaint_noted(c);
        let begun = noted.looping().queued(ActionView::SaveScreenState).event_begun(screen);
        !noted.is(Flag::QueuedRepaint) && !begun.at_limit() && !self.with_data(
            begun,
        ).exit_noted().data.is(Flag::ExitLoopRequested)
    }

    /// The terminal asked for its capabilities, once.
    pub open spec fn initially_queried(self, k: TerminalKind) -> ReaderView {
        if self.parser.queried {
            self
        } else {
            let noted = ReaderView { parser: ParserState { queried: true, ..self.parser }, ..self };
            if k.is_dumb || k.in_midnight_commander || k.in_dvtm || !k.stdout_is_tty {
                noted.with_query(None)
            } else {
                noted.with_query(Some(TerminalQuery::PrimaryDeviceAttribute)).with_data(
                    self.data.queued(ActionView::QueryCapabilities { via_dcs: k.via_dcs }),
                )
            }
        }
    }

    pub open spec fn readline_begun(self, nchars: Option<usize>, k: TerminalKind) -> ReaderView {
        let queried = self.with_data(self.data.loop_begun(nchars)).initially_queried(k);
        queried.with_data(queried.data.first_prompted())
    }
}

impl ReaderData {
    fn ensure_loop(&mut self)
        requires
            old(self)@.wf(),
        ensures
            final(self)@ == old(self)@.looping(),
            final(self)@.wf(),
            final(self)@.rls is Some,
    {
        if self.rls.is_none() {
            self.rls = Some(ReadlineLoopState::new());
        }
    }

    fn set_last_cmd(&mut self, c: Option<ReadlineCmd>)
        requires
            old(self)@.wf(),
            old(self)@.rls is Some,
        ensures
            final(self)@ == old(self)@.with_last_cmd(c),
            final(self)@.wf(),
    {
        let mut rls = self.rls.take().unwrap();
        rls.last_cmd = c;
        self.rls = Some(rls);
    }

    fn reset_loop_state(&mut self)
        requires
            old(self)@.wf(),
            old(self)@.rls is Some,
        ensures
            final(self)@ == old(self)@.loop_state_reset(),
            final(self)@.wf(),
            final(self)@.rls is Some,
    {
        if self.flags.get(Flag::ResetLoopState) {
            self.flags.set(Flag::ResetLoopState, false);
            let mut rls = self.rls.take().unwrap();
            rls.last_cmd = None;
            rls.complete_did_insert = false;
            rls.complete_chose_one = false;
            self.rls = Some(rls);
        }
    }

    /// Whether the limit of characters to read is reached.
    pub fn is_at_limit(&self) -> (r: bool)
        requires
            self@.rls is Some,
        ensures
            r == self@.at_limit(),
    {
        match &self.rls {
            Some(rls) => match rls.nchars {
                Some(nchars) => nchars <= self.command_line.len(),
                None => false,
            },
            None => false,
        }
    }

    /// Bring everything up to date before the next event. Return true if there is to be no next
    /// event, since the limit of characters is reached.
    pub fn begin_event(&mut self, screen: ScreenState) -> (done: bool)
        requires
            old(self)@.wf(),
            old(self)@.rls is Some,
        ensures
            final(self)@ == old(self)@.event_begun(screen),
            done == final(self)@.at_limit(),
            final(self)@.wf(),
            final(self)@.rls is Some,
    {
        reveal(DataView::event_begun);
        self.reset_loop_state();
        // Repaint as needed.
        self.color_suggest_repaint_now(screen);
        if self.is_at_limit() {
            // We've already hit the specified character limit.
            let mut rls = self.rls.take().unwrap();
            rls.finished = true;
            self.rls = Some(rls);
            true
        } else {
            false
        }
    }

    /// Begin to read normal characters.
    pub fn begin_reading(&self) -> (r: Readahead)
        requires
            self@.wf(),
            self@.rls is Some,
            !self@.at_limit(),
        ensures
            r.limit == self@.readahead(),
            r.at_beginning == (self@.active_line().position == 0),
            r.chars@.len() == 0,
            r.limit > 0,
    {
        let mut limit = READAHEAD_MAX;
        if let Some(rls) = &self.rls {
            if let Some(nchars) = rls.nchars {
                let left: usize = nchars - self.command_line.len();
                if left < limit {
                    limit = left;
                }
            }
        }
        let (_elt, el) = self.active_edit_line();
        Readahead { limit, at_beginning: el.position == 0, chars: Vec::new() }
    }

    /// Insert the characters that were read into the active line.
    pub fn read_normal_chars(&mut self, read: Readahead)
        requires
            old(self)@.wf(),
            old(self)@.rls is Some,
        ensures
            final(self)@ == old(self)@.chars_read(read.chars@),
            final(self)@.wf(),
            final(self)@.rls is Some,
    {
        if read.chars.len() > 0 {
            let elt = self.active_edit_line_tag();
            self.insert_string(elt, &read.chars);
            // End paging upon inserting into the normal command line.
            if elt == EditableLineTag::Commandline {
                self.clear_pager();
            }
            // Since we handled a normal character, we don't have a last command.
            self.set_last_cmd(None);
        }
    }

    fn type_char(&mut self, c: char)
        requires
            old(self)@.wf(),
            old(self)@.rls is Some,
        ensures
            final(self)@ == old(self)@.typed(c),
            final(self)@.wf(),
            final(self)@.rls is Some,
    {
        let elt = self.active_edit_line_tag();
        self.insert_char(elt, c);
        if elt == EditableLineTag::Commandline {
            self.clear_pager();
            // We end history search. We could instead update the search string.
            self.history_search.reset();
        }
    }

    /// Handle an ordinary character.
    fn handle_key(&mut self, kevt: KeyEvent)
        requires
            old(self)@.wf(),
            old(self)@.rls is Some,
        ensures
            final(self)@ == old(self)@.key_handled(kevt),
            final(self)@.wf(),
    {
        let (_elt, el) = self.active_edit_line();
        if kevt.input_style == CharInputStyle::NotFirst && el.position == 0 {
            // This character is skipped.
        } else if let Some(c) = kevt.codepoint_text {
            self.type_char(c);
        }
        self.set_last_cmd(None);
    }

    fn forget_yank(&mut self)
        requires
            old(self)@.wf(),
            old(self)@.rls is Some,
        ensures
            final(self)@ == if old(self)@.last_cmd() == Some(ReadlineCmd::Yank)
                || old(self)@.last_cmd() == Some(ReadlineCmd::YankPop) {
                old(self)@
            } else {
                old(self)@.with_yank_len(0)
            },
            final(self)@.wf(),
    {
        let last = self.last_command();
        if !(last == Some(ReadlineCmd::Yank) || last == Some(ReadlineCmd::YankPop)) {
            self.set_yank_len(0);
        }
    }

    /// Prepare for a command.
    fn begin_command(&mut self, c: ReadlineCmd)
        requires
            old(self)@.wf(),
            old(self)@.rls is Some,
        ensures
            final(self)@ == old(self)@.command_begun(c),
            final(self)@.wf(),
            final(self)@.rls is Some,
    {
        self.forget_yank();
        if c == ReadlineCmd::Cancel && self.is_navigating_pager_contents() {
            self.clear_transient_edit();
        }
        // Clear the pager if necessary.
        let focused_on_search_field = self.active_edit_line_tag() == EditableLineTag::SearchField;
        if !self.history_search.active() && command_ends_paging(c, focused_on_search_field) {
            self.clear_pager();
        }
    }

    /// Finish a command, once all it asked of the shell is carried out.
    pub fn end_command(&mut self, c: ReadlineCmd)
        requires
            old(self)@.wf(),
            old(self)@.rls is Some,
        ensures
            final(self)@ == old(self)@.command_ended(c),
            final(self)@.wf(),
    {
        if self.history_search.active() && command_ends_history_search(c) {
            // "cancel" means to abort the whole thing, other ending commands mean to finish the
            // search.
            if c == ReadlineCmd::Cancel {
                // Go back to the search string by simply undoing the history-search edit.
                self.clear_transient_edit();
            }
            self.history_search.reset();
            self.command_line_transient_edit = None;
        }
        self.set_last_cmd(Some(c));
    }

    fn begin_loop(&mut self, nchars: Option<usize>)
        requires
            old(self)@.wf(),
        ensures
            final(self)@ == old(self)@.loop_begun(nchars),
            final(self)@.wf(),
    {
        let mut rls = ReadlineLoopState::new();
        rls.nchars = nchars;
        self.rls = Some(rls);
        // The command line before completion.
        self.cycle_command_line = Vec::new();
        self.cycle_cursor_pos = 0;
        self.history_search.reset();
    }

    fn prompt_first(&mut self)
        requires
            old(self)@.wf(),
        ensures
            final(self)@ == old(self)@.first_prompted(),
            final(self)@.wf(),
    {
        // HACK: Don't abandon line for the first prompt, because
        // if we're started with the terminal it might not have settled,
        // so the width is quite likely to be in flight.
        if self.flags.get(Flag::FirstPrompt) {
            self.flags.set(Flag::FirstPrompt, false);
        } else {
            self.queue(Action::ResetAbandoningLine);
        }
        if self.conf.event.len() > 0 {
            let name = copy_text(&self.conf.event);
            self.queue(Action::FireEvent(name));
        }
        self.exec_prompt(true, false, AfterPrompt::Nothing);
        // Start out as initially dirty.
        self.flags.set(Flag::ForceExecPromptAndRepaint, true);
    }

    /// Execute the prompts for the last time before the command, where that is configured.
    /// `wrote_to_tty` is whether leaving the protocols of the terminal wrote to it.
    pub fn prompt_finally(&mut self, wrote_to_tty: bool)
        requires
            old(self)@.wf(),
        ensures
            final(self)@ == old(self)@.finally_prompted(wrote_to_tty),
            final(self)@.wf(),
    {
        if wrote_to_tty {
            self.save_screen_state();
        }
        if self.conf.transient_prompt {
            self.exec_prompt(true, true, AfterPrompt::Nothing);
        }
    }

    /// Redraw the command line. This is what ensures the autosuggestion is hidden, etc. after the
    /// user presses enter.
    pub fn paint_finally(&mut self, scrolled: bool, screen: ScreenState)
        requires
            old(self)@.wf(),
        ensures
            final(self)@ == old(self)@.finally_painted(scrolled, screen),
            final(self)@.wf(),
    {
        if self.is_repaint_needed(None, screen) || scrolled || self.conf.inputfd
            != stdin_fileno() {
            self.layout_and_repaint_before_execution(screen);
        }
    }

    fn place_below(&mut self, wrapped: bool)
        requires
            old(self)@.wf(),
        ensures
            final(self)@ == old(self)@.placed_below(wrapped),
            final(self)@.wf(),
            final(self)@.rls == old(self)@.rls,
            final(self)@.command_line == old(self)@.command_line,
    {
        // Emit a newline so that the output is on the line after the command.
        // But do not emit a newline if the cursor has wrapped onto a new line all its own.
        if !wrapped {
            self.queue(Action::WriteNewline);
        }
        // HACK: If stdin isn't the same terminal as stdout, we just moved the cursor.
        // For now, just reset it to the beginning of the line.
        if self.conf.inputfd != stdin_fileno() {
            self.queue(Action::WriteCarriageReturn);
        }
    }

    /// Ensure we have no pager contents when we exit.
    fn erase_pager(&mut self)
        requires
            old(self)@.wf(),
        ensures
            final(self)@ == old(self)@.pager_erased(),
            final(self)@.wf(),
            final(self)@.rls == old(self)@.rls,
            final(self)@.command_line == old(self)@.command_line,
    {
        if !self.pager.is_empty() {
            // Clear to end of screen to erase the pager contents.
            self.queue(Action::ClearToEnd);
            self.clear_pager();
        }
    }

    /// Leave the loop. Return the command, or none if we were asked to cancel. `wrapped` is whether
    /// the cursor has wrapped onto a new line all its own.
    pub fn finish_readline(&mut self, wrapped: bool) -> (r: Option<WString>)
        requires
            old(self)@.wf(),
            old(self)@.rls is Some,
        ensures
            final(self)@ == old(self)@.loop_ended(wrapped),
            final(self)@.wf(),
            match r {
                Some(text) => old(self)@.rls.unwrap().finished && text@
                    == old(self)@.command_line.text,
                None => !old(self)@.rls.unwrap().finished,
            },
    {
        self.place_below(wrapped);
        self.erase_pager();
        let finished = self.rls.take().unwrap().finished;
        if finished {
            Some(copy_text(&self.command_line.text))
        } else {
            None
        }
    }

    /// A command that belongs to a key binding was run. If it wrote to the terminal, that is not to
    /// cause a repaint.
    pub fn bind_cmd_evaluated(&mut self, modified_tty: bool, ran_external: bool)
        requires
            old(self)@.wf(),
        ensures
            final(self)@ == if modified_tty || (ran_external && old(self)@.left_prompt.contains(
                '\n',
            )) {
                old(self)@.queued(ActionView::SaveScreenState)
            } else {
                old(self)@
            },
            final(self)@.wf(),
    {
        if modified_tty || (ran_external && contains_char(
            &self.left_prompt_buff,
            '\n',
        )) {
            self.save_screen_state();
        }
    }
}

/// Normal characters that are read in one go.
pub struct Readahead {
    /// How many characters are read at most.
    pub limit: usize,
    /// The cursor is at the beginning of the line.
    pub at_beginning: bool,
    pub chars: WString,
}

impl Readahead {
    pub fn is_full(&self) -> (r: bool)
        ensures
            r == (self.chars@.len() >= self.limit),
    {
        self.chars.len() >= self.limit
    }

    /// Take the next event. Return it if it is not a normal character, or if no more input is
    /// available, so that it is handled on its own.
    pub fn take(&mut self, event: CharEvent, more: bool) -> (r: Option<CharEvent>)
        requires
            old(self).chars@.len() < old(self).limit,
        ensures
            final(self).limit == old(self).limit,
            final(self).at_beginning == old(self).at_beginning,
            match event {
                CharEvent::Key(k) if more => {
                    &&& r is None
                    &&& final(self).chars@ == if k.input_style == CharInputStyle::NotFirst
                        && old(self).chars@.len() == 0 && old(self).at_beginning {
                        old(self).chars@
                    } else {
                        match k.codepoint_text {
                            Some(c) => old(self).chars@.push(c),
                            None => old(self).chars@,
                        }
                    }
                },
                _ => r == Some(event) && final(self).chars@ == old(self).chars@,
            },
    {
        match event {
            CharEvent::Key(kevt) => {
                if !more {
                    return Some(CharEvent::Key(kevt));
                }
                if kevt.input_style == CharInputStyle::NotFirst && self.chars.len() == 0
                    && self.at_beginning {
                    // The cursor is at the beginning and nothing is accumulated, so skip this
                    // character.
                    return None;
                }
                if let Some(c) = kevt.codepoint_text {
                    self.chars.push(c);
                }
                None
            },
            event => Some(event),
        }
    }
}

impl Reader {
    /// Ask the terminal for the position of the cursor.
    pub fn request_cursor_position(&mut self, stdout_is_tty: bool, q: CursorPositionQuery)
        requires
            old(self)@.wf(),
            stdout_is_tty ==> old(self)@.parser.blocking_query is None,
        ensures
            final(self)@ == old(self)@.position_requested(stdout_is_tty, q),
            final(self)@.wf(),
    {
        if !stdout_is_tty {
            return;
        }
        self.parser.blocking_query = Some(TerminalQuery::CursorPositionReport(q));
        self.data.queue(Action::QueryCursorPosition);
        self.data.save_screen_state();
    }

    /// Run a command. What `env` says is about the state when this is called.
    pub fn handle_readline_command(&mut self, c: ReadlineCmd, env: Surroundings, t: TerminalState)
        requires
            old(self)@.wf(),
            old(self)@.data.rls is Some,
            old(self)@.command_fits(c, env@, t),
        ensures
            final(self)@ == old(self)@.commanded(c, env@, t),
            final(self)@.wf(),
    {
        match command_group(c) {
            CommandGroup::Motion => self.data.run_cursor_command(c, &env),
            CommandGroup::Kill => self.data.run_kill_command(c, env),
            CommandGroup::Rewrite => self.data.run_text_command(c, &env),
            CommandGroup::History => self.data.run_history_command(c, env),
            CommandGroup::Control => self.data.run_control_command(c, &env),
            CommandGroup::Scrollback => {
                // While we still wait for another reply, this is ignored.
                if t.scroll_forward_supported && self.parser.blocking_query.is_none() {
                    self.request_cursor_position(
                        t.stdout_is_tty,
                        CursorPositionQuery::ScrollbackPush,
                    );
                }
            },
            CommandGroup::Inert => {},
        }
    }

    pub(crate) fn note_exit(&mut self)
        requires
            old(self)@.wf(),
        ensures
            final(self)@ == old(self)@.exit_noted(),
            final(self)@.wf(),
            final(self)@.data.rls == old(self)@.data.rls,
    {
        if self.parser.exit_current_script {
            self.data.flags.set(Flag::ExitLoopRequested, true);
        }
        self.parser.exit_current_script = false;
    }

    fn handle_implicit_event(&mut self, e: ImplicitEvent, t: TerminalState)
        requires
            old(self)@.wf(),
            e is MouseLeft && t.stdout_is_tty ==> old(self)@.parser.blocking_query is None,
        ensures
            final(self)@ == old(self)@.implicit_handled(e, t),
            final(self)@.wf(),
    {
        match e {
            ImplicitEvent::Eof => self.data.queue(Action::Hangup),
            ImplicitEvent::CheckExit => {},
            ImplicitEvent::FocusIn => self.data.queue(Action::FireFocusIn),
            ImplicitEvent::FocusOut => self.data.queue(Action::FireFocusOut),
            ImplicitEvent::DisableMouseTracking => {
                self.data.queue(Action::DisableMouseTracking);
                self.data.save_screen_state();
            },
            ImplicitEvent::MouseLeft(position) => {
                self.request_cursor_position(
                    t.stdout_is_tty,
                    CursorPositionQuery::MouseLeft(position),
                );
            },
        }
    }

    fn handle_query_response(&mut self, response: QueryResponseEvent, t: TerminalState)
        requires
            old(self)@.wf(),
            (t.clicked matches CharOffset::Cmd(p) ==> p
                <= old(self)@.data.active_line().text.len()),
            (t.clicked matches CharOffset::Pointer(p) ==> p
                <= old(self)@.data.active_line().text.len()),
        ensures
            final(self)@ == old(self)@.response_handled(response, t),
            final(self)@.wf(),
    {
        match response {
            QueryResponseEvent::PrimaryDeviceAttribute => {
                if self.parser.blocking_query != Some(TerminalQuery::PrimaryDeviceAttribute) {
                    // Rogue reply.
                    return;
                }
                if t.kitty_unknown {
                    self.data.queue(Action::NoteKittyUnsupported);
                    // We may have written to the tty, so save the screen state
                    // so we don't repaint.
                    self.data.save_screen_state();
                }
            },
            QueryResponseEvent::CursorPositionReport(cursor_pos) => {
                match self.parser.blocking_query {
                    Some(TerminalQuery::CursorPositionReport(q)) => match q {
                        CursorPositionQuery::MouseLeft(_) => self.data.mouse_left_click(t.clicked),
                        CursorPositionQuery::ScrollbackPush => self.data.queue(
                            Action::PushToScrollback(cursor_pos.y),
                        ),
                    },
                    _ => {
                        // Rogue reply.
                        return;
                    },
                }
            },
        }
        self.parser.blocking_query = None;
    }

    /// Handle an event. A command is only begun: the caller goes on with `handle_readline_command`,
    /// carries out what was asked of the shell, and ends the command by `end_command`.
    pub fn handle_char_event(&mut self, event: Option<CharEvent>, t: TerminalState) -> (r: Option<
        ReadlineCmd,
    >)
        requires
            old(self)@.wf(),
            old(self)@.data.rls is Some,
            old(self)@.event_fits(event, t),
        ensures
            final(self)@ == old(self)@.event_handled(event, t),
            final(self)@.wf(),
            match r {
                Some(c) => event == Some(CharEvent::Readline(c)) && final(self)@.data.rls is Some,
                None => event matches Some(CharEvent::Readline(_))
                    ==> old(self)@.exit_noted().data.is(Flag::ExitLoopRequested),
            },
            old(self)@.exit_noted().data.is(Flag::ExitLoopRequested) ==> r is None,
    {
        // If we ran `exit` anywhere, exit.
        self.note_exit();
        if self.data.flags.get(Flag::ExitLoopRequested) {
            return None;
        }
        if let Some(event) = event {
            match event {
                CharEvent::Readline(c) => {
                    self.data.begin_command(c);
                    return Some(c);
                },
                CharEvent::Command(command) => {
                    self.data.queue(Action::RunInputCommand(command));
                },
                CharEvent::Key(kevt) => self.data.handle_key(kevt),
                CharEvent::Implicit(e) => self.handle_implicit_event(e, t),
                CharEvent::QueryResponse(response) => self.handle_query_response(response, t),
            }
        }
        None
    }

    /// Begin a command that a script asks for. Return it if it is to be run now; the caller then goes
    /// on as after `handle_char_event`.
    pub fn begin_script_command(&mut self, c: ReadlineCmd, screen: ScreenState, t: TerminalState) -> (r:
        Option<ReadlineCmd>)
        requires
            old(self)@.wf(),
        ensures
            final(self)@ == old(self)@.script_command_begun(c, screen, t),
            final(self)@.wf(),
            r == if old(self)@.runs_script_command(c, screen) {
                Some(c)
            } else {
                None
            },
            r is Some ==> final(self)@.data.rls is Some,
    {
        if c == ReadlineCmd::ClearScreenAndRepaint || c == ReadlineCmd::RepaintMode || c
            == ReadlineCmd::Repaint || c == ReadlineCmd::ForceRepaint {
            self.data.flags.set(Flag::QueuedRepaint, true);
        }
        if self.data.flags.get(Flag::QueuedRepaint) {
            self.data.queue(Action::QueueReadline(c));
            return None;
        }
        self.data.ensure_loop();
        self.data.save_screen_state();
        if self.data.begin_event(screen) {
            return None;
        }
        self.handle_char_event(Some(CharEvent::Readline(c)), t)
    }

    /// Ask the terminal what it can do, unless that was done already.
    pub fn initial_query(&mut self, k: TerminalKind)
        requires
            old(self)@.wf(),
        ensures
            final(self)@ == old(self)@.initially_queried(k),
            final(self)@.wf(),
    {
        if self.parser.queried {
            return;
        }
        self.parser.queried = true;
        if k.is_dumb || k.in_midnight_commander || k.in_dvtm || !k.stdout_is_tty {
            self.parser.blocking_query = None;
        } else {
            self.data.queue(Action::QueryCapabilities { via_dcs: k.via_dcs });
            self.parser.blocking_query = Some(TerminalQuery::PrimaryDeviceAttribute);
        }
    }

    /// Begin to read a command. If `nchars` is given, reading ends after that many characters.
    pub fn begin_readline(&mut self, nchars: Option<usize>, k: TerminalKind)
        requires
            old(self)@.wf(),
        ensures
            final(self)@ == old(self)@.readline_begun(nchars, k),
            final(self)@.wf(),
    {
        self.data.begin_loop(nchars);
        self.initial_query(k);
        self.data.prompt_first();
    }
}

} // verus!

//! The commands that end the editing of a command line: executing, cancelling, exiting.

use crate::abbreviation::{opt_replacement, Replacement, ReplacementView};
use crate::action::{Action, ActionView, PersistenceMode, SyntaxTest};
use crate::command::ReadlineCmd;
use crate::data::{CursorEndMode, DataView, EditableLineTag, LoopView, ReaderData};
use crate::edit::lemma_whole_line_replaced;
use crate::flags::Flag;
use crate::line::LineView;
use crate::paint::ScreenState;
use crate::text::{
    backslashed, backslashes_before, copy_text, count_preceding_backslashes, is_backslashed,
    lemma_line_end, lemma_line_start, line_range, line_start, push_text, replace_line_at_cursor,
    splice, wide, WString,
};
use crate::unicode::whitespace;
use std::ops::Range;
use vstd::prelude::*;

verus! {

/// What is known for deciding whether to exit.
#[derive(Clone, Copy, PartialEq, Eq, Structural, Debug)]
pub struct ExitState {
    /// The terminal has gone away.
    pub sighup: bool,
    /// This is the only reader.
    pub top_level: bool,
    /// There are background jobs that the user would want to know of.
    pub has_jobs: bool,
}

/// The text without the spaces and newlines at its end, unless they are escaped.
pub open spec fn trimmed(s: Seq<char>) -> Seq<char>
    decreases s.len(),
{
    if s.len() > 0 && (s.last() == ' ' || s.last() == '\n') && backslashes_before(
        s,
        s.len() - 1,
    ) % 2 == 0 {
        trimmed(s.drop_last())
    } else {
        s
    }
}

fn trim(s: &[char]) -> (r: WString)
    ensures
        r@ == trimmed(s@),
{
    let mut text = copy_text(s);
    while text.len() > 0 && (text[text.len() - 1] == ' ' || text[text.len() - 1] == '\n')
        && count_preceding_backslashes(&text, text.len() - 1) % 2 == 0
        invariant
            trimmed(text@) == trimmed(s@),
        decreases text@.len(),
    {
        let ghost before = text@;
        let _ = text.pop();
        assert(text@ =~= before.drop_last());
    }
    text
}

/// Whether a command is kept in the history. Without a function that decides, a command that starts
/// with a space is not.
pub fn should_add_to_history(text: &[char], function_exists: bool, function_said_yes: bool) -> (r: bool)
    requires
        text@.len() > 0,
    ensures
        r == if function_exists {
            function_said_yes
        } else {
            text@[0] != ' '
        },
{
    if !function_exists {
        // Historical behavior, if the command starts with a space we don't save it.
        return text[0] != ' ';
    }
    function_said_yes
}

/// The command that asks the function whether to keep a command, which comes escaped.
pub fn history_question(escaped: &[char]) -> (r: WString)
    ensures
        r@ == "fish_should_add_to_history "@ + escaped@,
{
    let mut command = wide("fish_should_add_to_history ");
    push_text(&mut command, escaped);
    command
}

/// A description of syntax errors as it is printed: on a line of its own, since the user just hit
/// enter and so there's junk on the current line, and ended by a newline.
pub open spec fn framed(desc: Seq<char>) -> Seq<char> {
    if desc.len() > 0 && desc.last() == '\n' {
        seq!['\n'] + desc
    } else {
        seq!['\n'] + desc + seq!['\n']
    }
}

/// Frame a description of syntax errors for printing.
pub fn frame_errors(desc: &[char]) -> (r: WString)
    ensures
        r@ == framed(desc@),
{
    let mut r: WString = Vec::new();
    r.push('\n');
    push_text(&mut r, desc);
    if desc.len() == 0 || desc[desc.len() - 1] != '\n' {
        r.push('\n');
    }
    assert(r@ =~= framed(desc@));
    r
}

/// How long a command is kept in the history.
pub fn history_persistence(should_add: bool, private_mode: bool) -> (r: PersistenceMode)
    ensures
        r == if !should_add {
            PersistenceMode::Ephemeral
        } else if private_mode {
            PersistenceMode::Memory
        } else {
            PersistenceMode::Disk
        },
{
    if !should_add {
        PersistenceMode::Ephemeral
    } else if private_mode {
        PersistenceMode::Memory
    } else {
        PersistenceMode::Disk
    }
}

impl DataView {
    /// An exit was asked for and nothing is in the way, or the terminal has gone away.
    pub open spec fn exits(self, e: ExitState) -> bool {
        e.sighup || (self.is(Flag::ExitLoopRequested) && !self.warns(e))
    }

    /// The user is warned of background jobs, once.
    pub open spec fn warns(self, e: ExitState) -> bool {
        !self.is(Flag::DidWarnForBgJobs) && e.top_level && e.has_jobs
    }

    /// The state after it was checked whether to exit. A warning takes back the request.
    pub open spec fn exit_checked(self, e: ExitState) -> DataView {
        if !e.sighup && self.is(Flag::ExitLoopRequested) && self.warns(e) {
            self.queued(ActionView::WarnAboutJobs).with_flag(
                Flag::DidWarnForBgJobs,
                true,
            ).with_flag(Flag::ExitLoopRequested, false)
        } else {
            self
        }
    }

    pub open spec fn exiting(self, e: ExitState) -> DataView {
        self.queued(ActionView::SetLastStatus { ok: true }).with_flag(
            Flag::ExitLoopRequested,
            true,
        ).exit_checked(e)
    }

    /// The character at the cursor deleted, or an exit asked for where there is nothing.
    pub open spec fn deleted_or_exiting(self, or_exit: bool, widths: Seq<i32>, e: ExitState) -> DataView {
        let line = self.active_line();
        if line.position < line.text.len() {
            self.char_deleted(false, widths)
        } else if or_exit && line.text.len() == 0 {
            self.exiting(e)
        } else {
            self
        }
    }

    /// The cursor moved behind the last character, whatever the mode.
    pub open spec fn at_very_end(self) -> DataView {
        let end = self.command_line.text.len() as int;
        DataView {
            end_mode: self.end_mode,
            ..DataView { end_mode: CursorEndMode::Exclusive, ..self }.moved(
                EditableLineTag::Commandline,
                Some(end),
            )
        }
    }

    /// The command line as it is shown when it is cancelled: without the suggestion, and marked.
    pub open spec fn cancel_shown(self, screen: ScreenState) -> DataView {
        let there = self.at_very_end();
        DataView { autosuggestion: there.autosuggestion.cleared(), ..there }.repainted_if_stale(
            screen,
        ).queued(ActionView::PrintCancelMark)
    }

    /// The command line cancelled, or only cleared.
    pub open spec fn cancelled(self, visibly: bool, screen: ScreenState) -> DataView {
        if self.conf.exit_on_interrupt {
            self.queued(ActionView::SetLastStatus { ok: false }).with_flag(
                Flag::ExitLoopRequested,
                true,
            )
        } else if self.command_line.text.len() == 0 {
            self
        } else {
            let shown = if visibly {
                self.cancel_shown(screen)
            } else {
                self
            };
            let erased = shown.erased(
                EditableLineTag::Commandline,
                Range { start: 0, end: self.command_line.text.len() as int },
            );
            let fresh = if visibly {
                erased.queued(ActionView::ResetAbandoningLine)
            } else {
                erased
            };
            fresh.queued(ActionView::FireCancel)
        }
    }

    /// A completion that was inserted last taken back.
    pub open spec fn completion_cancelled(self) -> DataView {
        let rls = self.rls.unwrap();
        let elt = self.active_tag();
        if rls.complete_did_insert && (rls.last_cmd == Some(ReadlineCmd::Complete) || rls.last_cmd
            == Some(ReadlineCmd::CompleteAndSearch)) {
            self.undone(elt).moved(elt, None)
        } else {
            self
        }
    }

    /// The prompt repainted at the next opportunity.
    pub open spec fn repaint_scheduled(self) -> DataView {
        if self.is(Flag::ForceExecPromptAndRepaint) {
            self
        } else {
            self.with_flag(Flag::ForceExecPromptAndRepaint, true).queued(
                ActionView::QueueReadline(ReadlineCmd::Repaint),
            )
        }
    }

    pub open spec fn execution_failed(self) -> DataView {
        self.queued(ActionView::FirePostError(self.command_line.text)).queued(
            ActionView::ResetAbandoningLine,
        )
    }

    pub open spec fn syntax_errors_reported(self) -> DataView {
        self.queued(ActionView::ReportSyntaxErrors(self.command_line.text)).repaint_scheduled()
    }

    /// The command line added to the history, trimmed.
    pub open spec fn added_to_history(self) -> DataView {
        if self.conf.in_silent_mode {
            self
        } else {
            let text = trimmed(self.command_line.text);
            let cleaned = self.queued(ActionView::RemoveEphemeralItems);
            if text.len() > 0 {
                cleaned.queued(ActionView::AddToHistory(text))
            } else {
                cleaned
            }
        }
    }

    /// The loop finished with the command line, and the cursor at its end.
    pub open spec fn finished(self) -> DataView {
        let line = self.command_line;
        DataView {
            rls: Some(LoopView { finished: true, ..self.rls.unwrap() }),
            command_line: LineView { pending_position: Some(line.position as usize), ..line },
            ..self
        }.moved(EditableLineTag::Commandline, Some(line.text.len() as int))
    }

    /// What becomes of a command line after the syntax check: it is executed, or continued on a new
    /// line, or it is an error.
    pub open spec fn execution_concluded(self, test: SyntaxTest) -> DataView {
        match test {
            SyntaxTest::Erroneous => self.execution_failed(),
            SyntaxTest::Incomplete => self.inserted(EditableLineTag::Commandline, seq!['\n']),
            SyntaxTest::Valid => self.added_to_history().finished(),
        }
    }

    /// What executing does in the pager: it closes it. What was searched for in vain goes into the
    /// command line.
    pub open spec fn pager_executed(self) -> DataView {
        let field = self.pager.search_field;
        let line = self.command_line;
        let base = if self.history_pager is Some && self.pager.selected_idx is None {
            let put = self.replaced(
                EditableLineTag::Commandline,
                Range { start: 0, end: line.text.len() as int },
                splice(line.text, line_range(line.text, line.position), field.text),
            );
            put.with_line(
                EditableLineTag::Commandline,
                put.command_line.moved_to(
                    line_start(line.text, line.position) + field.position,
                ),
            )
        } else if self.pager.selected is None {
            self.inserted(EditableLineTag::Commandline, field.text)
        } else {
            self
        };
        base.pager_cleared()
    }

    /// Where a command line goes on on a new line: at the cursor or at the end of the line, behind
    /// a backslash.
    pub open spec fn continuation(self, ends_in_comment: bool) -> Option<int> {
        let line = self.command_line;
        let n = line.text.len() as int;
        if backslashed(line.text, line.position) && (if line.position >= n {
            !ends_in_comment
        } else {
            whitespace(line.text[line.position])
        }) {
            Some(line.position)
        } else if line.position < n && backslashed(line.text, n) && !ends_in_comment {
            Some(n)
        } else {
            None
        }
    }

    /// The command line executed, up to what has to be found out by expanding abbreviations.
    pub open spec fn executed(self, ends_in_comment: bool, test: SyntaxTest) -> DataView {
        if self.navigating() {
            self.pager_executed()
        } else {
            let base = DataView {
                autosuggestion: self.autosuggestion.cleared(),
                ..self
            }.pager_cleared();
            match base.continuation(ends_in_comment) {
                Some(p) => base.with_line(
                    EditableLineTag::Commandline,
                    base.command_line.moved_to(p),
                ).inserted(EditableLineTag::Commandline, seq!['\n']),
                None => base.execution_expanding(test),
            }
        }
    }

    /// The syntax checked, and abbreviations looked for.
    pub open spec fn execution_expanding(self, test: SyntaxTest) -> DataView {
        let checked = if self.conf.syntax_check_ok {
            test
        } else {
            SyntaxTest::Valid
        };
        if checked == SyntaxTest::Erroneous {
            self.syntax_errors_reported().execution_failed()
        } else {
            match self.abbreviation_cursor(0) {
                Some(c) => self.queued(
                    ActionView::ExpandAbbreviation {
                        cursor: c as usize,
                        execution: Some(checked),
                    },
                ),
                None => self.execution_concluded(checked),
            }
        }
    }

    /// The command line with its abbreviation expanded, if there was one, checked again and
    /// executed.
    pub open spec fn execution_expanded(
        self,
        test: SyntaxTest,
        replacement: Option<ReplacementView>,
        retest: SyntaxTest,
    ) -> DataView {
        match replacement {
            Some(r) => {
                let next = self.abbreviation_applied(r).highlighting();
                if !self.conf.syntax_check_ok {
                    next.execution_concluded(test)
                } else if retest == SyntaxTest::Erroneous {
                    next.syntax_errors_reported().execution_concluded(retest)
                } else {
                    next.execution_concluded(retest)
                }
            },
            None => self.execution_concluded(test),
        }
    }

    /// An abbreviation looked for before the cursor.
    pub open spec fn abbreviation_sought(self) -> DataView {
        match self.abbreviation_cursor(1) {
            Some(c) => self.queued(
                ActionView::ExpandAbbreviation { cursor: c as usize, execution: None },
            ),
            None => self.queued(ActionView::FunctionStatus(false)),
        }
    }

    pub open spec fn abbreviation_put(self, replacement: Option<ReplacementView>) -> DataView {
        match replacement {
            Some(r) => self.abbreviation_applied(r).queued(ActionView::FunctionStatus(true)),
            None => self.queued(ActionView::FunctionStatus(false)),
        }
    }
}

impl ReaderData {
    /// Check if we have background jobs that we have not warned about.
    /// If so, print a warning and return true. Otherwise return false.
    fn try_warn_on_background_jobs(&mut self, e: ExitState) -> (r: bool)
        requires
            old(self)@.wf(),
        ensures
            r == old(self)@.warns(e),
            final(self)@ == if r {
                old(self)@.queued(ActionView::WarnAboutJobs).with_flag(Flag::DidWarnForBgJobs, true)
            } else {
                old(self)@
            },
            final(self)@.wf(),
    {
        // Have we already warned?
        if self.flags.get(Flag::DidWarnForBgJobs) {
            return false;
        }
        // Are we the top-level reader?
        if !e.top_level {
            return false;
        }
        // Do we have background jobs?
        if !e.has_jobs {
            return false;
        }
        // Print the warning!
        self.queue(Action::WarnAboutJobs);
        self.flags.set(Flag::DidWarnForBgJobs, true);
        true
    }

    /// Check if we should exit the reader loop. Return true if we should exit.
    pub fn check_exit_loop(&mut self, e: ExitState) -> (r: bool)
        requires
            old(self)@.wf(),
        ensures
            r == old(self)@.exits(e),
            final(self)@ == old(self)@.exit_checked(e),
            final(self)@.wf(),
    {
        // sighup always forces exit.
        if e.sighup {
            return true;
        }
        // Check if an exit is requested.
        if !self.flags.get(Flag::ExitLoopRequested) {
            return false;
        }
        if self.try_warn_on_background_jobs(e) {
            self.flags.set(Flag::ExitLoopRequested, false);
            return false;
        }
        true
    }

    /// Ask for an exit.
    pub fn exit(&mut self, e: ExitState)
        requires
            old(self)@.wf(),
        ensures
            final(self)@ == old(self)@.exiting(e),
            final(self)@.wf(),
    {
        // This is by definition a successful exit, override the status
        self.queue(Action::SetLastStatus { ok: true });
        self.flags.set(Flag::ExitLoopRequested, true);
        self.check_exit_loop(e);
    }

    /// Delete the character at the cursor, or ask for an exit if the line is empty.
    pub fn delete_or_exit(&mut self, or_exit: bool, widths: &[i32], e: ExitState)
        requires
            old(self)@.wf(),
            widths@.len() == old(self)@.active_line().text.len(),
        ensures
            final(self)@ == old(self)@.deleted_or_exiting(or_exit, widths@, e),
            final(self)@.wf(),
    {
        let (_elt, el) = self.active_edit_line();
        if el.position < el.len() {
            self.delete_char(false, widths);
        } else if or_exit && el.is_empty() {
            self.exit(e);
        }
    }

    fn go_to_very_end(&mut self)
        requires
            old(self)@.wf(),
        ensures
            final(self)@ == old(self)@.at_very_end(),
            final(self)@.wf(),
            final(self)@.command_line.text == old(self)@.command_line.text,
            final(self)@.conf == old(self)@.conf,
    {
        let end = self.command_line.len();
        let mode = self.cursor_end_mode;
        self.cursor_end_mode = CursorEndMode::Exclusive;
        self.update_buff_pos(EditableLineTag::Commandline, Some(end));
        self.cursor_end_mode = mode;
    }

    fn show_cancel(&mut self, screen: ScreenState)
        requires
            old(self)@.wf(),
        ensures
            final(self)@ == old(self)@.cancel_shown(screen),
            final(self)@.wf(),
            final(self)@.command_line.text == old(self)@.command_line.text,
    {
        // Move cursor to the end of the line.
        self.go_to_very_end();
        self.autosuggestion.clear();
        // Repaint also changes the actual cursor position
        self.repaint_if_needed(screen);
        // We print a newline last so the next prompt starts on a line of its own.
        self.queue(Action::PrintCancelMark);
    }

    /// Cancel the command line, visibly or not.
    pub fn cancel_commandline(&mut self, visibly: bool, screen: ScreenState)
        requires
            old(self)@.wf(),
        ensures
            final(self)@ == old(self)@.cancelled(visibly, screen),
            final(self)@.wf(),
    {
        if self.conf.exit_on_interrupt {
            self.queue(Action::SetLastStatus { ok: false });
            self.flags.set(Flag::ExitLoopRequested, true);
            return;
        }
        if self.command_line.is_empty() {
            return;
        }
        if visibly {
            self.show_cancel(screen);
        }
        let n = self.command_line.len();
        self.erase_substring(EditableLineTag::Commandline, 0..n);
        if visibly {
            self.queue(Action::ResetAbandoningLine);
        }
        // Post fish_cancel.
        self.queue(Action::FireCancel);
    }

    /// If we last inserted a completion, undo it. This doesn't apply if the completion was selected
    /// via the pager.
    pub fn cancel(&mut self)
        requires
            old(self)@.wf(),
            old(self)@.rls is Some,
        ensures
            final(self)@ == old(self)@.completion_cancelled(),
            final(self)@.wf(),
    {
        let inserted = match &self.rls {
            Some(rls) => rls.complete_did_insert && (rls.last_cmd == Some(ReadlineCmd::Complete)
                || rls.last_cmd == Some(ReadlineCmd::CompleteAndSearch)),
            None => false,
        };
        if inserted {
            let elt = self.active_edit_line_tag();
            self.undo(elt);
            self.update_buff_pos(elt, None);
        }
    }

    /// Have the prompt executed and repainted.
    pub fn schedule_prompt_repaint(&mut self)
        requires
            old(self)@.wf(),
        ensures
            final(self)@ == old(self)@.repaint_scheduled(),
            final(self)@.wf(),
    {
        if !self.flags.get(Flag::ForceExecPromptAndRepaint) {
            self.flags.set(Flag::ForceExecPromptAndRepaint, true);
            self.queue(Action::QueueReadline(ReadlineCmd::Repaint));
        }
    }

    fn report_syntax_errors(&mut self)
        requires
            old(self)@.wf(),
        ensures
            final(self)@ == old(self)@.syntax_errors_reported(),
            final(self)@.wf(),
            final(self)@.rls == old(self)@.rls,
    {
        let text = copy_text(&self.command_line.text);
        self.queue(Action::ReportSyntaxErrors(text));
        self.schedule_prompt_repaint();
    }

    fn fail_execution(&mut self)
        requires
            old(self)@.wf(),
        ensures
            final(self)@ == old(self)@.execution_failed(),
            final(self)@.wf(),
    {
        let text = copy_text(&self.command_line.text);
        self.queue(Action::FirePostError(text));
        self.queue(Action::ResetAbandoningLine);
    }

    /// Add the current command line contents to history.
    fn add_to_history(&mut self)
        requires
            old(self)@.wf(),
        ensures
            final(self)@ == old(self)@.added_to_history(),
            final(self)@.wf(),
            final(self)@.rls == old(self)@.rls,
    {
        if self.conf.in_silent_mode {
            return;
        }
        // Historical behavior is to trim trailing spaces, unless escaped.
        let text = trim(&self.command_line.text);
        // Remove ephemeral items - even if the text is empty.
        self.queue(Action::RemoveEphemeralItems);
        if text.len() > 0 {
            self.queue(Action::AddToHistory(text));
        }
    }

    fn finish(&mut self)
        requires
            old(self)@.wf(),
            old(self)@.rls is Some,
        ensures
            final(self)@ == old(self)@.finished(),
            final(self)@.wf(),
    {
        let mut rls = self.rls.take().unwrap();
        rls.finished = true;
        self.rls = Some(rls);
        let n = self.command_line.len();
        self.command_line.pending_position = Some(self.command_line.position);
        self.update_buff_pos(EditableLineTag::Commandline, Some(n));
    }

    fn conclude_execution(&mut self, test: SyntaxTest)
        requires
            old(self)@.wf(),
            old(self)@.rls is Some,
        ensures
            final(self)@ == old(self)@.execution_concluded(test),
            final(self)@.wf(),
    {
        match test {
            SyntaxTest::Erroneous => self.fail_execution(),
            SyntaxTest::Incomplete => self.insert_char(EditableLineTag::Commandline, '\n'),
            SyntaxTest::Valid => {
                self.add_to_history();
                self.finish();
            },
        }
    }

    fn execute_in_pager(&mut self)
        requires
            old(self)@.wf(),
        ensures
            final(self)@ == old(self)@.pager_executed(),
            final(self)@.wf(),
    {
        if self.history_pager.is_some() && self.pager.selected_completion_idx.is_none() {
            self.put_search_field();
        } else if self.pager.selected_completion.is_none() {
            let failed_search = copy_text(&self.pager.search_field_line.text);
            self.insert_string(EditableLineTag::Commandline, &failed_search);
        }
        self.clear_pager();
    }

    fn put_search_field(&mut self)
        requires
            old(self)@.wf(),
        ensures
            ({
                let field = old(self)@.pager.search_field;
                let line = old(self)@.command_line;
                let put = old(self)@.replaced(
                    EditableLineTag::Commandline,
                    Range { start: 0, end: line.text.len() as int },
                    splice(line.text, line_range(line.text, line.position), field.text),
                );
                final(self)@ == put.with_line(
                    EditableLineTag::Commandline,
                    put.command_line.moved_to(
                        line_start(line.text, line.position) + field.position,
                    ),
                )
            }),
            final(self)@.wf(),
    {
        let n = self.command_line.len();
        let field = &self.pager.search_field_line;
        let offset_from_end: usize = field.len() - field.position;
        let mut cursor = self.command_line.position;
        proof {
            lemma_line_start(self@.command_line.text, self@.command_line.position);
            lemma_line_end(self@.command_line.text, self@.command_line.position);
        }
        let updated = replace_line_at_cursor(&self.command_line.text, &mut cursor, &field.text);
        proof {
            lemma_whole_line_replaced(self@, EditableLineTag::Commandline, updated@);
        }
        self.replace_substring(EditableLineTag::Commandline, 0..n, updated);
        self.command_line.set_position(cursor - offset_from_end);
    }

    fn find_continuation(&self, ends_in_comment: bool) -> (r: Option<usize>)
        requires
            self@.wf(),
        ensures
            crate::text::opt_int(r) == self@.continuation(ends_in_comment),
            r matches Some(p) ==> p <= self@.command_line.text.len(),
    {
        let el = &self.command_line;
        if el.position >= el.len() {
            // We're at the end of the text and not in a comment.
            if is_backslashed(&el.text, el.position) && !ends_in_comment {
                return Some(el.position);
            }
            return None;
        }
        // Allow mid line split if the following character is whitespace.
        if is_backslashed(&el.text, el.position) && el.text[el.position].is_whitespace() {
            return Some(el.position);
        }
        // Check if the end of the line is backslashed.
        if is_backslashed(&el.text, el.len()) && !ends_in_comment {
            return Some(el.len());
        }
        None
    }

    /// Execute the command line. This may mean inserting a newline if the command is unfinished.
    ///
    /// `ends_in_comment` tells whether the last token of the command line is a comment, `test` is
    /// what the syntax check says of it.
    pub fn handle_execute(&mut self, ends_in_comment: bool, test: SyntaxTest)
        requires
            old(self)@.wf(),
            old(self)@.rls is Some,
        ensures
            final(self)@ == old(self)@.executed(ends_in_comment, test),
            final(self)@.wf(),
    {
        // If the user hits return while navigating the pager, it only clears the pager.
        if self.is_navigating_pager_contents() {
            self.execute_in_pager();
            return;
        }
        // Delete any autosuggestion.
        self.autosuggestion.clear();
        // The user may have hit return with pager contents, but while not navigating them.
        // Clear the pager in that event.
        self.clear_pager();
        // Allow backslash-escaped newlines: insert a new line at the position of the cursor.
        if let Some(p) = self.find_continuation(ends_in_comment) {
            self.command_line.set_position(p);
            self.insert_char(EditableLineTag::Commandline, '\n');
            return;
        }
        self.expand_for_execute(test);
    }

    /// Expand the command line in preparation for execution. Syntax check before expanding
    /// abbreviations.
    fn expand_for_execute(&mut self, test: SyntaxTest)
        requires
            old(self)@.wf(),
            old(self)@.rls is Some,
        ensures
            final(self)@ == old(self)@.execution_expanding(test),
            final(self)@.wf(),
    {
        let checked = if self.conf.syntax_check_ok {
            test
        } else {
            SyntaxTest::Valid
        };
        if checked == SyntaxTest::Erroneous {
            self.report_syntax_errors();
            self.fail_execution();
            return;
        }
        // Exec abbreviations at the cursor.
        // Note we want to expand abbreviations even if incomplete.
        match self.get_abbreviation_cursor(0) {
            Some(cursor) => self.queue(
                Action::ExpandAbbreviation { cursor, execution: Some(checked) },
            ),
            None => self.conclude_execution(checked),
        }
    }

    /// Called after an abbreviation was looked for before execution. `test` is what the syntax check
    /// said before, `retest` what it says with the abbreviation expanded.
    pub fn abbreviation_expanded_for_execution(
        &mut self,
        test: SyntaxTest,
        replacement: Option<Replacement>,
        retest: SyntaxTest,
    )
        requires
            old(self)@.wf(),
            old(self)@.rls is Some,
            opt_replacement(replacement) matches Some(r) ==> r.applies(
                old(self)@.command_line.text.len() as int,
            ),
        ensures
            final(self)@ == old(self)@.execution_expanded(
                test,
                opt_replacement(replacement),
                retest,
            ),
            final(self)@.wf(),
    {
        match replacement {
            Some(r) => {
                self.apply_abbreviation(r);
                // Trigger syntax highlighting as we are likely about to execute this command.
                self.super_highlight_me_plenty();
                if !self.conf.syntax_check_ok {
                    self.conclude_execution(test);
                } else {
                    if retest == SyntaxTest::Erroneous {
                        self.report_syntax_errors();
                    }
                    self.conclude_execution(retest);
                }
            },
            None => self.conclude_execution(test),
        }
    }

    /// Look for an abbreviation before the cursor.
    pub fn expand_abbreviation(&mut self)
        requires
            old(self)@.wf(),
        ensures
            final(self)@ == old(self)@.abbreviation_sought(),
            final(self)@.wf(),
    {
        match self.get_abbreviation_cursor(1) {
            Some(cursor) => self.queue(Action::ExpandAbbreviation { cursor, execution: None }),
            None => self.set_function_status(false),
        }
    }

    /// Called after an abbreviation was looked for.
    pub fn abbreviation_expanded(&mut self, replacement: Option<Replacement>)
        requires
            old(self)@.wf(),
            opt_replacement(replacement) matches Some(r) ==> r.applies(
                old(self)@.command_line.text.len() as int,
            ),
        ensures
            final(self)@ == old(self)@.abbreviation_put(opt_replacement(replacement)),
            final(self)@.wf(),
    {
        match replacement {
            Some(r) => {
                self.apply_abbreviation(r);
                self.set_function_status(true);
            },
            None => self.set_function_status(false),
        }
    }
}

} // verus!

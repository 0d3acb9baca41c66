//! The pager, and the completions and history items that it shows.

use crate::action::{Action, ActionView};
use crate::choice::{choice, choose_completions, Choice, ChoiceView};
use crate::command::ReadlineCmd;
use crate::completion::{
    applicable, applied, can_replace, completion_apply_to_command_line, completions,
    reader_can_replace, CompleteFlags, Completion, CompletionContext, CompletionView, ContextView,
    EscapeFlags,
};
use crate::data::{DataView, EditableLineTag, LoopView, ReaderData, TransientEdit};
use crate::pager::{PageSelection, PagerView, SelectedView, SelectionMotion};
use crate::paint::ScreenState;
use crate::text::{
    backslashed, copy_text, extent, inside, is_backslashed, part, push_text, subtext, text_eq,
    WString,
};
use std::ops::Range;
use vstd::prelude::*;

verus! {

/// What a cell of the screen belongs to.
#[derive(Clone, Copy, PartialEq, Eq, Structural, Debug)]
pub enum CharOffset {
    /// A character of the command line.
    Cmd(usize),
    /// The cell of the cursor.
    Pointer(usize),
    /// A completion in the pager.
    Pager(usize),
    /// Anything else.
    Elsewhere,
}

/// The outcome of expanding a wildcard.
#[derive(Clone, Copy, PartialEq, Eq, Structural, Debug)]
pub enum ExpandResultCode {
    Error,
    Overflow,
    WildcardNoMatch,
    Cancel,
    Expanded,
}

impl DataView {
    pub open spec fn with_transient(self, t: Option<TransientEdit>) -> DataView {
        DataView { transient_edit: t, ..self }
    }

    /// The command line shows the completion that is selected in the pager, in place of the one
    /// that was selected before.
    pub open spec fn showing_selection(self, ctx: ContextView) -> DataView {
        let base = self.without_transient(TransientEdit::Pager);
        match base.pager.selected {
            Some(c) => {
                let a = applied(
                    c.completion,
                    c.flags,
                    base.cycle_command_line,
                    base.cycle_cursor_pos,
                    false,
                    ctx,
                );
                if a.line != base.command_line.text && a.line != base.cycle_command_line {
                    base.buffer_set(a.line, a.cursor).with_transient(Some(TransientEdit::Pager))
                } else {
                    base
                }
            },
            None => base.moved(EditableLineTag::Commandline, None),
        }
    }

    pub open spec fn with_pager(self, pager: PagerView) -> DataView {
        DataView { pager, ..self }
    }

    /// A completion was selected.
    pub open spec fn reselecting(self, s: SelectedView, ctx: ContextView) -> DataView {
        self.with_pager(self.pager.with_selection(s)).showing_selection(ctx)
    }

    /// What is selected can be put into the command line.
    pub open spec fn selection_fits(self, s: SelectedView, ctx: ContextView) -> bool {
        s.completion matches Some(c) ==> applicable(
            c.flags,
            self.cycle_command_line,
            self.cycle_cursor_pos,
            ctx,
        )
    }

    /// A click with the left mouse button.
    pub open spec fn clicked(self, offset: CharOffset) -> DataView {
        match offset {
            CharOffset::Cmd(p) | CharOffset::Pointer(p) => self.moved(
                self.active_tag(),
                Some(p as int),
            ),
            CharOffset::Pager(i) => if self.pager.selected_idx != Some(i) {
                self.with_pager(PagerView { selected_idx: Some(i), ..self.pager }).queued(
                    ActionView::SelectCompletion(Some(i)),
                )
            } else {
                self
            },
            CharOffset::Elsewhere => self,
        }
    }

    /// The completion at the end of the token inserted.
    pub open spec fn completion_inserted(
        self,
        val: Seq<char>,
        token_end: int,
        flags: CompleteFlags,
        ctx: ContextView,
    ) -> DataView {
        let base = self.at_token_end(token_end);
        let line = base.active_line();
        let a = applied(val, flags, line.text, line.position, false, ctx);
        base.buffer_set(a.line, a.cursor)
    }

    pub open spec fn at_token_end(self, token_end: int) -> DataView {
        if self.active_line().position != token_end {
            self.moved(self.active_tag(), Some(token_end))
        } else {
            self
        }
    }

    pub open spec fn insertion_fits(
        self,
        token_end: int,
        flags: CompleteFlags,
        ctx: ContextView,
    ) -> bool {
        let base = self.at_token_end(token_end);
        let line = base.active_line();
        &&& token_end <= self.active_line().text.len()
        &&& applicable(flags, line.text, line.position, ctx)
    }

    /// A replacing completion is inserted only where we know how to replace the token, e.g. where
    /// that does not contain operators like {}.
    pub open spec fn insertion_tried(
        self,
        c: CompletionView,
        tok: Seq<char>,
        token_end: int,
        ctx: ContextView,
    ) -> DataView {
        if !c.flags.replaces_token || can_replace(tok, c.flags) {
            self.completion_inserted(c.completion, token_end, c.flags, ctx)
        } else {
            self
        }
    }

    pub open spec fn with_cycle_here(self) -> DataView {
        DataView {
            cycle_command_line: self.command_line.text,
            cycle_cursor_pos: self.command_line.position,
            ..self
        }
    }

    /// The completions listed in the pager.
    pub open spec fn listed(self, prefix: Seq<char>, list: Seq<CompletionView>) -> DataView {
        self.with_pager(
            self.pager.with_prefix(prefix, true).with_completions(
                list,
                SelectedView { index: None, completion: None },
            ),
        ).queued(ActionView::RefilterPager)
    }

    /// What was chosen from the completions of the token carried out: the terminal flashes, the
    /// only one is inserted, or they are listed behind what they have in common.
    pub open spec fn choice_applied(
        self,
        chosen: ChoiceView,
        token: Range<int>,
        ctx: ContextView,
        screen: ScreenState,
    ) -> DataView {
        match chosen {
            ChoiceView::Nothing => self.flashing(
                if token.start < token.end {
                    token
                } else {
                    Range { start: 0, end: self.command_line.text.len() as int }
                },
                screen,
            ),
            ChoiceView::Insert(c) => self.insertion_tried(
                c,
                part(self.command_line.text, token),
                token.end,
                ctx,
            ),
            ChoiceView::List { insert, prefix, list } => {
                self.prefix_inserted(insert, token.end, ctx).listed(prefix, list)
            },
        }
    }

    /// What the completions have in common inserted, if anything.
    pub open spec fn prefix_inserted(
        self,
        insert: Option<(Seq<char>, CompleteFlags)>,
        token_end: int,
        ctx: ContextView,
    ) -> DataView {
        match insert {
            Some((text, flags)) => self.completion_inserted(
                text,
                token_end,
                flags,
                ctx,
            ).with_cycle_here(),
            None => self,
        }
    }

    /// What was chosen inserts something into the command line: the only completion, unless it
    /// cannot replace the token, or what those that are listed have in common.
    pub open spec fn choice_inserts(self, chosen: ChoiceView, token: Range<int>) -> bool {
        match chosen {
            ChoiceView::Nothing => false,
            ChoiceView::Insert(c) => !c.flags.replaces_token || can_replace(
                part(self.command_line.text, token),
                c.flags,
            ),
            ChoiceView::List { insert, prefix, list } => insert is Some,
        }
    }

    /// What is inserted can be.
    pub open spec fn choice_fits(
        self,
        chosen: ChoiceView,
        token: Range<int>,
        ctx: ContextView,
    ) -> bool {
        self.choice_inserts(chosen, token) ==> match chosen {
            ChoiceView::Nothing => true,
            ChoiceView::Insert(c) => self.insertion_fits(token.end, c.flags, ctx),
            ChoiceView::List { insert, prefix, list } => self.insertion_fits(
                token.end,
                insert.unwrap().1,
                ctx,
            ),
        }
    }

    /// What is chosen from the completions of a token.
    pub open spec fn chosen(self, token: Range<int>, ellipsis: char) -> ChoiceView {
        choice(self.rls.unwrap().comp, part(self.command_line.text, token), ellipsis)
    }

    pub open spec fn completions_handled(
        self,
        token: Range<int>,
        ellipsis: char,
        ctx: ContextView,
        screen: ScreenState,
    ) -> DataView {
        self.choice_applied(self.chosen(token, ellipsis), token, ctx, screen).with_loop(
            LoopView {
                complete_chose_one: self.completion_chosen(token, ellipsis),
                ..self.rls.unwrap()
            },
        )
    }

    /// The completions insert something into the command line.
    pub open spec fn completions_insert(self, token: Range<int>, ellipsis: char) -> bool {
        self.choice_inserts(self.chosen(token, ellipsis), token)
    }

    /// The completions come down to a single one.
    pub open spec fn completion_chosen(self, token: Range<int>, ellipsis: char) -> bool {
        self.chosen(token, ellipsis) is Insert
    }

    /// What is inserted for the completions can be.
    pub open spec fn completions_fit(
        self,
        token: Range<int>,
        ellipsis: char,
        ctx: ContextView,
    ) -> bool {
        self.choice_fits(self.chosen(token, ellipsis), token, ctx)
    }

    pub open spec fn with_loop(self, l: LoopView) -> DataView {
        DataView { rls: Some(l), ..self }
    }

    /// A backslash before the cursor removed, for completing what stands before it.
    pub open spec fn completion_begun(self, widths: Seq<i32>) -> DataView {
        if backslashed(self.command_line.text, self.command_line.position) {
            self.char_deleted(true, widths)
        } else {
            self
        }
    }

    /// The wildcard in a token expanded, if it was.
    pub open spec fn wildcard_handled(
        self,
        token: Range<int>,
        code: ExpandResultCode,
        text: Seq<char>,
        screen: ScreenState,
    ) -> DataView {
        match code {
            ExpandResultCode::Overflow => self.flashing(token, screen),
            ExpandResultCode::Expanded => self.with_loop(
                LoopView {
                    comp: Seq::empty(),
                    complete_did_insert: false,
                    complete_chose_one: false,
                    ..self.rls.unwrap()
                },
            ).replaced(EditableLineTag::Commandline, token, text),
            _ => self,
        }
    }

    /// The token that is completed, as far as the command line still reaches.
    pub open spec fn clamped_token(self, token: Range<int>) -> Range<int> {
        let n = self.command_line.text.len() as int;
        Range {
            start: if token.start < n {
                token.start
            } else {
                n
            },
            end: if token.end < n {
                token.end
            } else {
                n
            },
        }
    }

    /// The state in which the completions are handled.
    pub open spec fn completing(self, comp: Seq<CompletionView>, token: Range<int>) -> DataView {
        DataView {
            rls: Some(LoopView { comp, ..self.rls.unwrap() }),
            cycle_command_line: self.command_line.text,
            cycle_cursor_pos: self.clamped_token(token).end,
            ..self
        }
    }

    /// The completions that were computed handled, and the search field shown if that was asked for,
    /// they did not come down to a single one, and there is a list.
    pub open spec fn completed(
        self,
        comp: Seq<CompletionView>,
        token: Range<int>,
        and_search: bool,
        ellipsis: char,
        ctx: ContextView,
        screen: ScreenState,
    ) -> DataView {
        let ready = self.completing(comp, token);
        let did_insert = ready.completions_insert(self.clamped_token(token), ellipsis);
        let handled = ready.completions_handled(
            self.clamped_token(token),
            ellipsis,
            ctx,
            screen,
        );
        let noted = handled.with_loop(
            LoopView { complete_did_insert: did_insert, ..handled.rls.unwrap() },
        );
        if and_search && !noted.rls.unwrap().complete_chose_one && !noted.pager.is_empty() {
            noted.with_pager(PagerView { search_field_shown: true, ..noted.pager }).selecting(
                SelectionMotion::Next,
            )
        } else {
            noted
        }
    }

    /// A second press of the key: more of the list shown, or another completion selected.
    pub open spec fn completion_cycled(self, forward: bool) -> DataView {
        if self.pager.remaining != 0 {
            self.with_pager(PagerView { fully_disclosed: true, ..self.pager })
        } else {
            self.selecting(
                if forward {
                    SelectionMotion::Next
                } else {
                    SelectionMotion::Prev
                },
            )
        }
    }

    /// The user typed complete more than once in a row.
    pub open spec fn cycles_completions(self) -> bool {
        let rls = self.rls.unwrap();
        self.navigating() || (rls.comp.len() > 0 && !rls.complete_chose_one && rls.last_cmd
            == Some(ReadlineCmd::Complete))
    }
}

impl ReaderData {
    /// Do what we need to do whenever our pager selection changes. `ctx` describes the command line
    /// that the completion is applied to.
    pub fn pager_selection_changed(&mut self, ctx: &CompletionContext)
        requires
            old(self)@.wf(),
            old(self)@.pager.selected matches Some(c) ==> applicable(
                c.flags,
                old(self)@.cycle_command_line,
                old(self)@.cycle_cursor_pos,
                ctx@,
            ),
        ensures
            final(self)@ == old(self)@.showing_selection(ctx@),
            final(self)@.wf(),
    {
        // Update the cursor and command line.
        self.drop_transient_edit(TransientEdit::Pager);
        let mut cursor_pos = self.cycle_cursor_pos;
        let new_cmd_line = match &self.pager.selected_completion {
            Some(completion) => Some(
                completion_apply_to_command_line(
                    &completion.completion,
                    completion.flags,
                    &self.cycle_command_line,
                    &mut cursor_pos,
                    false,
                    ctx,
                ),
            ),
            None => None,
        };
        match new_cmd_line {
            Some(line) => {
                // Only update if something changed, to avoid useless edits in the undo history.
                if !text_eq(&line, &self.command_line.text) && !text_eq(
                    &line,
                    &self.cycle_command_line,
                ) {
                    self.set_buffer_maintaining_pager(&line, cursor_pos);
                    self.command_line_transient_edit = Some(TransientEdit::Pager);
                }
            },
            None => {
                self.update_buff_pos(EditableLineTag::Commandline, None);
            },
        }
    }

    /// Called after the completions were filtered anew, or one of them was selected.
    pub fn pager_refiltered(&mut self, selection: PageSelection, ctx: &CompletionContext)
        requires
            old(self)@.wf(),
            old(self)@.selection_fits(selection@, ctx@),
        ensures
            final(self)@ == old(self)@.reselecting(selection@, ctx@),
            final(self)@.wf(),
    {
        self.pager.select(selection);
        self.pager_selection_changed(ctx);
    }

    /// Called after another completion was selected.
    pub fn selection_moved(
        &mut self,
        selection: PageSelection,
        selection_changed: bool,
        force: bool,
        ctx: &CompletionContext,
    )
        requires
            old(self)@.wf(),
            old(self)@.selection_fits(selection@, ctx@),
        ensures
            final(self)@ == if force || selection_changed {
                old(self)@.reselecting(selection@, ctx@)
            } else {
                old(self)@.with_pager(old(self)@.pager.with_selection(selection@))
            },
            final(self)@.wf(),
    {
        self.pager.select(selection);
        if force || selection_changed {
            self.pager_selection_changed(ctx);
        }
    }

    /// Handle a click with the left mouse button on a cell that belongs to `offset`.
    pub fn mouse_left_click(&mut self, offset: CharOffset)
        requires
            old(self)@.wf(),
            (offset matches CharOffset::Cmd(p) ==> p <= old(self)@.active_line().text.len()),
            (offset matches CharOffset::Pointer(p) ==> p <= old(self)@.active_line().text.len()),
        ensures
            final(self)@ == old(self)@.clicked(offset),
            final(self)@.wf(),
    {
        match offset {
            CharOffset::Cmd(new_pos) | CharOffset::Pointer(new_pos) => {
                let elt = self.active_edit_line_tag();
                self.update_buff_pos(elt, Some(new_pos));
            },
            CharOffset::Pager(idx) => {
                if self.pager.selected_completion_idx != Some(idx) {
                    self.pager.selected_completion_idx = Some(idx);
                    self.queue(Action::SelectCompletion(Some(idx)));
                }
            },
            CharOffset::Elsewhere => {},
        }
    }

    /// Insert the string at the current cursor position. `ctx` describes the line with the cursor at
    /// the end of the token.
    fn completion_insert(
        &mut self,
        val: &[char],
        token_end: usize,
        flags: CompleteFlags,
        ctx: &CompletionContext,
    )
        requires
            old(self)@.wf(),
            old(self)@.insertion_fits(token_end as int, flags, ctx@),
        ensures
            final(self)@ == old(self)@.completion_inserted(val@, token_end as int, flags, ctx@),
            final(self)@.wf(),
            final(self)@.rls == old(self)@.rls,
    {
        let (elt, el) = self.active_edit_line();
        // Move the cursor to the end of the token.
        if el.position != token_end {
            self.update_buff_pos(elt, Some(token_end));
        }
        let (_elt, el) = self.active_edit_line();
        let mut cursor = el.position;
        let new_command_line = completion_apply_to_command_line(
            val,
            flags,
            &el.text,
            &mut cursor,
            false,
            ctx,
        );
        self.set_buffer_maintaining_pager(&new_command_line, cursor);
    }

    fn try_insert(
        &mut self,
        c: &Completion,
        tok: &[char],
        token_end: usize,
        ctx: &CompletionContext,
    ) -> (did_insert: bool)
        requires
            old(self)@.wf(),
            (!c@.flags.replaces_token || can_replace(tok@, c@.flags))
                ==> old(self)@.insertion_fits(token_end as int, c@.flags, ctx@),
        ensures
            did_insert == (!c@.flags.replaces_token || can_replace(tok@, c@.flags)),
            final(self)@ == old(self)@.insertion_tried(c@, tok@, token_end as int, ctx@),
            final(self)@.wf(),
            final(self)@.rls == old(self)@.rls,
    {
        // If this is a replacement completion, check that we know how to replace it, e.g. that the
        // token doesn't contain evil operators like {}.
        let can_insert = !c.flags.replaces_token || reader_can_replace(tok, c.flags);
        if can_insert {
            self.completion_insert(&c.completion, token_end, c.flags, ctx);
        }
        can_insert
    }

    fn list_completions(&mut self, prefix: WString, list: Vec<Completion>)
        requires
            old(self)@.wf(),
        ensures
            final(self)@ == old(self)@.listed(prefix@, completions(list@)),
            final(self)@.wf(),
    {
        // Update the pager data.
        self.pager.set_prefix(prefix, true);
        self.pager.set_completions(list, PageSelection { index: None, completion: None });
        // Modify the command line to reflect the new pager.
        self.queue(Action::RefilterPager);
    }

    fn remember_cycle(&mut self)
        requires
            old(self)@.wf(),
        ensures
            final(self)@ == old(self)@.with_cycle_here(),
            final(self)@.wf(),
    {
        self.cycle_command_line = copy_text(&self.command_line.text);
        self.cycle_cursor_pos = self.command_line.position;
    }

    /// Handle the list of completions. This means the following:
    ///
    /// - If the list is empty, flash the terminal.
    /// - If the list contains one element, write the whole element, and a trailing space unless it is
    ///   one that asks for none, as those do that end on a '/', '@', ':', '.', ',', '-' or a '='.
    /// - If the list contains multiple elements, insert their common prefix, if any and display
    ///   the list in the pager.
    ///
    /// Return true if we inserted text into the command line, false if we did not.
    pub fn handle_completions(
        &mut self,
        token_range: Range<usize>,
        ellipsis: char,
        ctx: &CompletionContext,
        screen: ScreenState,
    ) -> (did_insert: bool)
        requires
            old(self)@.wf(),
            old(self)@.rls is Some,
            inside(extent(token_range), old(self)@.command_line.text.len() as int),
            old(self)@.completions_fit(extent(token_range), ellipsis, ctx@),
        ensures
            did_insert == old(self)@.completions_insert(extent(token_range), ellipsis),
            !did_insert ==> final(self)@.command_line.text == old(self)@.command_line.text,
            final(self)@ == old(self)@.completions_handled(
                extent(token_range),
                ellipsis,
                ctx@,
                screen,
            ),
            final(self)@.wf(),
            final(self)@.rls == Some(
                LoopView {
                    complete_chose_one: old(self)@.completion_chosen(
                        extent(token_range),
                        ellipsis,
                    ),
                    ..old(self)@.rls.unwrap()
                },
            ),
    {
        let tok = subtext(&self.command_line.text, token_range.start, token_range.end);
        let choice = match &self.rls {
            Some(rls) => choose_completions(&rls.comp, &tok, ellipsis),
            None => Choice::Nothing,
        };
        let chose_one = match &choice {
            Choice::Insert(_) => true,
            _ => false,
        };
        let did_insert = self.apply_choice(choice, &tok, token_range, ctx, screen);
        let mut rls = self.rls.take().unwrap();
        rls.complete_chose_one = chose_one;
        self.rls = Some(rls);
        did_insert
    }

    fn apply_choice(
        &mut self,
        choice: Choice,
        tok: &[char],
        token_range: Range<usize>,
        ctx: &CompletionContext,
        screen: ScreenState,
    ) -> (did_insert: bool)
        requires
            old(self)@.wf(),
            inside(extent(token_range), old(self)@.command_line.text.len() as int),
            tok@ == part(old(self)@.command_line.text, extent(token_range)),
            old(self)@.choice_fits(choice@, extent(token_range), ctx@),
        ensures
            did_insert == old(self)@.choice_inserts(choice@, extent(token_range)),
            !did_insert ==> final(self)@.command_line.text == old(self)@.command_line.text,
            final(self)@ == old(self)@.choice_applied(choice@, extent(token_range), ctx@, screen),
            final(self)@.wf(),
            final(self)@.rls == old(self)@.rls,
    {
        match choice {
            Choice::Nothing => {
                // No suitable completions found, flash screen and return.
                let n = self.command_line.len();
                self.flash(
                    if token_range.start >= token_range.end {
                        0..n
                    } else {
                        token_range
                    },
                    screen,
                );
                false
            },
            Choice::Insert(c) => self.try_insert(&c, tok, token_range.end, ctx),
            Choice::List { insert, prefix, list } => {
                let did_insert = self.insert_prefix(insert, token_range.end, ctx);
                self.list_completions(prefix, list);
                did_insert
            },
        }
    }

    fn insert_prefix(
        &mut self,
        insert: Option<(WString, CompleteFlags)>,
        token_end: usize,
        ctx: &CompletionContext,
    ) -> (did_insert: bool)
        requires
            old(self)@.wf(),
            insert matches Some((text, flags)) ==> old(self)@.insertion_fits(
                token_end as int,
                flags,
                ctx@,
            ),
        ensures
            did_insert == insert is Some,
            final(self)@ == old(self)@.prefix_inserted(
                match insert {
                    Some((text, flags)) => Some((text@, flags)),
                    None => None,
                },
                token_end as int,
                ctx@,
            ),
            final(self)@.wf(),
            final(self)@.rls == old(self)@.rls,
    {
        match insert {
            Some((text, flags)) => {
                self.completion_insert(&text, token_end, flags, ctx);
                self.remember_cycle();
                true
            },
            None => false,
        }
    }

    /// Begin to compute completions: remove a trailing backslash. This may trigger an extra repaint,
    /// but this is rare.
    pub fn begin_completion(&mut self, widths: &[i32])
        requires
            old(self)@.wf(),
            widths@.len() == old(self)@.active_line().text.len(),
        ensures
            final(self)@ == old(self)@.completion_begun(widths@),
            final(self)@.wf(),
    {
        if is_backslashed(&self.command_line.text, self.command_line.position) {
            self.delete_char(true, widths);
        }
    }

    /// Handle the outcome of expanding a wildcard in the token that is completed. Return whether
    /// completions are to be computed.
    pub fn handle_wildcard_expansion(
        &mut self,
        token_range: Range<usize>,
        code: ExpandResultCode,
        wc_expanded: WString,
        screen: ScreenState,
    ) -> (go_on: bool)
        requires
            old(self)@.wf(),
            old(self)@.rls is Some,
            inside(extent(token_range), old(self)@.command_line.text.len() as int),
        ensures
            go_on == (code == ExpandResultCode::Error || code
                == ExpandResultCode::WildcardNoMatch),
            final(self)@ == old(self)@.wildcard_handled(
                extent(token_range),
                code,
                wc_expanded@,
                screen,
            ),
            final(self)@.wf(),
    {
        match code {
            ExpandResultCode::Error => true,
            ExpandResultCode::Overflow => {
                // This may come about if we exceeded the max number of matches.
                // Return "success" to suppress normal completions.
                self.flash(token_range, screen);
                false
            },
            ExpandResultCode::WildcardNoMatch => true,
            ExpandResultCode::Cancel => {
                // e.g. the user hit control-C. Suppress normal completions.
                false
            },
            ExpandResultCode::Expanded => {
                let mut rls = self.rls.take().unwrap();
                rls.comp = Vec::new();
                rls.complete_did_insert = false;
                rls.complete_chose_one = false;
                assert(rls@.comp =~= Seq::empty());
                self.rls = Some(rls);
                self.replace_substring(EditableLineTag::Commandline, token_range, wc_expanded);
                false
            },
        }
    }

    /// Take over the completions that were computed for the token, sorted, and update the pager
    /// and/or command line as needed.
    pub fn compute_and_apply_completions(
        &mut self,
        comp: Vec<Completion>,
        token_range: Range<usize>,
        and_search: bool,
        ellipsis: char,
        ctx: &CompletionContext,
        screen: ScreenState,
    )
        requires
            old(self)@.wf(),
            old(self)@.rls is Some,
            token_range.start <= token_range.end,
            old(self)@.completing(completions(comp@), extent(token_range)).completions_fit(
                old(self)@.clamped_token(extent(token_range)),
                ellipsis,
                ctx@,
            ),
        ensures
            final(self)@ == old(self)@.completed(
                completions(comp@),
                extent(token_range),
                and_search,
                ellipsis,
                ctx@,
                screen,
            ),
            final(self)@.wf(),
    {
        // User-supplied completions may have changed the commandline - prevent buffer overflow.
        let n = self.command_line.len();
        let start = if token_range.start < n {
            token_range.start
        } else {
            n
        };
        let end = if token_range.end < n {
            token_range.end
        } else {
            n
        };
        self.set_completions(comp);
        // Record our cycle_command_line.
        self.cycle_command_line = copy_text(&self.command_line.text);
        self.cycle_cursor_pos = end;
        let did_insert = self.handle_completions(start..end, ellipsis, ctx, screen);
        self.set_complete_did_insert(did_insert);
        // Show the search field if requested and if we printed a list of completions.
        let chose_one = match &self.rls {
            Some(rls) => rls.complete_chose_one,
            None => true,
        };
        if and_search && !chose_one && !self.pager.is_empty() {
            self.pager.search_field_shown = true;
            self.select_completion_in_direction(SelectionMotion::Next);
        }
    }

    fn set_completions(&mut self, comp: Vec<Completion>)
        requires
            old(self)@.wf(),
            old(self)@.rls is Some,
        ensures
            final(self)@ == old(self)@.with_loop(
                LoopView { comp: completions(comp@), ..old(self)@.rls.unwrap() },
            ),
            final(self)@.wf(),
    {
        let mut rls = self.rls.take().unwrap();
        rls.comp = comp;
        self.rls = Some(rls);
    }

    fn set_complete_did_insert(&mut self, did_insert: bool)
        requires
            old(self)@.wf(),
            old(self)@.rls is Some,
        ensures
            final(self)@ == old(self)@.with_loop(
                LoopView { complete_did_insert: did_insert, ..old(self)@.rls.unwrap() },
            ),
            final(self)@.wf(),
    {
        let mut rls = self.rls.take().unwrap();
        rls.complete_did_insert = did_insert;
        self.rls = Some(rls);
    }

    /// Handle another press of the completion key: if we are not yet fully disclosed, then become
    /// so; otherwise cycle through our available completions.
    pub fn cycle_completions(&mut self, forward: bool)
        requires
            old(self)@.wf(),
        ensures
            final(self)@ == old(self)@.completion_cycled(forward),
            final(self)@.wf(),
    {
        if self.pager.remaining_to_disclose != 0 {
            self.pager.fully_disclosed = true;
        } else {
            self.select_completion_in_direction(
                if forward {
                    SelectionMotion::Next
                } else {
                    SelectionMotion::Prev
                },
            );
        }
    }

    pub fn is_cycling_completions(&self) -> (r: bool)
        requires
            self@.rls is Some,
        ensures
            r == self@.cycles_completions(),
    {
        if self.is_navigating_pager_contents() {
            return true;
        }
        match &self.rls {
            Some(rls) => rls.comp.len() > 0 && !rls.complete_chose_one && rls.last_cmd == Some(
                ReadlineCmd::Complete,
            ),
            None => false,
        }
    }
}

/// The token to complete: `token` is its extent in the command substitution `cmdsub`, behind whose
/// end it may reach.
pub open spec fn token_to_complete(cmdsub: Range<int>, token: Range<int>) -> Range<int> {
    let len = cmdsub.end - cmdsub.start;
    Range {
        start: token.start + cmdsub.start,
        end: cmdsub.start + if token.end > len {
            len
        } else {
            token.end
        },
    }
}

/// The extent of the token that is completed, from that of the command substitution around the
/// cursor and that of the token in it.
pub fn completion_token(cmdsub: Range<usize>, token: Range<usize>) -> (r: Range<usize>)
    requires
        cmdsub.start <= cmdsub.end,
        token.start <= cmdsub.end - cmdsub.start,
    ensures
        extent(r) == token_to_complete(extent(cmdsub), extent(token)),
        token.start <= token.end ==> inside(extent(r), cmdsub.end as int),
{
    // The token may extend past the end of the command substitution, e.g. in (echo foo) the last
    // token is 'foo)'. Don't let that happen.
    let len: usize = cmdsub.end - cmdsub.start;
    let end: usize = if token.end > len {
        len
    } else {
        token.end
    };
    cmdsub.start + token.start..cmdsub.start + end
}

/// A slash at `i` that no backslash takes the meaning of.
pub open spec fn is_path_separator(wc: Seq<char>, i: int) -> bool {
    wc[i] == '/' && !backslashed(wc, i)
}

/// Where the path component that holds `pos` begins.
pub open spec fn component_start(wc: Seq<char>, pos: int) -> int
    decreases pos,
{
    if pos <= 0 || is_path_separator(wc, pos - 1) {
        pos
    } else {
        component_start(wc, pos - 1)
    }
}

/// Where the path component that holds `pos` ends.
pub open spec fn component_end(wc: Seq<char>, pos: int) -> int
    decreases wc.len() - pos,
{
    if pos < 0 || pos >= wc.len() || is_path_separator(wc, pos) {
        pos
    } else {
        component_end(wc, pos + 1)
    }
}

/// The path component of a token at a position: what lies between the unescaped slashes before and
/// after it. This is quite naive; for example it mishandles brackets.
pub fn current_path_component(wc: &[char], position: usize) -> (r: Range<usize>)
    requires
        position <= wc@.len(),
    ensures
        r.start == component_start(wc@, position as int),
        r.end == component_end(wc@, position as int),
        r.start <= position <= r.end <= wc@.len(),
{
    let mut start: usize = position;
    while start > 0 && !(wc[start - 1] == '/' && !is_backslashed(wc, start - 1))
        invariant
            start <= position <= wc@.len(),
            component_start(wc@, position as int) == component_start(wc@, start as int),
        decreases start,
    {
        start -= 1;
    }
    let mut end: usize = position;
    while end < wc.len() && !(wc[end] == '/' && !is_backslashed(wc, end))
        invariant
            position <= end <= wc@.len(),
            component_end(wc@, position as int) == component_end(wc@, end as int),
        decreases wc@.len() - end,
    {
        end += 1;
    }
    start..end
}

/// When tab-completing with a wildcard, we expand the wildcard up to this many results. If expansion
/// would exceed this many results, beep and do nothing.
pub const TAB_COMPLETE_WILDCARD_MAX_EXPANSION: usize = 256;

/// What is asked of the expansion of a token.
pub struct ExpansionRequest {
    pub text: WString,
    /// With more results than this, the expansion overflows.
    pub max_results: usize,
    /// A command substitution is an error.
    pub fail_on_cmdsubst: bool,
    /// Variables are left alone.
    pub skip_variables: bool,
    /// A tilde at the beginning stays in the results.
    pub preserve_home_tildes: bool,
}

#[verifier::ext_equal]
pub struct ExpansionRequestView {
    pub text: Seq<char>,
    pub max_results: int,
    pub fail_on_cmdsubst: bool,
    pub skip_variables: bool,
    pub preserve_home_tildes: bool,
}

impl View for ExpansionRequest {
    type V = ExpansionRequestView;

    open spec fn view(&self) -> ExpansionRequestView {
        ExpansionRequestView {
            text: self.text@,
            max_results: self.max_results as int,
            fail_on_cmdsubst: self.fail_on_cmdsubst,
            skip_variables: self.skip_variables,
            preserve_home_tildes: self.preserve_home_tildes,
        }
    }
}

/// What to expand for the token `wc`, if its current path component holds a wildcard. We do
/// wildcards only, and have a low limit on the number of matches, otherwise we will overwhelm the
/// command line.
pub fn wildcard_expansion(wc: &[char], has_wildcard: bool) -> (r: Option<ExpansionRequest>)
    ensures
        r is Some == has_wildcard,
        r matches Some(request) ==> request@ == (ExpansionRequestView {
            text: wc@,
            max_results: 256,
            fail_on_cmdsubst: true,
            skip_variables: true,
            preserve_home_tildes: true,
        }),
{
    if !has_wildcard {
        return None;
    }
    Some(
        ExpansionRequest {
            text: copy_text(wc),
            max_results: TAB_COMPLETE_WILDCARD_MAX_EXPANSION,
            fail_on_cmdsubst: true,
            skip_variables: true,
            preserve_home_tildes: true,
        },
    )
}

/// How a match of a wildcard is escaped, if it is.
pub open spec fn match_escape(flags: CompleteFlags) -> Option<EscapeFlags> {
    if flags.dont_escape {
        None
    } else {
        Some(EscapeFlags { no_quoted: true, no_tilde: flags.dont_escape_tildes })
    }
}

pub fn wildcard_match_escape(flags: CompleteFlags) -> (r: Option<EscapeFlags>)
    ensures
        r == match_escape(flags),
{
    if flags.dont_escape {
        None
    } else {
        Some(EscapeFlags { no_quoted: true, no_tilde: flags.dont_escape_tildes })
    }
}

/// A match of a wildcard, also escaped as [`wildcard_match_escape`] asks for.
pub struct WildcardMatch {
    pub completion: WString,
    pub flags: CompleteFlags,
    pub escaped: WString,
}

#[verifier::ext_equal]
pub struct WildcardMatchView {
    pub completion: Seq<char>,
    pub flags: CompleteFlags,
    pub escaped: Seq<char>,
}

impl View for WildcardMatch {
    type V = WildcardMatchView;

    open spec fn view(&self) -> WildcardMatchView {
        WildcardMatchView {
            completion: self.completion@,
            flags: self.flags,
            escaped: self.escaped@,
        }
    }
}

pub open spec fn wildcard_matches(s: Seq<WildcardMatch>) -> Seq<WildcardMatchView> {
    s.map_values(|m: WildcardMatch| m@)
}

/// All matches, escaped where they need to be, each with a space behind it.
pub open spec fn matches_joined(s: Seq<WildcardMatchView>) -> Seq<char>
    decreases s.len(),
{
    if s.len() == 0 {
        Seq::empty()
    } else {
        let m = s.last();
        (matches_joined(s.drop_last()) + if match_escape(m.flags) is None {
            m.completion
        } else {
            m.escaped
        }).push(' ')
    }
}

/// Given that the user is tab-completing a token, decide what becomes of it. `has_wildcard` tells
/// whether the current path component holds a wildcard, `code` and `expanded` are what expanding
/// the token gave.
pub fn try_expand_wildcard(
    has_wildcard: bool,
    code: ExpandResultCode,
    expanded: &Vec<WildcardMatch>,
    result: &mut WString,
) -> (r: ExpandResultCode)
    ensures
        r == if has_wildcard {
            code
        } else {
            ExpandResultCode::WildcardNoMatch
        },
        final(result)@ == if !has_wildcard {
            old(result)@
        } else if code == ExpandResultCode::Expanded {
            matches_joined(wildcard_matches(expanded@))
        } else {
            Seq::empty()
        },
{
    // Only expand if there are wildcards in the "current path component."
    if !has_wildcard {
        return ExpandResultCode::WildcardNoMatch;
    }
    *result = Vec::new();
    if code != ExpandResultCode::Expanded {
        return code;
    }
    // Insert all matches (escaped) and a trailing space.
    let ghost all = wildcard_matches(expanded@);
    let mut joined: WString = Vec::new();
    let mut i: usize = 0;
    while i < expanded.len()
        invariant
            i <= expanded@.len(),
            all == wildcard_matches(expanded@),
            joined@ == matches_joined(all.take(i as int)),
        decreases expanded@.len() - i,
    {
        let m = &expanded[i];
        if wildcard_match_escape(m.flags).is_none() {
            push_text(&mut joined, &m.completion);
        } else {
            push_text(&mut joined, &m.escaped);
        }
        joined.push(' ');
        assert(all.take(i + 1).drop_last() =~= all.take(i as int));
        i += 1;
    }
    assert(all.take(i as int) =~= all);
    *result = joined;
    ExpandResultCode::Expanded
}

} // verus!

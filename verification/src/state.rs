//! The snapshot of the command line that scripts see, and by which they change it.

use crate::data::{DataView, EditableLineTag, ReaderData};
use crate::edit::lemma_whole_line_replaced;
use crate::flags::Flag;
use crate::text::{copy_text, opt_extent, text_eq, WString};
use std::ops::Range;
use vstd::prelude::*;

verus! {

/// Snapshotted state from the reader.
pub struct CommandlineState {
    /// command line text, or empty if not interactive
    pub text: WString,
    /// position of the cursor, may be as large as text.len()
    pub cursor_pos: usize,
    /// visual selection, or none if none
    pub selection: Option<Range<usize>>,
    /// the name of the current reader history, or none if not interactive
    pub history: Option<WString>,
    /// pager is visible
    pub pager_mode: bool,
    /// pager already shows everything if possible
    pub pager_fully_disclosed: bool,
    /// The search field, if shown.
    pub search_field: Option<(WString, usize)>,
    /// pager is visible and search is active
    pub search_mode: bool,
}

#[verifier::ext_equal]
pub struct StateView {
    pub text: Seq<char>,
    pub cursor_pos: int,
    pub selection: Option<Range<int>>,
    pub history: Option<Seq<char>>,
    pub pager_mode: bool,
    pub pager_fully_disclosed: bool,
    pub search_field: Option<(Seq<char>, int)>,
    pub search_mode: bool,
}

impl View for CommandlineState {
    type V = StateView;

    open spec fn view(&self) -> StateView {
        StateView {
            text: self.text@,
            cursor_pos: self.cursor_pos as int,
            selection: opt_extent(self.selection),
            history: match self.history {
                Some(name) => Some(name@),
                None => None,
            },
            pager_mode: self.pager_mode,
            pager_fully_disclosed: self.pager_fully_disclosed,
            search_field: match self.search_field {
                Some((text, pos)) => Some((text@, pos as int)),
                None => None,
            },
            search_mode: self.search_mode,
        }
    }
}

impl StateView {
    pub open spec fn blank() -> StateView {
        StateView {
            text: Seq::empty(),
            cursor_pos: 0,
            selection: None,
            history: None,
            pager_mode: false,
            pager_fully_disclosed: false,
            search_field: None,
            search_mode: false,
        }
    }

    /// The cursors lie in their texts.
    pub open spec fn wf(self) -> bool {
        &&& 0 <= self.cursor_pos <= self.text.len()
        &&& self.search_field matches Some((text, pos)) ==> 0 <= pos <= text.len()
    }

    /// The text set where one is given, and the cursor put somewhere in it; at its end where no
    /// place is given.
    pub open spec fn with_buffer(self, text: Option<Seq<char>>, cursor: Option<usize>) -> StateView {
        let now = text.unwrap_or(self.text);
        StateView { text: now, cursor_pos: cursor_in(cursor, now.len()), ..self }
    }

    pub open spec fn with_search_field(self, text: Seq<char>, cursor: Option<usize>) -> StateView {
        StateView { search_field: Some((text, cursor_in(cursor, text.len()))), ..self }
    }
}

/// Where a cursor is put in a text of length `n`.
pub open spec fn cursor_in(cursor: Option<usize>, n: nat) -> int {
    match cursor {
        Some(pos) if pos < n => pos as int,
        _ => n as int,
    }
}

fn place_cursor(cursor: Option<usize>, n: usize) -> (r: usize)
    ensures
        r == cursor_in(cursor, n as nat),
{
    match cursor {
        Some(pos) => if pos < n {
            pos
        } else {
            n
        },
        None => n,
    }
}

impl CommandlineState {
    pub fn new() -> (r: CommandlineState)
        ensures
            r@ == StateView::blank(),
    {
        CommandlineState {
            text: Vec::new(),
            cursor_pos: 0,
            selection: None,
            history: None,
            pager_mode: false,
            pager_fully_disclosed: false,
            search_field: None,
            search_mode: false,
        }
    }

    /// Set the text and the cursor.
    pub fn set_buffer(&mut self, text: Option<WString>, cursor_pos: Option<usize>)
        ensures
            final(self)@ == old(self)@.with_buffer(
                match text {
                    Some(text) => Some(text@),
                    None => None,
                },
                cursor_pos,
            ),
    {
        if let Some(text) = text {
            self.text = text;
        }
        self.cursor_pos = place_cursor(cursor_pos, self.text.len());
    }

    pub fn set_search_field(&mut self, text: WString, cursor_pos: Option<usize>)
        ensures
            final(self)@ == old(self)@.with_search_field(text@, cursor_pos),
    {
        let pos = place_cursor(cursor_pos, text.len());
        self.search_field = Some((text, pos));
    }
}

impl Default for CommandlineState {
    fn default() -> (r: CommandlineState)
        ensures
            r@ == StateView::blank(),
    {
        CommandlineState::new()
    }
}

impl Clone for CommandlineState {
    fn clone(&self) -> (r: CommandlineState)
        ensures
            r@ == self@,
    {
        CommandlineState {
            text: copy_text(&self.text),
            cursor_pos: self.cursor_pos,
            selection: match &self.selection {
                Some(s) => Some(s.start..s.end),
                None => None,
            },
            history: match &self.history {
                Some(name) => Some(copy_text(name)),
                None => None,
            },
            pager_mode: self.pager_mode,
            pager_fully_disclosed: self.pager_fully_disclosed,
            search_field: match &self.search_field {
                Some((text, pos)) => Some((copy_text(text), *pos)),
                None => None,
            },
            search_mode: self.search_mode,
        }
    }
}

impl DataView {
    /// The snapshot of a reader.
    pub open spec fn state(self) -> StateView {
        StateView {
            text: self.command_line.text,
            cursor_pos: self.command_line.position,
            selection: self.selected_range(),
            history: Some(self.history_name),
            pager_mode: !self.pager.is_empty(),
            pager_fully_disclosed: self.pager.remaining == 0,
            search_field: if self.pager.search_field_shown {
                Some((self.pager.search_field.text, self.pager.search_field.position))
            } else {
                None
            },
            search_mode: !self.pager.is_empty() && self.search.active(),
        }
    }

    /// The search field set to what a script asked for.
    pub open spec fn search_field_set(self, text: Seq<char>, pos: int) -> DataView {
        let line = self.pager.search_field;
        if !self.pager.search_field_shown || (text == line.text && pos == line.position) {
            self
        } else {
            let next = self.replaced(
                EditableLineTag::SearchField,
                Range { start: 0, end: line.text.len() as int },
                text,
            );
            next.with_line(
                EditableLineTag::SearchField,
                next.pager.search_field.moved_to(pos),
            )
        }
    }

    /// The command line set to what a script asked for.
    pub open spec fn commandline_set(self, text: Seq<char>, pos: int) -> DataView {
        self.pager_cleared().buffer_set(text, pos).with_flag(Flag::ResetLoopState, true)
    }

    /// What a script changed in the snapshot carried over: the command line, or else the search
    /// field.
    pub open spec fn state_applied(self, s: StateView) -> DataView {
        if s.text != self.command_line.text || s.cursor_pos != self.command_line.position {
            self.commandline_set(s.text, s.cursor_pos)
        } else {
            match s.search_field {
                Some((text, pos)) => self.search_field_set(text, pos),
                None => self,
            }
        }
    }
}

impl ReaderData {
    /// Reflect our current data in the command line state snapshot.
    pub fn update_commandline_state(&self) -> (r: CommandlineState)
        requires
            self@.wf(),
        ensures
            r@ == self@.state(),
            r@.wf(),
    {
        CommandlineState {
            text: copy_text(&self.command_line.text),
            cursor_pos: self.command_line.position,
            selection: self.get_selection(),
            history: Some(copy_text(&self.history_name)),
            pager_mode: !self.pager.is_empty(),
            pager_fully_disclosed: self.pager.remaining_to_disclose == 0,
            search_field: if self.pager.search_field_shown {
                Some(
                    (
                        copy_text(&self.pager.search_field_line.text),
                        self.pager.search_field_line.position,
                    ),
                )
            } else {
                None
            },
            search_mode: !self.pager.is_empty() && self.history_search.active(),
        }
    }

    /// Apply any changes from the reader snapshot. This is called after running scripts,
    /// incorporating changes from the commandline builtin.
    pub fn apply_commandline_state_changes(&mut self, state: &CommandlineState)
        requires
            old(self)@.wf(),
            state@.wf(),
        ensures
            final(self)@ == old(self)@.state_applied(state@),
            final(self)@.wf(),
    {
        // Only the text and cursor position may be changed.
        if !text_eq(&state.text, &self.command_line.text) || state.cursor_pos
            != self.command_line.position {
            // The commandline builtin changed our contents.
            self.clear_pager();
            self.set_buffer_maintaining_pager(&state.text, state.cursor_pos);
            self.flags.set(Flag::ResetLoopState, true);
        } else if let Some((new_search_field, new_cursor_pos)) = &state.search_field {
            self.set_search_field(new_search_field, *new_cursor_pos);
        }
    }

    fn set_search_field(&mut self, text: &[char], pos: usize)
        requires
            old(self)@.wf(),
            pos <= text@.len(),
        ensures
            final(self)@ == old(self)@.search_field_set(text@, pos as int),
            final(self)@.wf(),
    {
        if !self.pager.search_field_shown {
            return;  // Not yet supported.
        }
        if text_eq(text, &self.pager.search_field_line.text) && pos
            == self.pager.search_field_line.position {
            return;
        }
        let n = self.pager.search_field_line.len();
        proof {
            lemma_whole_line_replaced(self@, EditableLineTag::SearchField, text@);
        }
        self.replace_substring(EditableLineTag::SearchField, 0..n, copy_text(text));
        self.pager.search_field_line.set_position(pos);
    }
}

} // verus!

//! Keeping the screen up to date: repainting, flashing, highlighting and autosuggesting.

use crate::action::{Action, ActionView};
use crate::data::{CursorEndMode, DataView, EditableLineTag, ReaderData};
use crate::flags::Flag;
use crate::highlight::{colors_eq, copy_colors, HighlightRole, HighlightSpec};
use crate::host::stdin_fileno;
use crate::layout::{range_eq, LayoutData, LayoutView, PaintRequest, PaintView};
use crate::line::LineView;
use crate::suggestion::{
    prefixes, same_char, string_prefixes_string_maybe_case_insensitive, AutosuggestionResult,
    ResultView,
};
use crate::text::{
    copy_text, extent, inside, line_range, part, range_of_line_at_cursor, text_eq, WString,
};
use std::ops::Range;
use vstd::prelude::*;

verus! {

/// What the screen and the pager's rendering have to say.
#[derive(Clone, Copy, PartialEq, Eq, Structural, Debug)]
pub struct ScreenState {
    /// The last flash was only a moment ago.
    pub recently_flashed: bool,
    /// Where the cursor is shown in the search field.
    pub pager_cursor: usize,
    /// The pager's rendering is out of date.
    pub pager_needs_update: bool,
}

/// How long a flash is shown.
pub const FLASH_MILLISECONDS: u64 = 100;

/// Within this time after a flash there is no other one.
pub const FLASH_PAUSE_MILLISECONDS: u64 = 50;

/// How long to wait for the syntax highlighting before a command is executed. It may hang, e.g. on
/// determining if an arbitrary argument is a path.
pub const HIGHLIGHT_TIMEOUT_MILLISECONDS: u64 = 250;

/// Whether the last flash, so many milliseconds ago, was only a moment ago.
pub fn is_recent_flash(milliseconds: Option<u64>) -> (r: bool)
    ensures
        r == (milliseconds matches Some(ms) && ms < FLASH_PAUSE_MILLISECONDS),
{
    match milliseconds {
        Some(ms) => ms < FLASH_PAUSE_MILLISECONDS,
        None => false,
    }
}

/// The result of highlighting a command line.
pub struct HighlightResult {
    pub colors: Vec<HighlightSpec>,
    pub text: WString,
}

/// What is left to do for the highlighting before a command is executed.
#[derive(Clone, Copy, PartialEq, Eq, Structural, Debug)]
pub enum FinalHighlight {
    /// The command line is highlighted as it should be, or highlighting is off.
    Done,
    /// Wait for the request that is under way, but not forever.
    Wait,
    /// Highlight quickly, without looking at files.
    WithoutIo,
}

/// A character that does not count as content for an autosuggestion.
pub open spec fn is_blank(c: char) -> bool {
    c == ' ' || c == '\t' || c == '\r' || c == '\n' || c == '\x0B'
}

/// The colors with those in the range changed to flash.
pub open spec fn flashed(colors: Seq<HighlightSpec>, r: Range<int>) -> Seq<HighlightSpec> {
    Seq::new(
        colors.len(),
        |i: int|
            if r.start <= i < r.end {
                HighlightSpec {
                    foreground: HighlightRole::SearchMatch,
                    background: HighlightRole::SearchMatch,
                    ..colors[i]
                }
            } else {
                colors[i]
            },
    )
}

impl DataView {
    /// The layout of the current state.
    pub open spec fn layout(self, screen: ScreenState) -> LayoutView {
        LayoutView {
            text: self.command_line.text,
            colors: self.command_line.colors,
            position: self.command_line.position,
            search_field_position: if self.active_tag() == EditableLineTag::SearchField {
                Some(screen.pager_cursor)
            } else {
                None
            },
            selection: self.selection,
            autosuggestion: self.autosuggestion.text,
            history_search_range: self.search.range_if_active(),
            left_prompt: self.left_prompt,
            mode_prompt: self.mode_prompt,
            right_prompt: self.right_prompt,
        }
    }

    /// The line at the cursor is the one that the autosuggestion continues.
    pub open spec fn at_line_with_suggestion(self) -> bool {
        &&& self.active_tag() == EditableLineTag::Commandline
        &&& self.autosuggestion.text.len() > 0
        &&& line_range(self.command_line.text, self.command_line.position)
            == self.autosuggestion.range
    }

    /// The cursor is where the autosuggestion begins to be shown.
    pub open spec fn at_suggestion(self) -> bool {
        &&& self.active_tag() == EditableLineTag::Commandline
        &&& self.autosuggestion.text.len() > 0
        &&& self.autosuggestion.range.end == match self.end_mode {
            CursorEndMode::Exclusive => self.command_line.position,
            CursorEndMode::Inclusive => self.command_line.position + 1,
        }
    }

    /// The cursor cannot move on to the right in the active line.
    pub open spec fn at_end(self) -> bool {
        let line = self.active_line();
        match self.end_mode {
            CursorEndMode::Exclusive => line.position == line.text.len(),
            CursorEndMode::Inclusive => line.position + 1 >= line.text.len(),
        }
    }

    pub open spec fn paint_request(self, layout: LayoutView, is_final: bool) -> PaintView {
        PaintView {
            layout,
            silent: self.conf.in_silent_mode,
            suggestion: if self.at_line_with_suggestion() {
                Some((self.autosuggestion.range, self.autosuggestion.text))
            } else {
                None
            },
            flash: self.is(Flag::FlashAutosuggestion),
            is_final,
        }
    }

    pub open spec fn painted_with(self, layout: LayoutView, is_final: bool) -> DataView {
        DataView { rendered: layout, ..self }.queued(
            ActionView::Paint(self.paint_request(layout, is_final)),
        )
    }

    /// The current state painted.
    pub open spec fn painted(self, screen: ScreenState, is_final: bool) -> DataView {
        self.painted_with(self.layout(screen), is_final)
    }

    /// What is on the screen does not show the current state. The colors count only where new ones
    /// are given.
    pub open spec fn stale(self, colors: Option<Seq<HighlightSpec>>, screen: ScreenState) -> bool {
        let now = self.layout(screen);
        let last = self.rendered;
        ||| self.is(Flag::ForceExecPromptAndRepaint)
        ||| now.text != last.text
        ||| colors is Some && colors.unwrap() != last.colors
        ||| now.selection != last.selection
        ||| now.position != last.position
        ||| now.search_field_position != last.search_field_position
        ||| now.history_search_range != last.history_search_range
        ||| now.autosuggestion != last.autosuggestion
        ||| now.left_prompt != last.left_prompt
        ||| now.mode_prompt != last.mode_prompt
        ||| now.right_prompt != last.right_prompt
        ||| screen.pager_needs_update
    }

    pub open spec fn repainted_if_stale(self, screen: ScreenState) -> DataView {
        if self.stale(None, screen) {
            self.painted(screen, false)
        } else {
            self
        }
    }

    /// The range flashes, unless there was a flash a moment ago or nothing would be seen.
    #[verifier::opaque]
    pub open spec fn flashing(self, r: Range<int>, screen: ScreenState) -> DataView {
        if screen.recently_flashed || (r.start >= r.end && !self.is(Flag::FlashAutosuggestion)) {
            self.queued(ActionView::NoteFlash)
        } else {
            self.brightened(self.layout(screen), r).queued(ActionView::NoteFlash)
        }
    }

    /// A range of a layout shown bright for a moment.
    pub open spec fn brightened(self, now: LayoutView, r: Range<int>) -> DataView {
        let bright = LayoutView { colors: flashed(now.colors, r), ..now };
        self.painted_with(bright, false).with_flag(Flag::FlashAutosuggestion, false).queued(
            ActionView::Sleep { milliseconds: FLASH_MILLISECONDS },
        ).painted_with(now, false)
    }

    pub open spec fn can_autosuggest(self) -> bool {
        &&& self.conf.autosuggest_ok
        &&& !self.is(Flag::SuppressAutosuggestion)
        &&& self.search.at_present()
        &&& self.active_tag() == EditableLineTag::Commandline
        &&& exists|i: int|
            0 <= i < self.command_line.text.len() && !is_blank(
                #[trigger] self.command_line.text[i],
            )
    }

    /// A suggestion asked for, unless there is one already or one was asked for. Where nothing is
    /// to be suggested, there is none.
    pub open spec fn suggestion_refreshed(self) -> DataView {
        if !self.can_autosuggest() {
            DataView {
                in_flight_autosuggest: Seq::empty(),
                autosuggestion: self.autosuggestion.cleared(),
                ..self
            }
        } else if self.at_line_with_suggestion() || self.command_line.text
            == self.in_flight_autosuggest {
            self
        } else {
            DataView {
                in_flight_autosuggest: self.command_line.text,
                autosuggestion: self.autosuggestion.cleared(),
                ..self
            }.queued(
                ActionView::Autosuggest {
                    command_line: self.command_line.text,
                    position: self.command_line.position,
                },
            )
        }
    }

    /// A suggestion that was asked for arrived. It is dropped if the command line is another one by
    /// now; if it had new completions loaded, it is asked for again.
    pub open spec fn suggestion_arrived(
        self,
        result: ResultView,
        loaded_new: bool,
        screen: ScreenState,
    ) -> DataView {
        let next = if result.command_line == self.in_flight_autosuggest {
            DataView { in_flight_autosuggest: Seq::empty(), ..self }
        } else {
            self
        };
        let s = result.suggestion;
        if result.command_line != self.command_line.text {
            next
        } else if loaded_new {
            next.suggestion_refreshed()
        } else if s.text.len() > 0 && next.can_autosuggest() && prefixes(
            s.icase,
            part(result.command_line, s.range),
            s.text,
        ) {
            DataView { autosuggestion: s, ..next }.repainted_if_stale(screen)
        } else {
            next
        }
    }

    /// Highlighting asked for, unless it is off or was asked for already.
    pub open spec fn highlighting(self) -> DataView {
        if !self.conf.highlight_ok || self.command_line.text == self.in_flight_highlight {
            self
        } else {
            DataView { in_flight_highlight: self.command_line.text, ..self }.queued(
                ActionView::Highlight {
                    command_line: self.command_line.text,
                    position: self.command_line.position,
                },
            )
        }
    }

    pub open spec fn with_colors(self, colors: Seq<HighlightSpec>) -> DataView {
        DataView { command_line: LineView { colors, ..self.command_line }, ..self }
    }

    /// Colors that were asked for arrived. They are dropped if the command line is another one by
    /// now.
    pub open spec fn highlighted(
        self,
        text: Seq<char>,
        colors: Seq<HighlightSpec>,
        screen: ScreenState,
    ) -> DataView {
        let next = DataView { in_flight_highlight: Seq::empty(), ..self };
        if text == self.command_line.text && next.stale(Some(colors), screen) {
            next.with_colors(colors).painted(screen, false)
        } else {
            next
        }
    }

    pub open spec fn final_highlight(self) -> FinalHighlight {
        if !self.conf.highlight_ok {
            FinalHighlight::Done
        } else if self.in_flight_highlight.len() == 0 {
            // Either highlighting had finished, or it had not begun. What was rendered last tells.
            if self.rendered.text == self.command_line.text {
                FinalHighlight::Done
            } else {
                FinalHighlight::WithoutIo
            }
        } else if self.in_flight_highlight == self.command_line.text {
            FinalHighlight::Wait
        } else {
            FinalHighlight::WithoutIo
        }
    }

    /// Suggesting and highlighting kicked off, and the screen brought up to date.
    pub open spec fn refreshed(self, screen: ScreenState) -> DataView {
        let next = if self.conf.inputfd == 0 {
            self.suggestion_refreshed().highlighting()
        } else {
            self
        };
        next.repainted_if_stale(screen).with_flag(Flag::ForceExecPromptAndRepaint, false)
    }
}

/// A suggestion that is shown continues the command line up to the case.
proof fn lemma_paint_request(d: DataView, layout: LayoutView, is_final: bool)
    requires
        d.wf(),
        layout.text == d.command_line.text,
        layout.colors.len() == layout.text.len(),
        layout.history_search_range == d.search.range_if_active(),
    ensures
        d.paint_request(layout, is_final).wf(),
{
    if d.at_line_with_suggestion() {
        let s = d.autosuggestion;
        let p = part(layout.text, s.range);
        assert forall|i: int| 0 <= i < p.len() implies same_char(true, #[trigger] p[i], s.text[i]) by {
            assert(same_char(s.icase, p[i], s.text[i]));
        }
    }
    if d.search.range_if_active() is Some {
        assert(d.search.matches[d.search.index].ordered());
    }
}

fn flash_colors(colors: &Vec<HighlightSpec>, start: usize, end: usize) -> (r: Vec<HighlightSpec>)
    ensures
        r@ == flashed(colors@, Range { start: start as int, end: end as int }),
{
    let mut r: Vec<HighlightSpec> = Vec::new();
    let ghost range = Range { start: start as int, end: end as int };
    let mut i: usize = 0;
    while i < colors.len()
        invariant
            i <= colors@.len(),
            r@.len() == i,
            range == (Range { start: start as int, end: end as int }),
            forall|j: int| 0 <= j < i ==> r@[j] == flashed(colors@, range)[j],
        decreases colors@.len() - i,
    {
        let mut color = colors[i];
        if start <= i && i < end {
            color.foreground = HighlightRole::SearchMatch;
            color.background = HighlightRole::SearchMatch;
        }
        r.push(color);
        i += 1;
    }
    assert(r@ =~= flashed(colors@, range));
    r
}

/// The colors of a command line as a result; `colors` are what highlighting gives for the text.
pub fn get_highlight_performer(text: WString, colors: Vec<HighlightSpec>) -> (r: HighlightResult)
    ensures
        r.text@ == text@,
        r.colors@ == if text@.len() == 0 {
            Seq::<HighlightSpec>::empty()
        } else {
            colors@
        },
{
    if text.len() == 0 {
        return HighlightResult { colors: Vec::new(), text };
    }
    HighlightResult { colors, text }
}

impl ReaderData {
    /// Generate a new layout data from the current state of the world.
    pub fn make_layout_data(&self, screen: ScreenState) -> (r: LayoutData)
        requires
            self@.wf(),
        ensures
            r@ == self@.layout(screen),
            r@.colors.len() == r@.text.len(),
    {
        let focused_on_pager = self.active_edit_line_tag() == EditableLineTag::SearchField;
        LayoutData {
            text: copy_text(&self.command_line.text),
            colors: copy_colors(&self.command_line.colors),
            position: self.command_line.position,
            pager_search_field_position: if focused_on_pager {
                Some(screen.pager_cursor)
            } else {
                None
            },
            selection: self.selection,
            autosuggestion: copy_text(&self.autosuggestion.text),
            history_search_range: self.history_search.search_range_if_active(),
            left_prompt_buff: copy_text(&self.left_prompt_buff),
            mode_prompt_buff: copy_text(&self.mode_prompt_buff),
            right_prompt_buff: copy_text(&self.right_prompt_buff),
        }
    }

    pub fn is_at_line_with_autosuggestion(&self) -> (r: bool)
        requires
            self@.wf(),
        ensures
            r == self@.at_line_with_suggestion(),
    {
        if self.active_edit_line_tag() != EditableLineTag::Commandline {
            return false;
        }
        if self.autosuggestion.is_empty() {
            return false;
        }
        let range = range_of_line_at_cursor(&self.command_line.text, self.command_line.position);
        range.start == self.autosuggestion.search_string_range.start && range.end
            == self.autosuggestion.search_string_range.end
    }

    pub fn is_at_autosuggestion(&self) -> (r: bool)
        requires
            self@.wf(),
        ensures
            r == self@.at_suggestion(),
    {
        if self.active_edit_line_tag() != EditableLineTag::Commandline {
            return false;
        }
        if self.autosuggestion.is_empty() {
            return false;
        }
        let position: usize = match self.cursor_end_mode {
            CursorEndMode::Exclusive => self.command_line.position,
            CursorEndMode::Inclusive => self.command_line.position + 1,
        };
        position == self.autosuggestion.search_string_range.end
    }

    pub fn is_at_end(&self) -> (r: bool)
        requires
            self@.wf(),
        ensures
            r == self@.at_end(),
    {
        let (_elt, el) = self.active_edit_line();
        match self.cursor_end_mode {
            CursorEndMode::Exclusive => el.position == el.len(),
            CursorEndMode::Inclusive => el.position + 1 >= el.len(),
        }
    }

    /// Paint the last rendered layout.
    fn paint_layout(&mut self, layout: LayoutData, is_final_rendering: bool)
        requires
            old(self)@.wf(),
        ensures
            final(self)@ == old(self)@.painted_with(layout@, is_final_rendering),
            final(self)@.wf(),
    {
        let suggestion = if self.is_at_line_with_autosuggestion() {
            Some(
                (
                    self.autosuggestion.search_string_range.start
                        ..self.autosuggestion.search_string_range.end,
                    copy_text(&self.autosuggestion.text),
                ),
            )
        } else {
            None
        };
        let request = PaintRequest {
            layout: layout.copy(),
            in_silent_mode: self.conf.in_silent_mode,
            suggestion,
            flash_autosuggestion: self.flags.get(Flag::FlashAutosuggestion),
            is_final_rendering,
        };
        self.rendered_layout = layout;
        self.queue(Action::Paint(request));
    }

    /// Generate a new layout data from the current state of the world, and paint with it.
    pub fn layout_and_repaint(&mut self, screen: ScreenState)
        requires
            old(self)@.wf(),
        ensures
            final(self)@ == old(self)@.painted(screen, false),
            old(self)@.paint_request(old(self)@.layout(screen), false).wf(),
            final(self)@.wf(),
    {
        proof {
            lemma_paint_request(self@, self@.layout(screen), false);
        }
        let layout = self.make_layout_data(screen);
        self.paint_layout(layout, false);
    }

    /// Paint for the last time before the command is executed.
    pub fn layout_and_repaint_before_execution(&mut self, screen: ScreenState)
        requires
            old(self)@.wf(),
        ensures
            final(self)@ == old(self)@.painted(screen, true),
            old(self)@.paint_request(old(self)@.layout(screen), true).wf(),
            final(self)@.wf(),
    {
        proof {
            lemma_paint_request(self@, self@.layout(screen), true);
        }
        let layout = self.make_layout_data(screen);
        self.paint_layout(layout, true);
    }

    /// Return true if the command line has changed and repainting is needed. If colors are given,
    /// then also return true if the colors have changed.
    pub fn is_repaint_needed(
        &self,
        mcolors: Option<&Vec<HighlightSpec>>,
        screen: ScreenState,
    ) -> (r: bool)
        requires
            self@.wf(),
        ensures
            r == self@.stale(
                match mcolors {
                    Some(c) => Some(c@),
                    None => None,
                },
                screen,
            ),
    {
        // Note: this function is responsible for detecting all of the ways that the command line may
        // change, by comparing it to what is present in rendered_layout.
        // The pager is the problem child, it has its own update logic.
        let focused_on_pager = self.active_edit_line_tag() == EditableLineTag::SearchField;
        let pager_search_field_position = if focused_on_pager {
            Some(screen.pager_cursor)
        } else {
            None
        };
        let last = &self.rendered_layout;
        let colors_changed = match mcolors {
            Some(colors) => !colors_eq(colors, &last.colors),
            None => false,
        };
        self.flags.get(Flag::ForceExecPromptAndRepaint) || !text_eq(
            &self.command_line.text,
            &last.text,
        ) || colors_changed || self.selection != last.selection || self.command_line.position
            != last.position || pager_search_field_position != last.pager_search_field_position
            || !range_eq(
            &self.history_search.search_range_if_active(),
            &last.history_search_range,
        ) || !text_eq(&self.autosuggestion.text, &last.autosuggestion) || !text_eq(
            &self.left_prompt_buff,
            &last.left_prompt_buff,
        ) || !text_eq(&self.mode_prompt_buff, &last.mode_prompt_buff) || !text_eq(
            &self.right_prompt_buff,
            &last.right_prompt_buff,
        ) || screen.pager_needs_update
    }

    pub(crate) fn repaint_if_needed(&mut self, screen: ScreenState)
        requires
            old(self)@.wf(),
        ensures
            final(self)@ == old(self)@.repainted_if_stale(screen),
            final(self)@.wf(),
    {
        if self.is_repaint_needed(None, screen) {
            self.layout_and_repaint(screen);
        }
    }

    /// Flash the screen. This function changes the color of the current line momentarily.
    #[verifier::spinoff_prover]
    pub fn flash(&mut self, flash_range: Range<usize>, screen: ScreenState)
        requires
            old(self)@.wf(),
            flash_range.start <= flash_range.end,
        ensures
            final(self)@ == old(self)@.flashing(extent(flash_range), screen),
            final(self)@.wf(),
            final(self)@ == (DataView {
                rendered: final(self)@.rendered,
                flags: final(self)@.flags,
                actions: final(self)@.actions,
                ..old(self)@
            }),
    {
        reveal(DataView::flashing);
        // Multiple flashes may be enqueued by keypress repeat events and can pile up to cause a
        // significant delay in processing future input while all the flashes complete, as we
        // effectively sleep each go.
        if screen.recently_flashed || (flash_range.start >= flash_range.end && !self.flags.get(
            Flag::FlashAutosuggestion,
        )) {
            self.queue(Action::NoteFlash);
            return;
        }
        let saved = self.make_layout_data(screen);
        self.brighten(saved, flash_range);
        self.queue(Action::NoteFlash);
    }

    fn brighten(&mut self, saved: LayoutData, flash_range: Range<usize>)
        requires
            old(self)@.wf(),
            saved@.colors.len() == saved@.text.len(),
            flash_range.start <= flash_range.end,
        ensures
            final(self)@ == old(self)@.brightened(saved@, extent(flash_range)),
            final(self)@.wf(),
            final(self)@ == (DataView {
                rendered: final(self)@.rendered,
                flags: final(self)@.flags,
                actions: final(self)@.actions,
                ..old(self)@
            }),
    {
        // Save off the colors and set the background.
        let mut data = saved.copy();
        data.colors = flash_colors(&saved.colors, flash_range.start, flash_range.end);
        self.paint_layout(data, false);
        self.flags.set(Flag::FlashAutosuggestion, false);
        self.queue(Action::Sleep { milliseconds: FLASH_MILLISECONDS });
        // Re-render with our saved data.
        self.paint_layout(saved, false);
    }

    pub fn can_autosuggest(&self) -> (r: bool)
        ensures
            r == self@.can_autosuggest(),
    {
        // We autosuggest if suppress_autosuggestion is not set, if we're not doing a history search,
        // and our command line contains a non-whitespace character.
        if !self.conf.autosuggest_ok || self.flags.get(Flag::SuppressAutosuggestion)
            || !self.history_search.is_at_present() || self.active_edit_line_tag()
            != EditableLineTag::Commandline {
            return false;
        }
        let text = &self.command_line.text;
        let mut i: usize = 0;
        while i < text.len()
            invariant
                i <= text@.len(),
                text@ == self@.command_line.text,
                forall|j: int| 0 <= j < i ==> is_blank(#[trigger] text@[j]),
                self@.conf.autosuggest_ok,
                !self@.is(Flag::SuppressAutosuggestion),
                self@.search.at_present(),
                self@.active_tag() == EditableLineTag::Commandline,
            decreases text@.len() - i,
        {
            let c = text[i];
            if !(c == ' ' || c == '\t' || c == '\r' || c == '\n' || c == '\x0B') {
                assert(!is_blank(self@.command_line.text[i as int]));
                return true;
            }
            i += 1;
        }
        false
    }

    /// Ask for an autosuggestion where one is needed.
    pub fn update_autosuggestion(&mut self)
        requires
            old(self)@.wf(),
        ensures
            final(self)@ == old(self)@.suggestion_refreshed(),
            final(self)@.wf(),
    {
        // If we can't autosuggest, just clear it.
        if !self.can_autosuggest() {
            self.in_flight_autosuggest_request = Vec::new();
            self.autosuggestion.clear();
            return;
        }
        if self.is_at_line_with_autosuggestion() {
            return;
        }
        // Do nothing if we've already kicked off this autosuggest request.
        if text_eq(&self.command_line.text, &self.in_flight_autosuggest_request) {
            return;
        }
        self.in_flight_autosuggest_request = copy_text(&self.command_line.text);
        // Clear the autosuggestion and kick it off in the background.
        self.autosuggestion.clear();
        let command_line = copy_text(&self.command_line.text);
        let position = self.command_line.position;
        self.queue(Action::Autosuggest { command_line, position });
    }

    /// Called after an autosuggestion has been computed. `loaded_new` tells whether loading what the
    /// result asked for brought new completions.
    pub fn autosuggest_completed(
        &mut self,
        result: AutosuggestionResult,
        loaded_new: bool,
        screen: ScreenState,
    )
        requires
            old(self)@.wf(),
            inside(result@.suggestion.range, result@.command_line.len() as int),
        ensures
            final(self)@ == old(self)@.suggestion_arrived(result@, loaded_new, screen),
            final(self)@.wf(),
    {
        if text_eq(&result.command_line, &self.in_flight_autosuggest_request) {
            self.in_flight_autosuggest_request = Vec::new();
        }
        if !text_eq(&result.command_line, &self.command_line.text) {
            // This autosuggestion is stale.
            return;
        }
        if loaded_new {
            // We loaded new completions for this command. Re-do our autosuggestion.
            self.update_autosuggestion();
        } else if !result.autosuggestion.is_empty() && self.can_autosuggest()
            && string_prefixes_string_maybe_case_insensitive(
            result.autosuggestion.icase,
            &result.search_string(),
            &result.autosuggestion.text,
        ) {
            // Autosuggestion is active and the search term has not changed, so we're good to go.
            self.autosuggestion = result.autosuggestion;
            self.repaint_if_needed(screen);
        }
    }

    /// Called after the highlighting has been computed.
    pub fn highlight_complete(&mut self, result: HighlightResult, screen: ScreenState)
        requires
            old(self)@.wf(),
            result.text@ == old(self)@.command_line.text ==> result.colors@.len()
                == result.text@.len(),
        ensures
            final(self)@ == old(self)@.highlighted(result.text@, result.colors@, screen),
            final(self)@.wf(),
    {
        self.in_flight_highlight_request = Vec::new();
        if text_eq(&result.text, &self.command_line.text) {
            if self.is_repaint_needed(Some(&result.colors), screen) {
                self.command_line.set_colors(result.colors);
                self.layout_and_repaint(screen);
            }
        }
    }

    /// Highlight the command line in a super, plentiful way.
    pub fn super_highlight_me_plenty(&mut self)
        requires
            old(self)@.wf(),
        ensures
            final(self)@ == old(self)@.highlighting(),
            final(self)@.wf(),
    {
        if !self.conf.highlight_ok {
            return;
        }
        // Do nothing if this text is already in flight.
        if text_eq(&self.command_line.text, &self.in_flight_highlight_request) {
            return;
        }
        self.in_flight_highlight_request = copy_text(&self.command_line.text);
        let command_line = copy_text(&self.command_line.text);
        let position = self.command_line.position;
        self.queue(Action::Highlight { command_line, position });
    }

    /// Decide how to finish up any outstanding syntax highlighting, before execution.
    pub fn finish_highlighting_before_exec(&self) -> (r: FinalHighlight)
        ensures
            r == self@.final_highlight(),
    {
        // Early-out if highlighting is not OK.
        if !self.conf.highlight_ok {
            return FinalHighlight::Done;
        }
        // Decide if our current highlighting is OK. If not we will do a quick highlight without I/O.
        if self.in_flight_highlight_request.len() == 0 {
            // There is no in-flight highlight request. Two possibilities:
            // 1: The user hit return after highlighting finished, so current highlighting is correct.
            // 2: The user hit return before highlighting started, so current highlighting is stale.
            // We can distinguish these based on what we last rendered.
            if text_eq(&self.rendered_layout.text, &self.command_line.text) {
                FinalHighlight::Done
            } else {
                FinalHighlight::WithoutIo
            }
        } else if text_eq(&self.in_flight_highlight_request, &self.command_line.text) {
            // The user hit return while our in-flight highlight request was still processing the
            // text. Wait for its completion to run, but not forever.
            FinalHighlight::Wait
        } else {
            FinalHighlight::WithoutIo
        }
    }

    /// A helper that kicks off syntax highlighting, autosuggestion computing, and repaints.
    pub fn color_suggest_repaint_now(&mut self, screen: ScreenState)
        requires
            old(self)@.wf(),
        ensures
            final(self)@ == old(self)@.refreshed(screen),
            final(self)@.wf(),
    {
        if self.conf.inputfd == stdin_fileno() {
            self.update_autosuggestion();
            self.super_highlight_me_plenty();
        }
        self.repaint_if_needed(screen);
        self.flags.set(Flag::ForceExecPromptAndRepaint, false);
    }
}

} // verus!

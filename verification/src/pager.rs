//! The list of completions or history items below the command line, and its search field.

use crate::completion::{completions, opt_completion, Completion, CompletionView};
use crate::line::{EditableLine, LineView};
use crate::text::WString;
use vstd::prelude::*;

verus! {

#[derive(Clone, Copy, PartialEq, Eq, Structural, Debug)]
pub enum SelectionMotion {
    North,
    East,
    South,
    West,
    PageNorth,
    PageSouth,
    Next,
    Prev,
    Deselect,
}

/// Which completion is selected after the list was laid out, filtered or moved in.
pub struct PageSelection {
    pub index: Option<usize>,
    pub completion: Option<Completion>,
}

#[verifier::ext_equal]
pub struct SelectedView {
    pub index: Option<usize>,
    pub completion: Option<CompletionView>,
}

impl View for PageSelection {
    type V = SelectedView;

    open spec fn view(&self) -> SelectedView {
        SelectedView { index: self.index, completion: opt_completion(self.completion) }
    }
}

pub struct Pager {
    /// Everything that can be shown, whatever the search field says.
    pub completions: Vec<Completion>,
    /// The text before each completion.
    pub prefix: WString,
    pub highlight_prefix: bool,
    pub selected_completion_idx: Option<usize>,
    /// The completion that is selected among those that are shown.
    pub selected_completion: Option<Completion>,
    pub fully_disclosed: bool,
    /// How many rows are not shown yet.
    pub remaining_to_disclose: usize,
    pub search_field_shown: bool,
    pub search_field_line: EditableLine,
    /// Which items of the history are shown, where that is worth saying.
    pub extra_progress: Option<Progress>,
}

/// Which items of how many are shown.
#[derive(Clone, Copy, PartialEq, Eq, Structural, Debug)]
pub struct Progress {
    pub from: usize,
    pub to: usize,
    pub total: usize,
}

#[verifier::ext_equal]
pub struct PagerView {
    pub completions: Seq<CompletionView>,
    pub prefix: Seq<char>,
    pub highlight_prefix: bool,
    pub selected_idx: Option<usize>,
    pub selected: Option<CompletionView>,
    pub fully_disclosed: bool,
    pub remaining: int,
    pub search_field_shown: bool,
    pub search_field: LineView,
    pub progress: Option<Progress>,
}

impl View for Pager {
    type V = PagerView;

    open spec fn view(&self) -> PagerView {
        PagerView {
            completions: completions(self.completions@),
            prefix: self.prefix@,
            highlight_prefix: self.highlight_prefix,
            selected_idx: self.selected_completion_idx,
            selected: opt_completion(self.selected_completion),
            fully_disclosed: self.fully_disclosed,
            remaining: self.remaining_to_disclose as int,
            search_field_shown: self.search_field_shown,
            search_field: self.search_field_line@,
            progress: self.extra_progress,
        }
    }
}

impl PagerView {
    pub open spec fn empty() -> PagerView {
        PagerView {
            completions: Seq::empty(),
            prefix: Seq::empty(),
            highlight_prefix: false,
            selected_idx: None,
            selected: None,
            fully_disclosed: false,
            remaining: 0,
            search_field_shown: false,
            search_field: LineView::empty(),
            progress: None,
        }
    }

    pub open spec fn is_empty(self) -> bool {
        self.completions.len() == 0
    }

    pub open spec fn navigating(self) -> bool {
        self.selected_idx is Some
    }

    /// Nothing is shown. The text in the search field stays.
    pub open spec fn cleared(self) -> PagerView {
        PagerView { search_field: self.search_field, ..PagerView::empty() }
    }

    pub open spec fn with_selection(self, s: SelectedView) -> PagerView {
        PagerView { selected_idx: s.index, selected: s.completion, ..self }
    }

    pub open spec fn with_completions(self, list: Seq<CompletionView>, s: SelectedView) -> PagerView {
        PagerView { completions: list, ..self }.with_selection(s)
    }

    pub open spec fn with_prefix(self, prefix: Seq<char>, highlight: bool) -> PagerView {
        PagerView { prefix, highlight_prefix: highlight, ..self }
    }
}

impl Pager {
    pub fn new() -> (r: Pager)
        ensures
            r@ == PagerView::empty(),
    {
        let r = Pager {
            completions: Vec::new(),
            prefix: Vec::new(),
            highlight_prefix: false,
            selected_completion_idx: None,
            selected_completion: None,
            fully_disclosed: false,
            remaining_to_disclose: 0,
            search_field_shown: false,
            search_field_line: EditableLine::new(),
            extra_progress: None,
        };
        assert(r@.completions =~= Seq::empty());
        r
    }

    pub fn is_empty(&self) -> (r: bool)
        ensures
            r == self@.is_empty(),
    {
        self.completions.len() == 0
    }

    pub fn is_navigating_contents(&self) -> (r: bool)
        ensures
            r == self@.navigating(),
    {
        self.selected_completion_idx.is_some()
    }

    /// Show nothing.
    pub fn clear(&mut self)
        ensures
            final(self)@ == old(self)@.cleared(),
            final(self).search_field_line == old(self).search_field_line,
    {
        self.completions = Vec::new();
        self.prefix = Vec::new();
        self.highlight_prefix = false;
        self.selected_completion_idx = None;
        self.selected_completion = None;
        self.fully_disclosed = false;
        self.remaining_to_disclose = 0;
        self.search_field_shown = false;
        self.extra_progress = None;
        assert(self@.completions =~= Seq::empty());
    }

    /// Select a completion.
    pub fn select(&mut self, s: PageSelection)
        ensures
            final(self)@ == old(self)@.with_selection(s@),
            final(self).search_field_line == old(self).search_field_line,
    {
        self.selected_completion_idx = s.index;
        self.selected_completion = s.completion;
    }

    /// Show other completions.
    pub fn set_completions(&mut self, list: Vec<Completion>, s: PageSelection)
        ensures
            final(self)@ == old(self)@.with_completions(completions(list@), s@),
            final(self).search_field_line == old(self).search_field_line,
    {
        self.completions = list;
        self.select(s);
    }

    pub fn set_prefix(&mut self, prefix: WString, highlight: bool)
        ensures
            final(self)@ == old(self)@.with_prefix(prefix@, highlight),
            final(self).search_field_line == old(self).search_field_line,
    {
        self.prefix = prefix;
        self.highlight_prefix = highlight;
    }
}

} // verus!

//! Searching the history for the history pager, and filling it.

use crate::action::{Action, ActionView, HistoryPagerInvocation, HistoryPagerRequest};
use crate::completion::{completions, CompleteFlags, Completion, CompletionView};
use crate::data::{DataView, ReaderData};
use crate::pager::{PageSelection, PagerView, Progress, SelectedView, SelectionMotion};
use crate::paint::ScreenState;
use crate::search::SearchDirection;
use crate::text::{copy_text, extent, text_eq, texts, WString};
use std::ops::Range;
use vstd::prelude::*;

verus! {

/// How many items a page holds at least.
pub const MIN_PAGE_SIZE: i32 = 12;

/// The number of items on a page: half the screen, like we do for completions, without the search
/// line and the prompt.
pub open spec fn page_size(height: int) -> int {
    if height / 2 - 2 > MIN_PAGE_SIZE {
        height / 2 - 2
    } else {
        MIN_PAGE_SIZE as int
    }
}

pub fn history_page_size(height: i32) -> (n: usize)
    ensures
        n == page_size(height as int),
{
    let half: i32 = height / 2 - 2;
    if half > MIN_PAGE_SIZE {
        half as usize
    } else {
        MIN_PAGE_SIZE as usize
    }
}

/// Whether to try again with a subsequence search: there were no matches, and the user is not
/// intending for wildcard search.
pub fn wants_subsequence_search(found: bool, contains_wildcards: bool) -> (r: bool)
    ensures
        r == (!found && !contains_wildcards),
{
    !found && !contains_wildcards
}

/// How many matches to go forward first: when searching forward, to the element before the first
/// shown.
pub fn matches_to_skip(direction: SearchDirection, page_size: usize) -> (n: usize)
    ensures
        n == match direction {
            SearchDirection::Forward => page_size,
            SearchDirection::Backward => 0,
        },
{
    match direction {
        SearchDirection::Forward => page_size,
        SearchDirection::Backward => 0,
    }
}

/// What a search of the history found, going backwards from where it stood.
pub struct PageRun {
    /// The index before the first match.
    pub first_index: usize,
    /// The index of the first match.
    pub first_shown: usize,
    /// The matches, newest first.
    pub items: Vec<WString>,
    /// For each number of matches taken, up to the number of all, the index that the search has
    /// reached when it looks for the next one.
    pub indices: Vec<usize>,
}

impl PageRun {
    pub open spec fn wf(self) -> bool {
        self.indices@.len() == self.items@.len() + 1
    }
}

/// A page of the history pager.
pub struct HistoryPagerResult {
    pub matched_commands: Vec<Completion>,
    pub range: Range<usize>,
    pub first_shown: usize,
    pub motion: Option<SelectionMotion>,
}

#[verifier::ext_equal]
pub struct PageView {
    pub matched: Seq<CompletionView>,
    pub range: Range<int>,
    pub first_shown: int,
    pub motion: Option<SelectionMotion>,
}

impl View for HistoryPagerResult {
    type V = PageView;

    open spec fn view(&self) -> PageView {
        PageView {
            matched: completions(self.matched_commands@),
            range: extent(self.range),
            first_shown: self.first_shown as int,
            motion: self.motion,
        }
    }
}

/// What a search for a page leads to.
pub enum PageSearch {
    /// The page.
    Page(HistoryPagerResult),
    /// Nothing was found from there on: search forward from the oldest item.
    Again { direction: SearchDirection, motion: Option<SelectionMotion>, index: usize },
}

pub enum PageSearchView {
    Page(PageView),
    Again { direction: SearchDirection, motion: Option<SelectionMotion>, index: usize },
}

impl View for PageSearch {
    type V = PageSearchView;

    open spec fn view(&self) -> PageSearchView {
        match self {
            PageSearch::Page(p) => PageSearchView::Page(p@),
            PageSearch::Again { direction, motion, index } => PageSearchView::Again {
                direction: *direction,
                motion: *motion,
                index: *index,
            },
        }
    }
}

/// A history item as a completion: it replaces the line as it is.
pub open spec fn history_completion(item: Seq<char>) -> CompletionView {
    CompletionView {
        completion: item,
        description: Seq::empty(),
        flags: CompleteFlags {
            replaces_line: true,
            dont_escape: true,
            dont_sort: true,
            ..CompleteFlags::none()
        },
        rank: 0,
        exact_or_prefix: true,
    }
}

/// The outcome of a search for a page of `size` items.
pub open spec fn page_found(
    run: PageRun,
    size: int,
    motion: Option<SelectionMotion>,
    history_size: int,
) -> PageSearchView {
    let n = if run.items@.len() < size {
        run.items@.len() as int
    } else {
        size
    };
    let range = Range { start: run.first_index as int, end: run.indices@[n] as int };
    if n == 0 && range != (Range { start: 0int, end: history_size + 1 }) {
        PageSearchView::Again {
            direction: SearchDirection::Forward,
            motion: Some(SelectionMotion::Prev),
            index: (history_size + 1) as usize,
        }
    } else {
        PageSearchView::Page(
            PageView {
                matched: texts(run.items@).take(n).map_values(|s: Seq<char>| history_completion(s)),
                range,
                first_shown: run.first_shown as int,
                motion,
            },
        )
    }
}

/// Make a page of what a search of the history found.
pub fn history_pager_search(
    run: &PageRun,
    page_size: usize,
    motion: Option<SelectionMotion>,
    history_size: usize,
) -> (r: PageSearch)
    requires
        run.wf(),
        history_size < usize::MAX,
    ensures
        r@ == page_found(*run, page_size as int, motion, history_size as int),
{
    let mut list: Vec<Completion> = Vec::new();
    let mut n: usize = 0;
    let ghost all = texts(run.items@);
    while n < page_size && n < run.items.len()
        invariant
            n <= page_size,
            n <= run.items@.len(),
            all == texts(run.items@),
            completions(list@) =~= all.take(n as int).map_values(
                |s: Seq<char>| history_completion(s),
            ),
        decreases page_size - n,
    {
        let ghost before = list@;
        let c = Completion {
            completion: copy_text(&run.items[n]),
            description: Vec::new(),
            flags: CompleteFlags {
                no_space: false,
                replaces_token: false,
                replaces_line: true,
                dont_escape: true,
                dont_escape_tildes: false,
                keep_variable_override_prefix: false,
                variable_name: false,
                dont_sort: true,
            },
            rank: 0,
            exact_or_prefix: true,
        };
        assert(c@ == history_completion(all[n as int])) by {
            assert(c@.description =~= Seq::empty());
        }
        list.push(c);
        assert(completions(list@) =~= completions(before).push(c@));
        n += 1;
    }
    let first = run.first_index;
    let last = run.indices[n];
    if n == 0 && !(first == 0 && last == history_size + 1) {
        return PageSearch::Again {
            direction: SearchDirection::Forward,
            motion: Some(SelectionMotion::Prev),
            index: history_size + 1,
        };
    }
    PageSearch::Page(
        HistoryPagerResult {
            matched_commands: list,
            range: first..last,
            first_shown: run.first_shown,
            motion,
        },
    )
}

/// Which items the page shows, unless it shows all or none.
pub open spec fn page_progress(page: PageView, history_size: int) -> Option<Progress> {
    if page.matched.len() > 0 && page.range != (Range { start: 0int, end: history_size + 1 }) {
        Some(
            Progress {
                from: if page.range.start == 0 {
                    1
                } else {
                    page.first_shown as usize
                },
                to: (page.range.end - 1) as usize,
                total: history_size as usize,
            },
        )
    } else {
        None
    }
}

impl DataView {
    pub open spec fn page_filled(self, page: PageView, history_size: int) -> DataView {
        DataView {
            history_pager: Some(page.range),
            pager: PagerView {
                progress: page_progress(page, history_size),
                ..self.pager
            }.with_completions(page.matched, SelectedView { index: None, completion: None }),
            ..self
        }
    }

    /// A page that was searched for arrived. It is dropped if the search field says something else
    /// by now, or the pager was closed.
    pub open spec fn page_arrived(
        self,
        page: PageView,
        search_term: Seq<char>,
        request: HistoryPagerRequest,
        history_size: int,
    ) -> DataView {
        if search_term != self.pager.search_field.text || self.history_pager is None {
            self
        } else {
            let filled = self.page_filled(page, history_size);
            let selected = if request.why == HistoryPagerInvocation::Refresh {
                filled.queued(ActionView::SelectCompletion(request.old_pager_index))
            } else {
                filled
            };
            let moved = match page.motion {
                Some(motion) => selected.queued(ActionView::MoveSelection { motion, force: true }),
                None => selected,
            };
            moved.queued(ActionView::ShowHistoryPager)
        }
    }
}

impl ReaderData {
    /// Called after the history was searched for a page. `search_term` is what was searched for.
    pub fn history_page_ready(
        &mut self,
        result: HistoryPagerResult,
        search_term: &[char],
        request: HistoryPagerRequest,
        history_size: usize,
    )
        requires
            old(self)@.wf(),
            result.range.start < result.range.end,
            history_size < usize::MAX,
        ensures
            final(self)@ == old(self)@.page_arrived(
                result@,
                search_term@,
                request,
                history_size as int,
            ),
            final(self)@.wf(),
    {
        if !text_eq(search_term, &self.pager.search_field_line.text) {
            return; // Stale request.
        }
        if self.history_pager.is_none() {
            return; // Pager has been closed.
        }
        let motion = result.motion;
        self.fill_page(result, history_size);
        if request.why == HistoryPagerInvocation::Refresh {
            self.queue(Action::SelectCompletion(request.old_pager_index));
        }
        if let Some(motion) = motion {
            self.queue(Action::MoveSelection { motion, force: true });
        }
        self.queue(Action::ShowHistoryPager);
    }

    fn fill_page(&mut self, result: HistoryPagerResult, history_size: usize)
        requires
            old(self)@.wf(),
            result.range.start < result.range.end,
            history_size < usize::MAX,
        ensures
            final(self)@ == old(self)@.page_filled(result@, history_size as int),
            final(self)@.wf(),
    {
        let start = result.range.start;
        let end = result.range.end;
        let progress = if result.matched_commands.len() > 0 && !(start == 0 && end == history_size
            + 1) {
            Some(
                Progress {
                    from: if start == 0 {
                        1
                    } else {
                        result.first_shown
                    },
                    to: end - 1,
                    total: history_size,
                },
            )
        } else {
            None
        };
        assert(progress == page_progress(result@, history_size as int));
        self.history_pager = Some(start..end);
        self.pager.extra_progress = progress;
        self.pager.set_completions(
            result.matched_commands,
            PageSelection { index: None, completion: None },
        );
    }

    /// Show the history pager after it was filled and an item was selected.
    pub fn show_history_pager(&mut self, screen: ScreenState)
        requires
            old(self)@.wf(),
        ensures
            final(self)@ == old(self)@.highlighting().painted(screen, false),
            final(self)@.wf(),
    {
        self.super_highlight_me_plenty();
        self.layout_and_repaint(screen);
    }
}

} // verus!

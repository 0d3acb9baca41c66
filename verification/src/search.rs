//! Searching the history from the command line.
//!
//! Searches are done only when going backwards, since the previous results are saved. When the user
//! goes forward, the saved results are consulted, and going backwards consults them too up to the
//! oldest one, at which point searching commences.

use crate::text::{copy_text, extent, texts, WString};
use std::ops::Range;
use vstd::prelude::*;

verus! {

#[derive(Clone, Copy, PartialEq, Eq, Structural, Debug)]
pub enum SearchMode {
    /// No search is going on.
    Inactive,
    /// Searching by line.
    Line,
    /// Searching by prefix.
    Prefix,
    /// Searching by token.
    Token,
    /// Searching by the last token of each item.
    LastToken,
}

#[derive(Clone, Copy, PartialEq, Eq, Structural, Debug)]
pub enum SearchDirection {
    Forward,
    Backward,
}

/// A result of the search: the text that it puts into the command line, and where in the command
/// line the search string is then found.
pub struct SearchMatch {
    pub text: WString,
    pub range: Range<usize>,
}

#[verifier::ext_equal]
pub struct MatchView {
    pub text: Seq<char>,
    pub range: Range<int>,
}

impl View for SearchMatch {
    type V = MatchView;

    open spec fn view(&self) -> MatchView {
        MatchView { text: self.text@, range: extent(self.range) }
    }
}

impl MatchView {
    pub open spec fn ordered(self) -> bool {
        self.range.start <= self.range.end
    }
}

impl SearchMatch {
    pub fn copy(&self) -> (r: SearchMatch)
        ensures
            r@ == self@,
    {
        SearchMatch { text: copy_text(&self.text), range: self.range.start..self.range.end }
    }
}

pub open spec fn found(s: Seq<SearchMatch>) -> Seq<MatchView> {
    s.map_values(|m: SearchMatch| m@)
}

pub struct ReaderHistorySearch {
    pub mode: SearchMode,
    /// The text that is searched for.
    pub search_string: WString,
    /// Where the token that is searched for begins in the command line.
    pub token_offset: usize,
    /// The results so far; the first one is what was there when the search began.
    pub matches: Vec<SearchMatch>,
    /// The result that is shown.
    pub match_index: usize,
    /// Results that are not shown.
    pub skips: Vec<WString>,
}

#[verifier::ext_equal]
pub struct SearchView {
    pub mode: SearchMode,
    pub search_string: Seq<char>,
    pub token_offset: int,
    pub matches: Seq<MatchView>,
    pub index: int,
    pub skips: Seq<Seq<char>>,
}

impl View for ReaderHistorySearch {
    type V = SearchView;

    open spec fn view(&self) -> SearchView {
        SearchView {
            mode: self.mode,
            search_string: self.search_string@,
            token_offset: self.token_offset as int,
            matches: found(self.matches@),
            index: self.match_index as int,
            skips: texts(self.skips@),
        }
    }
}

impl SearchView {
    pub open spec fn inactive() -> SearchView {
        SearchView {
            mode: SearchMode::Inactive,
            search_string: Seq::empty(),
            token_offset: 0,
            matches: Seq::empty(),
            index: 0,
            skips: Seq::empty(),
        }
    }

    pub open spec fn wf(self) -> bool {
        if self.mode == SearchMode::Inactive {
            self == SearchView::inactive()
        } else {
            &&& 0 <= self.index < self.matches.len()
            &&& forall|i: int|
                #![trigger self.matches[i]]
                0 <= i < self.matches.len() ==> self.matches[i].ordered()
        }
    }

    pub open spec fn active(self) -> bool {
        self.mode != SearchMode::Inactive
    }

    pub open spec fn at_present(self) -> bool {
        self.index == 0
    }

    pub open spec fn by_token(self) -> bool {
        self.mode == SearchMode::Token || self.mode == SearchMode::LastToken
    }

    pub open spec fn current(self) -> MatchView {
        self.matches[self.index]
    }

    /// What is highlighted in the command line.
    pub open spec fn range_if_active(self) -> Option<Range<int>> {
        if self.active() && !self.at_present() {
            Some(self.current().range)
        } else {
            None
        }
    }

    /// A search that begins with `text`, found at `offset` in the command line.
    pub open spec fn begun(text: Seq<char>, mode: SearchMode, offset: int) -> SearchView {
        SearchView {
            mode,
            search_string: text,
            token_offset: offset,
            matches: seq![
                MatchView { text, range: Range { start: offset, end: offset + text.len() } },
            ],
            index: 0,
            skips: seq![text],
        }
    }

    pub open spec fn skipping(self, text: Seq<char>) -> SearchView {
        SearchView { skips: self.skips.push(text), ..self }
    }

    /// Whether a result that is saved already is not shown yet.
    pub open spec fn has_older(self) -> bool {
        self.index + 1 < self.matches.len()
    }

    /// One result back; `next` is the next one that searching finds.
    pub open spec fn moved_back(self, next: Option<MatchView>) -> SearchView {
        if self.has_older() {
            SearchView { index: self.index + 1, ..self }
        } else if next is Some {
            SearchView {
                index: self.index + 1,
                matches: self.matches.push(next.unwrap()),
                ..self
            }
        } else {
            self
        }
    }

    pub open spec fn can_move(self, dir: SearchDirection, next: Option<MatchView>) -> bool {
        match dir {
            SearchDirection::Forward => self.index > 0,
            SearchDirection::Backward => self.has_older() || next is Some,
        }
    }

    pub open spec fn moved(self, dir: SearchDirection, next: Option<MatchView>) -> SearchView {
        match dir {
            SearchDirection::Forward => if self.index > 0 {
                SearchView { index: self.index - 1, ..self }
            } else {
                self
            },
            SearchDirection::Backward => self.moved_back(next),
        }
    }

    /// The oldest result is shown; `rest` are all that searching still finds.
    pub open spec fn at_oldest(self, rest: Seq<MatchView>) -> SearchView {
        let all = self.matches + rest;
        SearchView { matches: all, index: all.len() - 1, ..self }
    }

    pub open spec fn at_newest(self) -> SearchView {
        SearchView { index: 0, ..self }
    }

    /// The result that is shown is dropped, and the next older one is shown if there is one.
    pub open spec fn deleted(self, next: Option<MatchView>) -> SearchView {
        SearchView {
            matches: self.matches.remove(self.index),
            index: self.index - 1,
            ..self
        }.moved_back(next)
    }
}

pub open spec fn opt_match(m: Option<SearchMatch>) -> Option<MatchView> {
    match m {
        Some(m) => Some(m@),
        None => None,
    }
}

impl ReaderHistorySearch {
    pub fn new() -> (r: ReaderHistorySearch)
        ensures
            r@ == SearchView::inactive(),
            r@.wf(),
    {
        let r = ReaderHistorySearch {
            mode: SearchMode::Inactive,
            search_string: Vec::new(),
            token_offset: 0,
            matches: Vec::new(),
            match_index: 0,
            skips: Vec::new(),
        };
        assert(r@.matches =~= Seq::empty());
        assert(r@.skips =~= Seq::empty());
        r
    }

    pub fn active(&self) -> (r: bool)
        ensures
            r == self@.active(),
    {
        self.mode != SearchMode::Inactive
    }

    /// What was there when the search began is shown, or there is no search.
    pub fn is_at_present(&self) -> (r: bool)
        ensures
            r == self@.at_present(),
    {
        self.match_index == 0
    }

    pub fn by_token(&self) -> (r: bool)
        ensures
            r == self@.by_token(),
    {
        self.mode == SearchMode::Token || self.mode == SearchMode::LastToken
    }

    /// End the search.
    pub fn reset(&mut self)
        ensures
            final(self)@ == SearchView::inactive(),
            final(self)@.wf(),
    {
        *self = ReaderHistorySearch::new();
    }

    /// Begin a search.
    pub fn reset_to_mode(&mut self, text: WString, mode: SearchMode, token_offset: usize)
        requires
            mode != SearchMode::Inactive,
            token_offset + text@.len() <= usize::MAX,
        ensures
            final(self)@ == SearchView::begun(text@, mode, token_offset as int),
            final(self)@.wf(),
    {
        let mut matches: Vec<SearchMatch> = Vec::new();
        matches.push(
            SearchMatch {
                text: copy_text(&text),
                range: token_offset..token_offset + text.len(),
            },
        );
        let mut skips: Vec<WString> = Vec::new();
        skips.push(copy_text(&text));
        *self = ReaderHistorySearch {
            mode,
            search_string: text,
            token_offset,
            matches,
            match_index: 0,
            skips,
        };
        proof {
            let b = SearchView::begun(text@, mode, token_offset as int);
            assert(self@.matches =~= b.matches);
            assert(self@.skips =~= b.skips);
        }
    }

    /// Do not show the text as a result.
    pub fn add_skip(&mut self, text: WString)
        ensures
            final(self)@ == old(self)@.skipping(text@),
            old(self)@.wf() && old(self)@.active() ==> final(self)@.wf(),
    {
        let ghost before = self.skips@;
        self.skips.push(text);
        assert(texts(before.push(text)) =~= texts(before).push(text@));
    }

    /// The text of the result that is shown.
    pub fn current_result(&self) -> (r: WString)
        requires
            self@.wf(),
            self@.active(),
        ensures
            r@ == self@.current().text,
    {
        assert(self@.matches[self@.index] == self.matches@[self.match_index as int]@);
        copy_text(&self.matches[self.match_index].text)
    }

    /// Where the search string is found in the command line.
    pub fn search_result_range(&self) -> (r: Range<usize>)
        requires
            self@.wf(),
            self@.active(),
        ensures
            extent(r) == self@.current().range,
    {
        assert(self@.matches[self@.index] == self.matches@[self.match_index as int]@);
        let m = &self.matches[self.match_index];
        m.range.start..m.range.end
    }

    pub fn search_range_if_active(&self) -> (r: Option<Range<usize>>)
        requires
            self@.wf(),
        ensures
            crate::text::opt_extent(r) == self@.range_if_active(),
    {
        if self.active() && !self.is_at_present() {
            Some(self.search_result_range())
        } else {
            None
        }
    }

    /// Show the next result in the given direction. Return false if there is none. `next` is the
    /// next result that searching finds behind those that are saved.
    pub fn move_in_direction(&mut self, dir: SearchDirection, next: Option<SearchMatch>) -> (r: bool)
        requires
            old(self)@.wf(),
            old(self)@.active(),
            opt_match(next) matches Some(m) ==> m.ordered(),
        ensures
            r == old(self)@.can_move(dir, opt_match(next)),
            final(self)@ == old(self)@.moved(dir, opt_match(next)),
            final(self)@.wf(),
            final(self)@.active(),
    {
        match dir {
            SearchDirection::Forward => {
                if self.match_index > 0 {
                    self.match_index -= 1;
                    true
                } else {
                    false
                }
            },
            SearchDirection::Backward => self.move_backwards(next),
        }
    }

    fn move_backwards(&mut self, next: Option<SearchMatch>) -> (r: bool)
        requires
            old(self)@.wf(),
            old(self)@.active(),
            opt_match(next) matches Some(m) ==> m.ordered(),
        ensures
            r == (old(self)@.has_older() || next is Some),
            final(self)@ == old(self)@.moved_back(opt_match(next)),
            final(self)@.wf(),
            final(self)@.active(),
    {
        let n: usize = self.matches.len();
        if self.match_index + 1 < n {
            self.match_index += 1;
            return true;
        }
        match next {
            Some(m) => {
                let ghost before = self.matches@;
                self.matches.push(m);
                assert(found(before.push(m)) =~= found(before).push(m@));
                let n: usize = self.matches.len();
                assert(self.match_index + 1 < n);
                self.match_index += 1;
                true
            },
            None => false,
        }
    }

    /// Show the oldest result. `rest` are all that searching finds behind those that are saved.
    pub fn go_to_oldest(&mut self, rest: Vec<SearchMatch>)
        requires
            old(self)@.wf(),
            old(self)@.active(),
            forall|i: int|
                #![trigger found(rest@)[i]]
                0 <= i < rest@.len() ==> found(rest@)[i].ordered(),
        ensures
            final(self)@ == old(self)@.at_oldest(found(rest@)),
            final(self)@.wf(),
            final(self)@.active(),
    {
        let ghost before = self.matches@;
        let mut rest = rest;
        let ghost more = rest@;
        self.matches.append(&mut rest);
        assert(found(self.matches@) =~= found(before) + found(more));
        assert forall|i: int| 0 <= i < found(self.matches@).len() implies (
        #[trigger] found(self.matches@)[i]).ordered() by {
            if i < before.len() {
                assert(found(self.matches@)[i] == found(before)[i]);
            } else {
                assert(found(self.matches@)[i] == found(more)[i - before.len()]);
            }
        }
        self.match_index = self.matches.len() - 1;
    }

    /// Show what was there when the search began.
    pub fn go_to_present(&mut self)
        requires
            old(self)@.wf(),
        ensures
            final(self)@ == old(self)@.at_newest(),
            final(self)@.wf(),
    {
        self.match_index = 0;
    }

    /// The result that is shown was deleted from the history. `next` is the next result that
    /// searching finds.
    pub fn handle_deletion(&mut self, next: Option<SearchMatch>)
        requires
            old(self)@.wf(),
            old(self)@.active(),
            !old(self)@.at_present(),
            opt_match(next) matches Some(m) ==> m.ordered(),
        ensures
            final(self)@ == old(self)@.deleted(opt_match(next)),
            final(self)@.wf(),
            final(self)@.active(),
    {
        let ghost before = self.matches@;
        let _ = self.matches.remove(self.match_index);
        assert(found(self.matches@) =~= found(before).remove(self.match_index as int));
        assert forall|i: int| 0 <= i < found(self.matches@).len() implies (
        #[trigger] found(self.matches@)[i]).ordered() by {
            let k = if i < self.match_index {
                i
            } else {
                i + 1
            };
            assert(found(self.matches@)[i] == found(before)[k]);
        }
        self.match_index -= 1;
        let _ = self.move_backwards(next);
    }
}

/// Going back and then forward shows the result that was shown before, and keeps what was found.
pub proof fn law_forward_undoes_backward(s: SearchView, next: Option<MatchView>)
    requires
        s.wf(),
        s.active(),
        s.can_move(SearchDirection::Backward, next),
    ensures
        ({
            let back = s.moved(SearchDirection::Backward, next);
            let again = back.moved(SearchDirection::Forward, None);
            &&& again.index == s.index
            &&& again.current() == s.current()
            &&& s.matches.is_prefix_of(again.matches)
        }),
{
    let back = s.moved(SearchDirection::Backward, next);
    assert(s.matches =~= back.matches.subrange(0, s.matches.len() as int));
}

/// Results that are saved are shown again without searching: going forward and then back gives the
/// same state whatever searching would find.
pub proof fn law_saved_results_are_reused(s: SearchView, next: Option<MatchView>)
    requires
        s.wf(),
        s.active(),
        s.can_move(SearchDirection::Forward, None),
    ensures
        s.moved(SearchDirection::Forward, None).moved(SearchDirection::Backward, next) == s,
{
}

} // verus!

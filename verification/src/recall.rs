//! The commands that bring back items from the history.

use crate::action::{Action, ActionView, HistoryPagerInvocation};
use crate::data::{DataView, EditableLineTag, ReaderData, TransientEdit};
use crate::edit::lemma_whole_line_replaced;
use crate::flags::Flag;
use crate::pager::{PagerView, SelectionMotion};
use crate::paint::ScreenState;
use crate::search::{
    found, opt_match, MatchView, SearchDirection, SearchMatch, SearchMode, SearchView,
};
use crate::text::{
    contains_char, copy_text, extent, inside, line_at_cursor, line_range, part, subtext, wide,
    WString,
};
use std::ops::Range;
use vstd::prelude::*;

verus! {

impl DataView {
    /// A search begun where one of another kind was not under way. Searching by line skips the
    /// autosuggestion, which is on the screen already.
    pub open spec fn search_prepared(
        self,
        mode: SearchMode,
        token: Range<int>,
        suggestion_truncated: bool,
    ) -> DataView {
        let text = self.command_line.text;
        if !self.search.at_present() || mode == self.search.mode {
            self
        } else if mode == SearchMode::Token || mode == SearchMode::LastToken {
            DataView { search: SearchView::begun(part(text, token), mode, token.start), ..self }
        } else {
            let begun = SearchView::begun(text, mode, 0);
            DataView {
                search: if self.autosuggestion.text.len() > 0 && !suggestion_truncated && mode
                    != SearchMode::Prefix {
                    begun.skipping(self.autosuggestion.text)
                } else {
                    begun
                },
                ..self
            }
        }
    }

    /// Where the result of the search can be put into the command line.
    pub open spec fn result_fits(self, token: Range<int>) -> bool {
        &&& !self.search.at_present() && self.search.by_token() ==> {
            let line = if self.active_tag() == EditableLineTag::Commandline && self.transient_edit
                == Some(TransientEdit::HistorySearch) {
                self.command_line.undone()
            } else {
                self.active_line()
            };
            inside(token, line.text.len() as int)
        }
        &&& !self.search.at_present() && self.search.mode == SearchMode::Prefix ==> {
            self.search.search_string.len() <= self.search.current().text.len()
        }
    }

    /// The history searched. Where nothing is found, what was searched for flashes.
    pub open spec fn history_searched(
        self,
        mode: SearchMode,
        dir: SearchDirection,
        a: SearchAnswersView,
        screen: ScreenState,
    ) -> DataView {
        let ready = self.search_prepared(mode, a.token, a.suggestion_truncated);
        let next = DataView { search: ready.search.moved(dir, a.next), ..ready };
        if ready.search.can_move(dir, a.next) {
            next.showing_search_result(a.result_token)
        } else {
            let r = next.search.current().range;
            let dark = next.flashing(
                if r.start < r.end {
                    r
                } else {
                    Range { start: 0, end: next.command_line.text.len() as int }
                },
                screen,
            );
            if self.search.active() {
                dark
            } else {
                DataView { search: SearchView::inactive(), ..dark }
            }
        }
    }

    /// The oldest or the newest result shown, or the other end of the page.
    pub open spec fn history_end_reached(
        self,
        oldest: bool,
        rest: Seq<MatchView>,
        token: Range<int>,
    ) -> DataView {
        if self.navigating() {
            self.selecting(
                if oldest {
                    SelectionMotion::PageNorth
                } else {
                    SelectionMotion::PageSouth
                },
            )
        } else if self.search.active() {
            DataView {
                search: if oldest {
                    self.search.at_oldest(rest)
                } else {
                    self.search.at_newest()
                },
                ..self
            }.showing_search_result(token)
        } else {
            self
        }
    }

    /// The item that is shown deleted from the history: the result of the search, the suggestion,
    /// or the selection in the history pager.
    pub open spec fn history_item_deleted(
        self,
        next: Option<MatchView>,
        token: Range<int>,
        screen: ScreenState,
    ) -> DataView {
        let searching = !self.search.at_present();
        let noted = self.queued(ActionView::FunctionStatus(true));
        if searching || self.at_suggestion() {
            if self.at_suggestion() && !self.autosuggestion.is_whole {
                noted.with_flag(Flag::FlashAutosuggestion, true).flashing(
                    Range { start: 0, end: 0 },
                    screen,
                )
            } else if searching {
                DataView {
                    search: self.search.deleted(next),
                    ..noted.queued(ActionView::RemoveFromHistory(self.search.current().text))
                }.showing_search_result(token)
            } else {
                DataView {
                    autosuggestion: self.autosuggestion.cleared(),
                    ..noted.queued(ActionView::RemoveFromHistory(self.autosuggestion.text))
                }
            }
        } else {
            self.selected_item_deleted()
        }
    }

    /// The item that is selected in the history pager deleted.
    pub open spec fn selected_item_deleted(self) -> DataView {
        let noted = self.queued(ActionView::FunctionStatus(true));
        if self.history_pager is None {
            self.queued(ActionView::FunctionStatus(false))
        } else {
            match self.pager.selected {
                Some(c) => noted.queued(ActionView::RemoveFromHistory(c.completion)).filling_pager(
                    HistoryPagerInvocation::Refresh,
                    None,
                    SearchDirection::Backward,
                ),
                None => noted,
            }
        }
    }

    /// The search field toggled; in the history pager, newer items shown.
    pub open spec fn pager_search_toggled(self, screen: ScreenState) -> DataView {
        match self.history_pager {
            Some(r) => if r.start == 0 {
                self.flashing(
                    Range { start: 0, end: self.command_line.text.len() as int },
                    screen,
                )
            } else {
                self.filling_pager(
                    HistoryPagerInvocation::Advance,
                    Some(SelectionMotion::Next),
                    SearchDirection::Forward,
                )
            },
            None => if self.pager.is_empty() {
                self
            } else {
                let shown = !self.pager.search_field_shown;
                let next = DataView {
                    pager: PagerView {
                        search_field_shown: shown,
                        fully_disclosed: true,
                        ..self.pager
                    },
                    ..self
                };
                if shown && !next.navigating() {
                    next.selecting(SelectionMotion::South)
                } else {
                    next
                }
            },
        }
    }

    /// What the history pager searches for at first: what was searched for already, or else the
    /// command at the cursor.
    pub open spec fn pager_needle(self, cmdsub: Range<int>) -> Seq<char> {
        let text = self.command_line.text;
        if !part(text, cmdsub).contains('\n') {
            part(text, cmdsub)
        } else {
            part(text, line_range(text, self.command_line.position))
        }
    }

    pub open spec fn reuses_search_string(self) -> bool {
        self.search.active() && self.search.search_string.len() > 0
    }

    /// The history pager opened, or older items shown in it. `escaped` is the needle with its
    /// wildcards escaped.
    pub open spec fn history_pager_opened(
        self,
        history_size: int,
        prefix: Seq<char>,
        escaped: Seq<char>,
        screen: ScreenState,
    ) -> DataView {
        match self.history_pager {
            Some(r) => if r.end > history_size {
                self.flashing(
                    Range { start: 0, end: self.command_line.text.len() as int },
                    screen,
                )
            } else {
                self.filling_pager(
                    HistoryPagerInvocation::Advance,
                    Some(SelectionMotion::Next),
                    SearchDirection::Backward,
                )
            },
            None => DataView {
                cycle_command_line: self.command_line.text,
                cycle_cursor_pos: self.command_line.position,
                history_pager: Some(Range { start: 0, end: 1 }),
                pager: PagerView { search_field_shown: true, ..self.pager }.with_prefix(
                    prefix,
                    false,
                ),
                ..self
            }.inserted(
                EditableLineTag::SearchField,
                if self.reuses_search_string() {
                    self.search.search_string
                } else {
                    escaped
                },
            ),
        }
    }
}

/// What the shell knows for a history search.
pub struct SearchAnswers {
    /// The extent of the token at the cursor of the command line.
    pub token: Range<usize>,
    /// The extent of the token that the result replaces.
    pub result_token: Range<usize>,
    /// The next result that searching finds.
    pub next: Option<SearchMatch>,
    /// The autosuggestion is not shown in full.
    pub suggestion_truncated: bool,
}

#[verifier::ext_equal]
pub struct SearchAnswersView {
    pub token: Range<int>,
    pub result_token: Range<int>,
    pub next: Option<MatchView>,
    pub suggestion_truncated: bool,
}

impl View for SearchAnswers {
    type V = SearchAnswersView;

    open spec fn view(&self) -> SearchAnswersView {
        SearchAnswersView {
            token: extent(self.token),
            result_token: extent(self.result_token),
            next: opt_match(self.next),
            suggestion_truncated: self.suggestion_truncated,
        }
    }
}

impl DataView {
    /// The answers fit a search of the given kind.
    pub open spec fn searchable(
        self,
        mode: SearchMode,
        dir: SearchDirection,
        a: SearchAnswersView,
    ) -> bool {
        let ready = self.search_prepared(mode, a.token, a.suggestion_truncated);
        let next = DataView { search: ready.search.moved(dir, a.next), ..ready };
        &&& mode != SearchMode::Inactive
        &&& inside(a.token, self.command_line.text.len() as int)
        &&& a.next matches Some(m) ==> m.ordered()
        &&& next.result_fits(a.result_token)
    }
}

impl ReaderData {
    /// Apply the history search to the command line. `token` is the extent of the token at the
    /// cursor, which a search by token replaces.
    pub fn update_command_line_from_history_search(&mut self, token: Range<usize>)
        requires
            old(self)@.wf(),
            old(self)@.search.active(),
            old(self)@.result_fits(extent(token)),
        ensures
            final(self)@ == old(self)@.showing_search_result(extent(token)),
            final(self)@.wf(),
    {
        self.drop_transient_edit(TransientEdit::HistorySearch);
        if !self.history_search.is_at_present() {
            self.put_search_result(token);
        }
        self.update_buff_pos(EditableLineTag::Commandline, None);
    }

    fn put_search_result(&mut self, token: Range<usize>)
        requires
            old(self)@.wf(),
            old(self)@.search.active(),
            old(self)@.search.by_token() ==> inside(
                extent(token),
                old(self)@.active_line().text.len() as int,
            ),
            old(self)@.search.mode == SearchMode::Prefix ==> old(self)@.search.search_string.len()
                <= old(self)@.search.current().text.len(),
        ensures
            final(self)@ == old(self)@.search_result_put(extent(token)),
            final(self)@.wf(),
    {
        let new_text = self.history_search.current_result();
        if self.history_search.by_token() {
            self.replace_current_token(new_text, token);
        } else {
            let n = self.command_line.len();
            proof {
                lemma_whole_line_replaced(self@, EditableLineTag::Commandline, new_text@);
            }
            self.replace_substring(EditableLineTag::Commandline, 0..n, new_text);
            if self.history_search.mode == SearchMode::Prefix
                && self.history_search.search_string.len() > 0 {
                let n = self.history_search.search_string.len();
                self.command_line.set_position(n);
            }
        }
        self.command_line_transient_edit = Some(TransientEdit::HistorySearch);
    }

    fn replace_current_token(&mut self, new_token: WString, token: Range<usize>)
        requires
            old(self)@.wf(),
            inside(extent(token), old(self)@.active_line().text.len() as int),
        ensures
            final(self)@ == old(self)@.replaced(
                old(self)@.active_tag(),
                extent(token),
                new_token@,
            ),
            final(self)@.wf(),
    {
        let elt = self.active_edit_line_tag();
        self.replace_substring(elt, token, new_token);
    }

    fn prepare_search(&mut self, mode: SearchMode, token: &Range<usize>, suggestion_truncated: bool)
        requires
            old(self)@.wf(),
            mode != SearchMode::Inactive,
            inside(extent(*token), old(self)@.command_line.text.len() as int),
        ensures
            final(self)@ == old(self)@.search_prepared(mode, extent(*token), suggestion_truncated),
            final(self)@.wf(),
            final(self)@.search.active(),
    {
        if self.history_search.is_at_present() && mode != self.history_search.mode {
            if mode == SearchMode::Token || mode == SearchMode::LastToken {
                // Searching by token.
                let text = subtext(&self.command_line.text, token.start, token.end);
                self.history_search.reset_to_mode(text, mode, token.start);
            } else {
                // Searching by line.
                let text = copy_text(&self.command_line.text);
                self.history_search.reset_to_mode(text, mode, 0);
                // Skip the autosuggestion in the history unless it was truncated.
                if !self.autosuggestion.is_empty() && !suggestion_truncated && mode
                    != SearchMode::Prefix {
                    let suggest = copy_text(&self.autosuggestion.text);
                    self.history_search.add_skip(suggest);
                }
            }
        }
    }

    /// Search the history for the command line or for the token at the cursor.
    pub fn search_history(
        &mut self,
        mode: SearchMode,
        dir: SearchDirection,
        a: SearchAnswers,
        screen: ScreenState,
    )
        requires
            old(self)@.wf(),
            old(self)@.searchable(mode, dir, a@),
        ensures
            final(self)@ == old(self)@.history_searched(mode, dir, a@, screen),
            final(self)@.wf(),
    {
        let was_active_before = self.history_search.active();
        self.prepare_search(mode, &a.token, a.suggestion_truncated);
        let found = self.history_search.move_in_direction(dir, a.next);
        if found {
            self.update_command_line_from_history_search(a.result_token);
            return;
        }
        // Signal that we've found nothing
        proof {
            assert(self@.search.matches[self@.search.index].ordered());
        }
        let result_range = self.history_search.search_result_range();
        let n = self.command_line.len();
        let flash_range = if result_range.start < result_range.end {
            result_range
        } else {
            0..n
        };
        self.flash(flash_range, screen);
        if !was_active_before {
            self.history_search.reset();
        }
    }

    /// Go to the oldest or the newest result of the history search. `rest` are the results that
    /// searching still finds.
    pub fn go_to_end_of_history(
        &mut self,
        oldest: bool,
        rest: Vec<SearchMatch>,
        token: Range<usize>,
    )
        requires
            old(self)@.wf(),
            forall|i: int|
                #![trigger found(rest@)[i]]
                0 <= i < rest@.len() ==> found(rest@)[i].ordered(),
            !old(self)@.navigating() && old(self)@.search.active() ==> (DataView {
                search: if oldest {
                    old(self)@.search.at_oldest(found(rest@))
                } else {
                    old(self)@.search.at_newest()
                },
                ..old(self)@
            }).result_fits(extent(token)),
        ensures
            final(self)@ == old(self)@.history_end_reached(oldest, found(rest@), extent(token)),
            final(self)@.wf(),
    {
        if self.is_navigating_pager_contents() {
            self.select_completion_in_direction(
                if oldest {
                    SelectionMotion::PageNorth
                } else {
                    SelectionMotion::PageSouth
                },
            );
        } else if self.history_search.active() {
            if oldest {
                self.history_search.go_to_oldest(rest);
            } else {
                self.history_search.go_to_present();
            }
            self.update_command_line_from_history_search(token);
        }
    }

    /// Delete the item that is shown from the history.
    pub fn delete_history_item(
        &mut self,
        next: Option<SearchMatch>,
        token: Range<usize>,
        screen: ScreenState,
    )
        requires
            old(self)@.wf(),
            opt_match(next) matches Some(m) ==> m.ordered(),
            !old(self)@.search.at_present() ==> (DataView {
                search: old(self)@.search.deleted(opt_match(next)),
                ..old(self)@
            }).result_fits(extent(token)),
        ensures
            final(self)@ == old(self)@.history_item_deleted(
                opt_match(next),
                extent(token),
                screen,
            ),
            final(self)@.wf(),
    {
        // Also applies to ordinary history search.
        let is_history_search = !self.history_search.is_at_present();
        let is_autosuggestion = self.is_at_autosuggestion();
        if is_history_search || is_autosuggestion {
            self.set_function_status(true);
            if is_autosuggestion && !self.autosuggestion.is_whole_item_from_history {
                self.flags.set(Flag::FlashAutosuggestion, true);
                self.flash(0..0, screen);
                return;
            }
            if is_history_search {
                self.delete_search_result(next, token);
            } else {
                let item = copy_text(&self.autosuggestion.text);
                self.queue(Action::RemoveFromHistory(item));
                self.autosuggestion.clear();
            }
            return;
        }
        self.delete_selected_item();
    }

    fn delete_search_result(&mut self, next: Option<SearchMatch>, token: Range<usize>)
        requires
            old(self)@.wf(),
            !old(self)@.search.at_present(),
            opt_match(next) matches Some(m) ==> m.ordered(),
            (DataView {
                search: old(self)@.search.deleted(opt_match(next)),
                ..old(self)@
            }).result_fits(extent(token)),
        ensures
            final(self)@ == (DataView {
                search: old(self)@.search.deleted(opt_match(next)),
                ..old(self)@.queued(ActionView::RemoveFromHistory(old(self)@.search.current().text))
            }).showing_search_result(extent(token)),
            final(self)@.wf(),
    {
        let item = self.history_search.current_result();
        self.queue(Action::RemoveFromHistory(item));
        self.history_search.handle_deletion(next);
        self.update_command_line_from_history_search(token);
    }

    fn delete_selected_item(&mut self)
        requires
            old(self)@.wf(),
        ensures
            final(self)@ == old(self)@.selected_item_deleted(),
            final(self)@.wf(),
    {
        if self.history_pager.is_none() {
            self.set_function_status(false);
            return;
        }
        self.set_function_status(true);
        let selected = match &self.pager.selected_completion {
            Some(c) => Some(copy_text(&c.completion)),
            None => None,
        };
        if let Some(item) = selected {
            self.queue(Action::RemoveFromHistory(item));
            self.fill_history_pager(
                HistoryPagerInvocation::Refresh,
                None,
                SearchDirection::Backward,
            );
        }
    }

    /// Toggle the search field of the pager, or show newer items in the history pager.
    pub fn toggle_pager_search(&mut self, screen: ScreenState)
        requires
            old(self)@.wf(),
        ensures
            final(self)@ == old(self)@.pager_search_toggled(screen),
            final(self)@.wf(),
    {
        let shown_from = match &self.history_pager {
            Some(r) => Some(r.start),
            None => None,
        };
        if let Some(start) = shown_from {
            if start == 0 {
                let n = self.command_line.len();
                self.flash(0..n, screen);
                return;
            }
            self.fill_history_pager(
                HistoryPagerInvocation::Advance,
                Some(SelectionMotion::Next),
                SearchDirection::Forward,
            );
            return;
        }
        if !self.pager.is_empty() {
            // Toggle search, and begin navigating if we are now searching.
            let shown = !self.pager.search_field_shown;
            self.pager.search_field_shown = shown;
            self.pager.fully_disclosed = true;
            if shown && !self.is_navigating_pager_contents() {
                self.select_completion_in_direction(SelectionMotion::South);
            }
        }
    }

    /// What the history pager searches for when it is opened, before wildcards are escaped, unless
    /// it goes on with a search that is under way.
    pub fn history_pager_needle(&self, cmdsub: Range<usize>) -> (r: WString)
        requires
            self@.wf(),
            inside(extent(cmdsub), self@.command_line.text.len() as int),
        ensures
            r@ == self@.pager_needle(extent(cmdsub)),
    {
        let text = &self.command_line.text;
        let cmdsub = subtext(text, cmdsub.start, cmdsub.end);
        if !contains_char(&cmdsub, '\n') {
            cmdsub
        } else {
            line_at_cursor(text, self.command_line.position)
        }
    }

    /// Open the history pager, or show older items in it. `escaped` is what it searches for, with
    /// its wildcards escaped.
    pub fn open_history_pager(
        &mut self,
        history_size: usize,
        prefix: WString,
        escaped: &[char],
        screen: ScreenState,
    )
        requires
            old(self)@.wf(),
        ensures
            final(self)@ == old(self)@.history_pager_opened(
                history_size as int,
                prefix@,
                escaped@,
                screen,
            ),
            final(self)@.wf(),
    {
        let shown_to = match &self.history_pager {
            Some(r) => Some(r.end),
            None => None,
        };
        if let Some(end) = shown_to {
            if end > history_size {
                let n = self.command_line.len();
                self.flash(0..n, screen);
                return;
            }
            self.fill_history_pager(
                HistoryPagerInvocation::Advance,
                Some(SelectionMotion::Next),
                SearchDirection::Backward,
            );
            return;
        }
        // Record our cycle_command_line.
        self.cycle_command_line = copy_text(&self.command_line.text);
        self.cycle_cursor_pos = self.command_line.position;
        self.history_pager = Some(0..1);
        // Update the pager data.
        self.pager.search_field_shown = true;
        self.pager.set_prefix(prefix, false);
        // Update the search field, which triggers the actual history search.
        let search_string = if !self.history_search.active()
            || self.history_search.search_string.len() == 0 {
            copy_text(escaped)
        } else {
            // If we have an actual history search already going, reuse that term - this is if the
            // user looks around a bit and decides to switch to the pager.
            copy_text(&self.history_search.search_string)
        };
        self.insert_string(EditableLineTag::SearchField, &search_string);
    }
}

/// What stands before each item of the history pager, depending on what the terminal can show.
pub open spec fn history_pager_prefix(multibyte: bool) -> Seq<char> {
    if multibyte {
        "► "@
    } else {
        "> "@
    }
}

pub fn get_history_pager_prefix(multibyte: bool) -> (r: WString)
    ensures
        r@ == history_pager_prefix(multibyte),
{
    if multibyte {
        wide("► ")
    } else {
        wide("> ")
    }
}

} // verus!

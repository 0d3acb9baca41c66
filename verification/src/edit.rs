//! Changing the text of the command line and of the search field, and moving the cursor.

use crate::action::{Action, ActionView, HistoryPagerInvocation, HistoryPagerRequest};
use crate::data::{
    AutosuggestionUpdate, CursorEndMode, CursorSelectionMode, DataView, EditableLineTag, Kill,
    ReaderData, TransientEdit,
};
use crate::flags::Flag;
use crate::layout::SelectionData;
use crate::line::Edit;
use crate::pager::{PagerView, SelectionMotion};
use crate::search::{SearchDirection, SearchMode, SearchView};
use crate::suggestion::{
    prefixes, same_char, string_prefixes_string_maybe_case_insensitive, Autosuggestion,
    SuggestionView,
};
use crate::text::{
    contains_char, copy_text, extent, inside, opt_int, part, push_text, splice, subtext,
    text_len, WString,
};
use std::ops::Range;
use vstd::prelude::*;

verus! {

/// The suggestion after an edit that types on into it, or takes back some of what was typed. It is
/// kept as long as something is left of it.
pub open spec fn kept_suggestion(
    s: SuggestionView,
    r: Range<int>,
    with: Seq<char>,
) -> Option<SuggestionView> {
    let offset = r.start - s.range.start;
    if s.text.len() > 0 && 0 <= offset <= s.text.len() && r.end == s.range.end && prefixes(
        s.icase,
        with,
        s.text.skip(offset),
    ) && with.len() != s.text.len() - offset {
        Some(
            SuggestionView {
                range: Range { start: s.range.start, end: r.start + with.len() },
                ..s
            },
        )
    } else {
        None
    }
}

/// The selection after the cursor moved to `pos`.
pub open spec fn reselected(s: SelectionData, pos: int, mode: CursorSelectionMode) -> SelectionData {
    let target = if mode == CursorSelectionMode::Inclusive {
        1int
    } else {
        0int
    };
    if s.begin <= pos {
        SelectionData { begin: s.begin, start: s.begin, stop: (pos + target) as usize }
    } else {
        SelectionData { begin: s.begin, start: pos as usize, stop: (s.begin + target) as usize }
    }
}

impl DataView {
    /// The request by which the history pager is filled.
    pub open spec fn fill_request(
        self,
        why: HistoryPagerInvocation,
        motion: Option<SelectionMotion>,
        direction: SearchDirection,
    ) -> HistoryPagerRequest {
        let shown = self.history_pager.unwrap();
        HistoryPagerRequest {
            why,
            motion,
            direction: if why == HistoryPagerInvocation::Refresh {
                SearchDirection::Backward
            } else {
                direction
            },
            index: match why {
                HistoryPagerInvocation::Anew => 0,
                HistoryPagerInvocation::Advance => match direction {
                    SearchDirection::Forward => (shown.start + 1) as usize,
                    SearchDirection::Backward => (shown.end - 1) as usize,
                },
                HistoryPagerInvocation::Refresh => shown.start as usize,
            },
            old_pager_index: if why == HistoryPagerInvocation::Refresh {
                self.pager.selected_idx
            } else {
                None
            },
        }
    }

    pub open spec fn filling_pager(
        self,
        why: HistoryPagerInvocation,
        motion: Option<SelectionMotion>,
        direction: SearchDirection,
    ) -> DataView {
        self.queued(ActionView::FillHistoryPager(self.fill_request(why, motion, direction)))
    }

    /// What a change of a line brings with it. Every change of the command line makes a new
    /// generation; one of the search field has the list searched again.
    pub open spec fn changed(self, elt: EditableLineTag, update: AutosuggestionUpdate) -> DataView {
        match elt {
            EditableLineTag::Commandline => {
                let next = DataView {
                    generation: if self.generation == u32::MAX {
                        0
                    } else {
                        (self.generation + 1) as u32
                    },
                    saved: None,
                    ..self
                };
                match update {
                    AutosuggestionUpdate::Preserve => next,
                    AutosuggestionUpdate::Remove => DataView {
                        autosuggestion: self.autosuggestion.cleared(),
                        ..next
                    },
                    AutosuggestionUpdate::RemoveAndSave => DataView {
                        autosuggestion: SuggestionView::none(),
                        saved: Some(self.autosuggestion),
                        ..next
                    },
                    AutosuggestionUpdate::Restore => DataView {
                        autosuggestion: self.saved.unwrap(),
                        ..next
                    }.with_flag(Flag::SuppressAutosuggestion, false),
                }
            },
            EditableLineTag::SearchField => {
                if self.history_pager is Some {
                    self.filling_pager(
                        HistoryPagerInvocation::Anew,
                        Some(SelectionMotion::Next),
                        SearchDirection::Backward,
                    )
                } else if self.pager.is_empty() {
                    self
                } else {
                    self.queued(ActionView::RefilterPager)
                }
            },
        }
    }

    /// How an edit of the command line changes the suggestion, where it is not kept.
    pub open spec fn suggestion_update(self, r: Range<int>, with: Seq<char>) -> AutosuggestionUpdate {
        let s = self.autosuggestion;
        if s.text.len() > 0 && r.start == s.range.end && r.start == r.end && with.len() > 0 {
            AutosuggestionUpdate::RemoveAndSave
        } else if self.saved is Some && self.conf.autosuggest_ok && self.search.at_present()
            && with.len() == 0 && r.start == self.saved.unwrap().range.end && r.start < r.end {
            AutosuggestionUpdate::Restore
        } else {
            AutosuggestionUpdate::Remove
        }
    }

    /// Nothing but the text of a line differs, and what hangs on the text: the suggestions, the
    /// generation, and what is asked of the shell.
    pub open spec fn differs_by_edit(self, before: DataView, elt: EditableLineTag) -> bool {
        self == (DataView {
            autosuggestion: self.autosuggestion,
            saved: self.saved,
            generation: self.generation,
            flags: self.flags,
            actions: self.actions,
            ..before.with_line(elt, self.line(elt))
        })
    }

    /// An edit of one of the lines.
    #[verifier::opaque]
    pub open spec fn edited(
        self,
        elt: EditableLineTag,
        r: Range<int>,
        with: Seq<char>,
        coalesce: bool,
    ) -> DataView {
        let line = self.line(elt).pushed(r, with, coalesce);
        if elt == EditableLineTag::Commandline {
            match kept_suggestion(self.autosuggestion, r, with) {
                Some(s) => DataView { autosuggestion: s, ..self.with_line(elt, line) }.changed(
                    elt,
                    AutosuggestionUpdate::Preserve,
                ),
                None => self.with_line(elt, line).changed(elt, self.suggestion_update(r, with)),
            }
        } else {
            self.with_line(elt, line).changed(elt, AutosuggestionUpdate::Remove)
        }
    }

    /// An edit that is an undo step of its own.
    pub open spec fn replaced(self, elt: EditableLineTag, r: Range<int>, with: Seq<char>) -> DataView {
        self.edited(elt, r, with, false)
    }

    pub open spec fn erased(self, elt: EditableLineTag, r: Range<int>) -> DataView {
        self.replaced(elt, r, Seq::empty())
    }

    pub open spec fn cleared(self, elt: EditableLineTag) -> DataView {
        let n = self.line(elt).text.len();
        if n > 0 {
            self.erased(elt, Range { start: 0, end: n as int })
        } else {
            self
        }
    }

    /// Text typed at the cursor.
    pub open spec fn inserted(self, elt: EditableLineTag, s: Seq<char>) -> DataView {
        let pos = self.line(elt).position;
        let next = self.edited(elt, Range { start: pos, end: pos }, s, !self.search.active());
        if elt == EditableLineTag::Commandline {
            DataView { transient_edit: None, ..next }.with_flag(
                Flag::SuppressAutosuggestion,
                false,
            )
        } else {
            next
        }
    }

    /// Text cut out and put into the kill ring: as a new item, or added to the last one.
    pub open spec fn killed(
        self,
        elt: EditableLineTag,
        r: Range<int>,
        mode: Kill,
        newv: bool,
    ) -> DataView {
        let text = part(self.line(elt).text, r);
        let item = if newv {
            text
        } else {
            match mode {
                Kill::Append => self.kill_item + text,
                Kill::Prepend => text + self.kill_item,
            }
        };
        let noted = DataView { kill_item: item, ..self }.queued(
            if newv {
                ActionView::KillAdd(item)
            } else {
                ActionView::KillReplace { old: self.kill_item, new: item }
            },
        );
        noted.erased(elt, r)
    }

    /// Where a motion of the cursor to `new_pos` leads: a cursor that stands on characters cannot
    /// stand behind the last one.
    pub open spec fn landing(self, elt: EditableLineTag, new_pos: Option<int>) -> Option<int> {
        let line = self.line(elt);
        let pos = new_pos.unwrap_or(line.position);
        if self.end_mode == CursorEndMode::Inclusive && line.text.len() > 0 && pos
            == line.text.len() {
            Some(line.text.len() - 1)
        } else {
            new_pos
        }
    }

    /// Whether a motion of the cursor does anything: it does not if the cursor stands on the last
    /// character already and cannot go behind it.
    pub open spec fn can_move(self, elt: EditableLineTag, new_pos: Option<int>) -> bool {
        let line = self.line(elt);
        !(self.end_mode == CursorEndMode::Inclusive && line.text.len() > 0 && new_pos.unwrap_or(
            line.position,
        ) == line.text.len() && line.position == line.text.len() - 1)
    }

    /// Where the cursor is after a motion.
    pub open spec fn position_after(self, elt: EditableLineTag, new_pos: Option<int>) -> int {
        let here = self.line(elt).position;
        if self.can_move(elt, new_pos) {
            self.landing(elt, new_pos).unwrap_or(here)
        } else {
            here
        }
    }

    /// Nothing but the place of the cursor differs, and what hangs on it.
    pub open spec fn differs_by_motion(self, before: DataView, elt: EditableLineTag) -> bool {
        self == (DataView {
            flags: self.flags,
            selection: self.selection,
            ..before.with_line(elt, before.line(elt).moved_to(self.line(elt).position))
        })
    }

    /// The cursor moved, and the selection with it. Autosuggestions are held off when it moved to
    /// another line.
    #[verifier::opaque]
    pub open spec fn moved(self, elt: EditableLineTag, new_pos: Option<int>) -> DataView {
        if !self.can_move(elt, new_pos) {
            self
        } else {
            let line = self.line(elt);
            let pos = self.landing(elt, new_pos).unwrap_or(line.position);
            let next = self.with_line(elt, line.moved_to(pos));
            if elt == EditableLineTag::Commandline {
                next.followed(line.position)
            } else {
                next
            }
        }
    }

    /// What a motion of the cursor of the command line from `old_pos` brings with it.
    pub open spec fn followed(self, old_pos: int) -> DataView {
        let line = self.command_line;
        let pos = line.position;
        let crossed = if pos <= old_pos {
            line.text.subrange(pos, old_pos)
        } else {
            line.text.subrange(old_pos, pos)
        };
        DataView {
            flags: if crossed.contains('\n') {
                self.flags.insert(Flag::SuppressAutosuggestion)
            } else {
                self.flags
            },
            selection: match self.selection {
                Some(s) => Some(reselected(s, pos, self.selection_mode)),
                None => None,
            },
            ..self
        }
    }

    /// The whole line set, and the cursor put somewhere.
    pub open spec fn line_and_position_set(
        self,
        elt: EditableLineTag,
        text: Seq<char>,
        pos: int,
    ) -> DataView {
        let n = self.line(elt).text.len() as int;
        let next = self.replaced(elt, Range { start: 0, end: n }, text);
        next.with_line(elt, next.line(elt).moved_to(pos)).moved(elt, Some(pos))
    }

    #[verifier::opaque]
    pub open spec fn undone(self, elt: EditableLineTag) -> DataView {
        let next = self.with_line(elt, self.line(elt).undone());
        if self.line(elt).past.len() > 0 {
            next.changed(elt, AutosuggestionUpdate::Remove)
        } else {
            next
        }
    }

    #[verifier::opaque]
    pub open spec fn redone(self, elt: EditableLineTag) -> DataView {
        let next = self.with_line(elt, self.line(elt).redone());
        if self.line(elt).future.len() > 0 {
            next.changed(elt, AutosuggestionUpdate::Remove)
        } else {
            next
        }
    }

    /// What a history search or the pager put into the command line taken back.
    pub open spec fn transient_edit_undone(self) -> DataView {
        if self.transient_edit is None {
            self
        } else {
            DataView {
                transient_edit: None,
                ..self.undone(EditableLineTag::Commandline).moved(
                    EditableLineTag::Commandline,
                    None,
                )
            }
        }
    }

    /// What a history search put into the command line taken back. What the pager put there stays.
    pub open spec fn without_transient(self, of: TransientEdit) -> DataView {
        let next = DataView { transient_edit: None, ..self };
        if self.transient_edit == Some(of) {
            next.undone(EditableLineTag::Commandline)
        } else {
            next
        }
    }

    /// The result of the history search put into the command line; `token` is the extent of the
    /// token at the cursor, which a search by token replaces.
    pub open spec fn search_result_put(self, token: Range<int>) -> DataView {
        let text = self.search.current().text;
        let replaced = if self.search.by_token() {
            self.replaced(self.active_tag(), token, text)
        } else {
            let whole = self.replaced(
                EditableLineTag::Commandline,
                Range { start: 0, end: self.command_line.text.len() as int },
                text,
            );
            if self.search.mode == SearchMode::Prefix && self.search.search_string.len() > 0 {
                whole.with_line(
                    EditableLineTag::Commandline,
                    whole.command_line.moved_to(self.search.search_string.len() as int),
                )
            } else {
                whole
            }
        };
        DataView { transient_edit: Some(TransientEdit::HistorySearch), ..replaced }
    }

    /// The command line shows the result of the history search in place of the last result.
    pub open spec fn showing_search_result(self, token: Range<int>) -> DataView {
        let base = self.without_transient(TransientEdit::HistorySearch);
        let next = if base.search.at_present() {
            base
        } else {
            base.search_result_put(token)
        };
        next.moved(EditableLineTag::Commandline, None)
    }

    /// The pager closed, and its search field emptied.
    pub open spec fn pager_cleared(self) -> DataView {
        DataView {
            transient_edit: None,
            ..DataView { pager: self.pager.cleared(), history_pager: None, ..self }.cleared(
                EditableLineTag::SearchField,
            )
        }
    }

    /// The command line set. The pager stays, a history search ends.
    pub open spec fn buffer_set(self, text: Seq<char>, pos: int) -> DataView {
        DataView {
            search: SearchView::inactive(),
            ..self.replaced(
                EditableLineTag::Commandline,
                Range { start: 0, end: self.command_line.text.len() as int },
                text,
            ).moved(
                EditableLineTag::Commandline,
                Some(
                    if pos <= text.len() {
                        pos
                    } else {
                        text.len() as int
                    },
                ),
            )
        }
    }
}

/// A suggestion that an edit keeps continues the edited command line.
proof fn lemma_kept_suggestion_continues(
    s: SuggestionView,
    text: Seq<char>,
    r: Range<int>,
    with: Seq<char>,
)
    requires
        inside(r, text.len() as int),
        s.text.len() > 0 ==> s.continues(text),
    ensures
        kept_suggestion(s, r, with) matches Some(k) ==> k.continues(splice(text, r, with)),
{
    if let Some(k) = kept_suggestion(s, r, with) {
        let after = splice(text, r, with);
        let offset = r.start - s.range.start;
        let p = part(after, k.range);
        assert forall|i: int| 0 <= i < p.len() implies same_char(k.icase, #[trigger] p[i], k.text[i]) by {
            if i < offset {
                assert(p[i] == part(text, s.range)[i]);
            } else {
                assert(p[i] == with[i - offset]);
                assert(s.text.skip(offset)[i - offset] == s.text[i]);
            }
        }
    }
}

/// A suggestion continues the command line still after an edit behind the part that it continues.
proof fn lemma_continues_before_edit(
    s: SuggestionView,
    text: Seq<char>,
    r: Range<int>,
    with: Seq<char>,
)
    requires
        inside(r, text.len() as int),
        s.continues(text),
        s.range.end <= r.start,
    ensures
        s.continues(splice(text, r, with)),
{
    assert(part(splice(text, r, with), s.range) =~= part(text, s.range));
}

/// What an edit of the command line makes of the suggestions continues the edited text.
proof fn lemma_edited_suggestions(d: DataView, r: Range<int>, with: Seq<char>, coalesce: bool)
    requires
        d.wf(),
        inside(r, d.command_line.text.len() as int),
    ensures
        ({
            let next = d.edited(EditableLineTag::Commandline, r, with, coalesce);
            let text = next.command_line.text;
            &&& next.autosuggestion.text.len() > 0 ==> next.autosuggestion.continues(text)
            &&& next.saved matches Some(s) ==> s.continues(text)
        }),
{
    reveal(DataView::edited);
    let text = d.command_line.text;
    let line = d.command_line.pushed(r, with, coalesce);
    assert(line.text =~= splice(text, r, with));
    lemma_kept_suggestion_continues(d.autosuggestion, text, r, with);
    if kept_suggestion(d.autosuggestion, r, with) is None {
        match d.suggestion_update(r, with) {
            AutosuggestionUpdate::RemoveAndSave => {
                lemma_continues_before_edit(d.autosuggestion, text, r, with);
            },
            AutosuggestionUpdate::Restore => {
                lemma_continues_before_edit(d.saved.unwrap(), text, r, with);
            },
            _ => {},
        }
    }
}

/// What a motion of the cursor leaves as it is.
pub proof fn lemma_moved(d: DataView, elt: EditableLineTag, new_pos: Option<int>)
    ensures
        d.moved(elt, new_pos).differs_by_motion(d, elt),
        d.moved(elt, new_pos).line(elt).position == d.position_after(elt, new_pos),
        d.moved(elt, new_pos).active_tag() == d.active_tag(),
{
    reveal(DataView::moved);
}

/// What an edit leaves as it is.
pub proof fn lemma_edited(
    d: DataView,
    elt: EditableLineTag,
    r: Range<int>,
    with: Seq<char>,
    coalesce: bool,
)
    ensures
        d.edited(elt, r, with, coalesce).differs_by_edit(d, elt),
        d.edited(elt, r, with, coalesce).line(elt) == d.line(elt).pushed(r, with, coalesce),
        d.edited(elt, r, with, coalesce).active_tag() == d.active_tag(),
{
    reveal(DataView::edited);
}

impl ReaderData {
    /// Do what we need to do whenever our command line changes.
    pub fn command_line_changed(
        &mut self,
        elt: EditableLineTag,
        autosuggestion_update: AutosuggestionUpdate,
    )
        requires
            autosuggestion_update == AutosuggestionUpdate::Restore && elt
                == EditableLineTag::Commandline ==> old(self)@.saved is Some,
        ensures
            final(self)@ == old(self)@.changed(elt, autosuggestion_update),
    {
        match elt {
            EditableLineTag::Commandline => {
                // Update the gen count.
                self.generation = if self.generation == u32::MAX {
                    0
                } else {
                    self.generation + 1
                };
                let saved_autosuggestion = self.saved_autosuggestion.take();
                match autosuggestion_update {
                    AutosuggestionUpdate::Preserve => (),
                    AutosuggestionUpdate::Remove => self.autosuggestion.clear(),
                    AutosuggestionUpdate::RemoveAndSave => {
                        let mut taken = Autosuggestion::new();
                        std::mem::swap(&mut taken, &mut self.autosuggestion);
                        self.saved_autosuggestion = Some(taken);
                    },
                    AutosuggestionUpdate::Restore => {
                        self.autosuggestion = saved_autosuggestion.unwrap();
                        self.flags.set(Flag::SuppressAutosuggestion, false);
                    },
                }
            },
            EditableLineTag::SearchField => {
                if self.history_pager.is_some() {
                    self.fill_history_pager(
                        HistoryPagerInvocation::Anew,
                        Some(SelectionMotion::Next),
                        SearchDirection::Backward,
                    );
                    return;
                }
                if self.pager.is_empty() {
                    return;
                }
                self.queue(Action::RefilterPager);
            },
        }
    }

    /// Have the history pager filled with items from the history.
    pub fn fill_history_pager(
        &mut self,
        why: HistoryPagerInvocation,
        motion: Option<SelectionMotion>,
        direction: SearchDirection,
    )
        requires
            why != HistoryPagerInvocation::Anew ==> (old(self)@.history_pager matches Some(r)
                && r.start < r.end),
            why == HistoryPagerInvocation::Anew ==> direction == SearchDirection::Backward,
        ensures
            final(self)@ == old(self)@.filling_pager(why, motion, direction),
    {
        let mut direction = direction;
        let mut old_pager_index = None;
        let index: usize = match &self.history_pager {
            Some(shown) => match why {
                HistoryPagerInvocation::Anew => 0,
                HistoryPagerInvocation::Advance => match direction {
                    SearchDirection::Forward => shown.start + 1,
                    SearchDirection::Backward => shown.end - 1,
                },
                HistoryPagerInvocation::Refresh => {
                    // Make backward search from current position
                    direction = SearchDirection::Backward;
                    old_pager_index = self.pager.selected_completion_idx;
                    shown.start
                },
            },
            None => 0,
        };
        self.queue(
            Action::FillHistoryPager(
                HistoryPagerRequest { why, motion, direction, index, old_pager_index },
            ),
        );
    }

    fn set_line_position(&mut self, elt: EditableLineTag, pos: usize)
        requires
            old(self)@.wf(),
            pos <= old(self)@.line(elt).text.len(),
        ensures
            final(self)@ == old(self)@.with_line(elt, old(self)@.line(elt).moved_to(pos as int)),
            final(self)@.wf(),
    {
        match elt {
            EditableLineTag::Commandline => self.command_line.set_position(pos),
            EditableLineTag::SearchField => self.pager.search_field_line.set_position(pos),
        }
    }

    /// Update the cursor position. Return false if the cursor could not be moved.
    pub fn update_buff_pos(&mut self, elt: EditableLineTag, new_pos: Option<usize>) -> (r: bool)
        requires
            old(self)@.wf(),
            new_pos matches Some(p) ==> p <= old(self)@.line(elt).text.len(),
        ensures
            r == old(self)@.can_move(elt, opt_int(new_pos)),
            final(self)@ == old(self)@.moved(elt, opt_int(new_pos)),
            final(self)@.wf(),
            final(self)@.differs_by_motion(old(self)@, elt),
            final(self)@.line(elt).position == old(self)@.position_after(elt, opt_int(new_pos)),
            final(self)@.active_tag() == old(self)@.active_tag(),
    {
        proof {
            lemma_moved(self@, elt, opt_int(new_pos));
        }
        let old_pos = self.edit_line(elt).position;
        let (ok, landing) = self.find_landing(elt, new_pos);
        if !ok {
            assert(self@ == self@.moved(elt, opt_int(new_pos))) by {
                reveal(DataView::moved);
            }
            return false;
        }
        if let Some(pos) = landing {
            self.set_line_position(elt, pos);
        }
        assert(self@ == old(self)@.with_line(
            elt,
            old(self)@.line(elt).moved_to(
                old(self)@.landing(elt, opt_int(new_pos)).unwrap_or(old_pos as int),
            ),
        ));
        if elt == EditableLineTag::Commandline {
            self.follow_cursor(old_pos);
        }
        assert(self@ == old(self)@.moved(elt, opt_int(new_pos))) by {
            reveal(DataView::moved);
        }
        true
    }

    /// Whether a motion of the cursor does anything, and where it leads.
    fn find_landing(&self, elt: EditableLineTag, new_pos: Option<usize>) -> (r: (
        bool,
        Option<usize>,
    ))
        requires
            self@.wf(),
            new_pos matches Some(p) ==> p <= self@.line(elt).text.len(),
        ensures
            r.0 == self@.can_move(elt, opt_int(new_pos)),
            opt_int(r.1) == self@.landing(elt, opt_int(new_pos)),
            r.1 matches Some(p) ==> p <= self@.line(elt).text.len(),
    {
        if self.cursor_end_mode == CursorEndMode::Inclusive {
            let el = self.edit_line(elt);
            let pos = match new_pos {
                Some(p) => p,
                None => el.position,
            };
            if el.len() > 0 && pos == el.len() {
                let last: usize = el.len() - 1;
                return (el.position != last, Some(last));
            }
        }
        (true, new_pos)
    }

    /// Do what a motion of the cursor from `old_pos` brings with it.
    fn follow_cursor(&mut self, old_pos: usize)
        requires
            old(self)@.wf(),
            old_pos <= old(self)@.command_line.text.len(),
        ensures
            final(self)@ == old(self)@.followed(old_pos as int),
            final(self)@.wf(),
    {
        // When moving across lines, hold off on autosuggestions until the next insertion.
        let pos = self.command_line.position;
        let crossed = if pos <= old_pos {
            subtext(&self.command_line.text, pos, old_pos)
        } else {
            subtext(&self.command_line.text, old_pos, pos)
        };
        if contains_char(&crossed, '\n') {
            self.flags.set(Flag::SuppressAutosuggestion, true);
        }
        let target: usize = if self.cursor_selection_mode == CursorSelectionMode::Inclusive {
            1
        } else {
            0
        };
        if let Some(selection) = self.selection {
            self.selection = Some(
                if selection.begin <= pos {
                    SelectionData {
                        begin: selection.begin,
                        start: selection.begin,
                        stop: pos + target,
                    }
                } else {
                    SelectionData {
                        begin: selection.begin,
                        start: pos,
                        stop: selection.begin + target,
                    }
                },
            );
        }
    }

    /// Adjust the autosuggestion to an edit of the command line, where that is possible.
    fn try_apply_edit_to_autosuggestion(&mut self, edit: &Edit) -> (r: bool)
        requires
            old(self)@.wf(),
            inside(extent(edit.range), old(self)@.command_line.text.len() as int),
        ensures
            ({
                let kept = kept_suggestion(
                    old(self)@.autosuggestion,
                    extent(edit.range),
                    edit.replacement@,
                );
                &&& r == (kept is Some)
                &&& final(self)@ == (DataView {
                    autosuggestion: if kept is Some {
                        kept.unwrap()
                    } else {
                        old(self)@.autosuggestion
                    },
                    ..old(self)@
                })
            }),
    {
        if self.autosuggestion.is_empty() {
            return false;
        }
        // Check to see if our autosuggestion still applies; if so, don't recompute it.
        // Since the autosuggestion computation is asynchronous, this avoids "flashing" as you type
        // into the autosuggestion.
        // This is also the main mechanism by which readline commands that don't change the command
        // line text avoid recomputing the autosuggestion.
        let start = self.autosuggestion.search_string_range.start;
        let end = self.autosuggestion.search_string_range.end;
        // This is a heuristic with false negatives but that seems fine.
        if edit.range.start < start {
            return false;
        }
        let offset = edit.range.start - start;
        let n = self.autosuggestion.text.len();
        if offset > n {
            return false;
        }
        let remaining = subtext(&self.autosuggestion.text, offset, n);
        assert(remaining@ =~= self@.autosuggestion.text.skip(offset as int));
        if edit.range.end != end || !string_prefixes_string_maybe_case_insensitive(
            self.autosuggestion.icase,
            &edit.replacement,
            &remaining,
        ) || edit.replacement.len() == remaining.len() {
            return false;
        }
        assert(edit.range.start + edit.replacement@.len() < start + n);
        self.shift_suggestion_end(edit);
        true
    }

    fn shift_suggestion_end(&mut self, edit: &Edit)
        requires
            old(self)@.wf(),
            old(self)@.autosuggestion.text.len() > 0,
            inside(extent(edit.range), old(self)@.command_line.text.len() as int),
            edit.replacement@.len() < old(self)@.autosuggestion.text.len(),
        ensures
            final(self)@ == (DataView {
                autosuggestion: SuggestionView {
                    range: Range {
                        start: old(self)@.autosuggestion.range.start,
                        end: edit.range.start + edit.replacement@.len(),
                    },
                    ..old(self)@.autosuggestion
                },
                ..old(self)@
            }),
    {
        let n = text_len(&self.autosuggestion.text);
        self.autosuggestion.search_string_range.end = edit.range.start + edit.replacement.len();
    }

    fn push_line_edit(&mut self, elt: EditableLineTag, edit: Edit, allow_coalesce: bool)
        requires
            old(self)@.line(elt).wf(),
            inside(extent(edit.range), old(self)@.line(elt).text.len() as int),
        ensures
            final(self)@ == old(self)@.with_line(
                elt,
                old(self)@.line(elt).pushed(extent(edit.range), edit.replacement@, allow_coalesce),
            ),
            final(self)@.line(elt).wf(),
    {
        match elt {
            EditableLineTag::Commandline => self.command_line.push_edit(edit, allow_coalesce),
            EditableLineTag::SearchField => self.pager.search_field_line.push_edit(
                edit,
                allow_coalesce,
            ),
        }
    }

    fn push_edit_internal(&mut self, elt: EditableLineTag, edit: Edit, allow_coalesce: bool)
        requires
            old(self)@.wf(),
            inside(extent(edit.range), old(self)@.line(elt).text.len() as int),
        ensures
            final(self)@ == old(self)@.edited(
                elt,
                extent(edit.range),
                edit.replacement@,
                allow_coalesce,
            ),
            final(self)@.wf(),
    {
        reveal(DataView::edited);
        proof {
            if elt == EditableLineTag::Commandline {
                lemma_edited_suggestions(
                    self@,
                    extent(edit.range),
                    edit.replacement@,
                    allow_coalesce,
                );
            }
        }
        let mut update = AutosuggestionUpdate::Remove;
        if elt == EditableLineTag::Commandline {
            if self.try_apply_edit_to_autosuggestion(&edit) {
                update = AutosuggestionUpdate::Preserve;
            } else {
                update = self.compute_suggestion_update(&edit);
            }
        }
        self.push_line_edit(elt, edit, allow_coalesce);
        self.command_line_changed(elt, update);
    }

    fn compute_suggestion_update(&self, edit: &Edit) -> (r: AutosuggestionUpdate)
        requires
            edit.range.start <= edit.range.end,
        ensures
            r == self@.suggestion_update(extent(edit.range), edit.replacement@),
    {
        if !self.autosuggestion.is_empty() && edit.range.start
            == self.autosuggestion.search_string_range.end && edit.range.start == edit.range.end
            && edit.replacement.len() != 0 {
            // When inserting at the autosuggestion something that doesn't match, save it.
            return AutosuggestionUpdate::RemoveAndSave;
        }
        if let Some(saved) = &self.saved_autosuggestion {
            if self.conf.autosuggest_ok && self.history_search.is_at_present()
                && edit.replacement.len() == 0 && edit.range.start == saved.search_string_range.end
                && edit.range.start < edit.range.end {
                return AutosuggestionUpdate::Restore;
            }
        }
        AutosuggestionUpdate::Remove
    }

    /// Make an edit that is an undo step of its own.
    pub fn push_edit(&mut self, elt: EditableLineTag, edit: Edit)
        requires
            old(self)@.wf(),
            inside(extent(edit.range), old(self)@.line(elt).text.len() as int),
        ensures
            final(self)@ == old(self)@.replaced(elt, extent(edit.range), edit.replacement@),
            final(self)@.wf(),
            final(self)@.differs_by_edit(old(self)@, elt),
            final(self)@.line(elt) == old(self)@.line(elt).pushed(
                extent(edit.range),
                edit.replacement@,
                false,
            ),
            final(self)@.active_tag() == old(self)@.active_tag(),
    {
        proof {
            lemma_edited(self@, elt, extent(edit.range), edit.replacement@, false);
        }
        self.push_edit_internal(elt, edit, false);
    }

    /// Replace the text in the range.
    pub fn replace_substring(
        &mut self,
        elt: EditableLineTag,
        range: Range<usize>,
        replacement: WString,
    )
        requires
            old(self)@.wf(),
            inside(extent(range), old(self)@.line(elt).text.len() as int),
        ensures
            final(self)@ == old(self)@.replaced(elt, extent(range), replacement@),
            final(self)@.wf(),
            final(self)@.differs_by_edit(old(self)@, elt),
            final(self)@.line(elt) == old(self)@.line(elt).pushed(
                extent(range),
                replacement@,
                false,
            ),
            final(self)@.active_tag() == old(self)@.active_tag(),
    {
        self.push_edit(elt, Edit::new(range, replacement));
    }

    /// Erase the text in the range.
    pub fn erase_substring(&mut self, elt: EditableLineTag, range: Range<usize>)
        requires
            old(self)@.wf(),
            inside(extent(range), old(self)@.line(elt).text.len() as int),
        ensures
            final(self)@ == old(self)@.erased(elt, extent(range)),
            final(self)@.wf(),
    {
        let nothing: WString = Vec::new();
        assert(nothing@ =~= Seq::empty());
        self.push_edit(elt, Edit::new(range, nothing));
    }

    /// Erase the whole line.
    pub fn clear(&mut self, elt: EditableLineTag)
        requires
            old(self)@.wf(),
        ensures
            final(self)@ == old(self)@.cleared(elt),
            final(self)@.wf(),
    {
        let n = self.edit_line(elt).len();
        if n > 0 {
            self.erase_substring(elt, 0..n);
        }
    }

    /// Handle killing parts of text.
    pub fn kill(&mut self, elt: EditableLineTag, range: Range<usize>, mode: Kill, newv: bool)
        requires
            old(self)@.wf(),
            inside(extent(range), old(self)@.line(elt).text.len() as int),
        ensures
            final(self)@ == old(self)@.killed(elt, extent(range), mode, newv),
            final(self)@.wf(),
    {
        let text = subtext(&self.edit_line(elt).text, range.start, range.end);
        self.note_kill(text, mode, newv);
        self.erase_substring(elt, range);
    }

    fn note_kill(&mut self, text: WString, mode: Kill, newv: bool)
        ensures
            ({
                let item = if newv {
                    text@
                } else {
                    match mode {
                        Kill::Append => old(self)@.kill_item + text@,
                        Kill::Prepend => text@ + old(self)@.kill_item,
                    }
                };
                final(self)@ == (DataView { kill_item: item, ..old(self)@ }).queued(
                    if newv {
                        ActionView::KillAdd(item)
                    } else {
                        ActionView::KillReplace { old: old(self)@.kill_item, new: item }
                    },
                )
            }),
    {
        if newv {
            self.kill_item = copy_text(&text);
            self.queue(Action::KillAdd(text));
        } else {
            let before = copy_text(&self.kill_item);
            let mut item: WString;
            match mode {
                Kill::Append => {
                    item = copy_text(&before);
                    push_text(&mut item, &text);
                },
                Kill::Prepend => {
                    item = text;
                    push_text(&mut item, &before);
                },
            }
            self.kill_item = copy_text(&item);
            self.queue(Action::KillReplace { old: before, new: item });
        }
    }

    /// Insert the characters of the string at the cursor. Returns true if the text changed.
    pub fn insert_string(&mut self, elt: EditableLineTag, s: &[char]) -> (changed: bool)
        requires
            old(self)@.wf(),
        ensures
            changed == (s@.len() > 0),
            changed == (final(self)@.line(elt).text != old(self)@.line(elt).text),
            final(self)@ == old(self)@.inserted(elt, s@),
            final(self)@.wf(),
            final(self)@.differs_by_edit(
                DataView { transient_edit: final(self)@.transient_edit, ..old(self)@ },
                elt,
            ),
            final(self)@.line(elt).position == old(self)@.line(elt).position + s@.len(),
            final(self)@.active_tag() == old(self)@.active_tag(),
    {
        proof {
            let pos = self@.line(elt).position;
            lemma_edited(self@, elt, Range { start: pos, end: pos }, s@, !self@.search.active());
        }
        let history_search_active = self.history_search.active();
        let pos = self.edit_line(elt).position;
        self.push_edit_internal(elt, Edit::new(pos..pos, copy_text(s)), !history_search_active);
        if elt == EditableLineTag::Commandline {
            self.command_line_transient_edit = None;
            self.flags.set(Flag::SuppressAutosuggestion, false);
        }
        s.len() > 0
    }

    /// Insert the character at the cursor.
    pub fn insert_char(&mut self, elt: EditableLineTag, c: char)
        requires
            old(self)@.wf(),
        ensures
            final(self)@ == old(self)@.inserted(elt, seq![c]),
            final(self)@.wf(),
            final(self)@.differs_by_edit(
                DataView { transient_edit: final(self)@.transient_edit, ..old(self)@ },
                elt,
            ),
            final(self)@.line(elt).position == old(self)@.line(elt).position + 1,
            final(self)@.active_tag() == old(self)@.active_tag(),
    {
        let mut s: WString = Vec::new();
        s.push(c);
        assert(s@ =~= seq![c]);
        self.insert_string(elt, &s);
    }

    /// Set the specified string as the current buffer.
    pub fn set_command_line_and_position(
        &mut self,
        elt: EditableLineTag,
        new_str: WString,
        pos: usize,
    )
        requires
            old(self)@.wf(),
            pos <= new_str@.len(),
        ensures
            final(self)@ == old(self)@.line_and_position_set(elt, new_str@, pos as int),
            final(self)@.wf(),
    {
        let n = self.edit_line(elt).len();
        proof {
            lemma_whole_line_replaced(self@, elt, new_str@);
        }
        self.replace_substring(elt, 0..n, new_str);
        self.set_line_position(elt, pos);
        self.update_buff_pos(elt, Some(pos));
    }

    /// Undo the last edit. Return false if there is none.
    pub fn undo(&mut self, elt: EditableLineTag) -> (ok: bool)
        requires
            old(self)@.wf(),
        ensures
            ok == (old(self)@.line(elt).past.len() > 0),
            final(self)@ == old(self)@.undone(elt),
            final(self)@.wf(),
            final(self)@.differs_by_edit(old(self)@, elt),
            final(self)@.line(elt) == old(self)@.line(elt).undone(),
            final(self)@.active_tag() == old(self)@.active_tag(),
    {
        reveal(DataView::undone);
        let ok = match elt {
            EditableLineTag::Commandline => self.command_line.undo(),
            EditableLineTag::SearchField => self.pager.search_field_line.undo(),
        };
        if ok {
            self.command_line_changed(elt, AutosuggestionUpdate::Remove);
        }
        ok
    }

    /// Redo the last edit that was undone. Return false if there is none.
    pub fn redo(&mut self, elt: EditableLineTag) -> (ok: bool)
        requires
            old(self)@.wf(),
        ensures
            ok == (old(self)@.line(elt).future.len() > 0),
            final(self)@ == old(self)@.redone(elt),
            final(self)@.wf(),
            final(self)@.differs_by_edit(old(self)@, elt),
            final(self)@.active_tag() == old(self)@.active_tag(),
    {
        reveal(DataView::redone);
        let ok = match elt {
            EditableLineTag::Commandline => self.command_line.redo(),
            EditableLineTag::SearchField => self.pager.search_field_line.redo(),
        };
        if ok {
            self.command_line_changed(elt, AutosuggestionUpdate::Remove);
        }
        ok
    }

    /// Undo the transient edit and update the command line accordingly.
    pub fn clear_transient_edit(&mut self)
        requires
            old(self)@.wf(),
        ensures
            final(self)@ == old(self)@.transient_edit_undone(),
            final(self)@.wf(),
            final(self)@.rls == old(self)@.rls,
    {
        if self.command_line_transient_edit.is_none() {
            return;
        }
        self.undo(EditableLineTag::Commandline);
        self.update_buff_pos(EditableLineTag::Commandline, None);
        self.command_line_transient_edit = None;
    }

    pub(crate) fn drop_transient_edit(&mut self, of: TransientEdit)
        requires
            old(self)@.wf(),
        ensures
            final(self)@ == old(self)@.without_transient(of),
            final(self)@.wf(),
            final(self)@.differs_by_edit(
                DataView { transient_edit: None, ..old(self)@ },
                EditableLineTag::Commandline,
            ),
            final(self)@.command_line == if old(self)@.transient_edit == Some(of) {
                old(self)@.command_line.undone()
            } else {
                old(self)@.command_line
            },
            final(self)@.active_tag() == old(self)@.active_tag(),
    {
        let transient_edit = self.command_line_transient_edit;
        self.command_line_transient_edit = None;
        if transient_edit == Some(of) {
            self.undo(EditableLineTag::Commandline);
        }
    }

    /// Ensure we have no pager contents.
    pub fn clear_pager(&mut self)
        requires
            old(self)@.wf(),
        ensures
            final(self)@ == old(self)@.pager_cleared(),
            final(self)@.wf(),
            final(self)@ == (DataView {
                transient_edit: None,
                history_pager: None,
                pager: PagerView {
                    search_field: final(self)@.pager.search_field,
                    ..PagerView::empty()
                },
                ..old(self)@
            }),
            final(self)@.pager.search_field.text.len() == 0,
    {
        reveal(DataView::edited);
        self.pager.clear();
        self.history_pager = None;
        self.clear(EditableLineTag::SearchField);
        self.command_line_transient_edit = None;
    }

    /// Sets the command line contents, without clearing the pager.
    pub fn set_buffer_maintaining_pager(&mut self, new_cmd_line: &[char], pos: usize)
        requires
            old(self)@.wf(),
        ensures
            final(self)@ == old(self)@.buffer_set(new_cmd_line@, pos as int),
            final(self)@.wf(),
            final(self)@.rls == old(self)@.rls,
    {
        let n = self.command_line.len();
        proof {
            lemma_whole_line_replaced(self@, EditableLineTag::Commandline, new_cmd_line@);
        }
        self.replace_substring(EditableLineTag::Commandline, 0..n, copy_text(new_cmd_line));
        // Don't set a position past the command line length.
        let pos = if pos <= new_cmd_line.len() {
            pos
        } else {
            new_cmd_line.len()
        };
        self.update_buff_pos(EditableLineTag::Commandline, Some(pos));
        // Clear history search.
        self.history_search.reset();
    }
}

/// Replacing the whole line leaves the new text.
pub proof fn lemma_whole_line_replaced(d: DataView, elt: EditableLineTag, text: Seq<char>)
    ensures
        d.replaced(
            elt,
            Range { start: 0, end: d.line(elt).text.len() as int },
            text,
        ).line(elt).text == text,
{
    let r = Range { start: 0, end: d.line(elt).text.len() as int };
    lemma_edited(d, elt, r, text, false);
    assert(splice(d.line(elt).text, r, text) =~= text);
    assert(d.line(elt).text.len() == 0 && text.len() == 0 ==> d.line(elt).text =~= text);
}

} // verus!

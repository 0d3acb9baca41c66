//! A line of text under edit: the text with its colors, the cursor, and the edits that can be
//! undone and redone.

use crate::highlight::{plain, recolored, repeated, HighlightRole, HighlightSpec};
use crate::text::{extent, inside, part, push_text, splice, spliced, subtext, text_len, WString};
use std::ops::Range;
use vstd::prelude::*;

verus! {

/// An edit: the characters in `range` are replaced by `replacement`. The other fields are filled
/// in when the edit is made.
pub struct Edit {
    pub range: Range<usize>,
    pub replacement: WString,
    /// Where the cursor was before the edit.
    pub cursor_position_before_edit: usize,
    /// The text that the edit replaced.
    pub old: WString,
    /// Edits of one group are undone and redone together.
    pub group_id: Option<u64>,
}

#[verifier::ext_equal]
pub struct EditView {
    pub range: Range<int>,
    pub replacement: Seq<char>,
    pub cursor_before: int,
    pub old: Seq<char>,
    pub group: Option<u64>,
}

impl View for Edit {
    type V = EditView;

    open spec fn view(&self) -> EditView {
        EditView {
            range: extent(self.range),
            replacement: self.replacement@,
            cursor_before: self.cursor_position_before_edit as int,
            old: self.old@,
            group: self.group_id,
        }
    }
}

impl EditView {
    /// The range that the replacement covers once the edit is made.
    pub open spec fn covered(self) -> Range<int> {
        Range { start: self.range.start, end: self.range.start + self.replacement.len() }
    }

    /// Where the edit leaves the cursor: it keeps its place in the text around the edit, and what
    /// was inserted at or before it pushes it on.
    pub open spec fn cursor_after(self) -> int {
        let r = self.range;
        let removed = if self.cursor_before <= r.start {
            0
        } else if self.cursor_before - r.start < r.end - r.start {
            self.cursor_before - r.start
        } else {
            r.end - r.start
        };
        self.cursor_before + self.replacement.len() - removed
    }

    /// The edit was the last one made on a line that now reads `text`.
    pub open spec fn made(self, text: Seq<char>) -> bool {
        &&& 0 <= self.range.start
        &&& self.range.end == self.range.start + self.old.len()
        &&& self.covered().end <= text.len()
        &&& part(text, self.covered()) == self.replacement
        &&& 0 <= self.cursor_before <= splice(text, self.covered(), self.old).len()
    }

    /// The edit can be made on a line that reads `text`.
    pub open spec fn makeable(self, text: Seq<char>) -> bool {
        &&& inside(self.range, text.len() as int)
        &&& part(text, self.range) == self.old
        &&& 0 <= self.cursor_before <= text.len()
    }
}

/// The edits, newest last, lead from some earlier text to `text`.
pub open spec fn past_leads_to(text: Seq<char>, past: Seq<EditView>) -> bool
    decreases past.len(),
{
    past.len() > 0 ==> {
        &&& past.last().made(text)
        &&& past_leads_to(splice(text, past.last().covered(), past.last().old), past.drop_last())
    }
}

/// The undone edits, the one to be redone first last, can be made one after the other.
pub open spec fn future_follows(text: Seq<char>, future: Seq<EditView>) -> bool
    decreases future.len(),
{
    future.len() > 0 ==> {
        &&& future.last().makeable(text)
        &&& future_follows(
            splice(text, future.last().range, future.last().replacement),
            future.drop_last(),
        )
    }
}

/// The color that text inserted at `pos` takes on: that of the character before it.
pub open spec fn color_before(colors: Seq<HighlightSpec>, pos: int) -> HighlightSpec {
    if 0 < pos <= colors.len() {
        colors[pos - 1]
    } else {
        plain()
    }
}

#[verifier::ext_equal]
pub struct LineView {
    pub text: Seq<char>,
    pub colors: Seq<HighlightSpec>,
    pub position: int,
    pub past: Seq<EditView>,
    pub future: Seq<EditView>,
    pub may_coalesce: bool,
    pub group_depth: int,
    pub group_id: u64,
    pub pending_position: Option<usize>,
}

impl LineView {
    pub open spec fn empty() -> LineView {
        LineView {
            text: Seq::empty(),
            colors: Seq::empty(),
            position: 0,
            past: Seq::empty(),
            future: Seq::empty(),
            may_coalesce: false,
            group_depth: 0,
            group_id: 0,
            pending_position: None,
        }
    }

    pub open spec fn wf(self) -> bool {
        &&& self.text.len() <= isize::MAX
        &&& self.colors.len() == self.text.len()
        &&& 0 <= self.position <= self.text.len()
        &&& past_leads_to(self.text, self.past)
        &&& future_follows(self.text, self.future)
        &&& 0 <= self.group_depth <= usize::MAX
    }

    /// The line with `r` replaced. Cursor and undo history stay.
    pub open spec fn replaced(self, r: Range<int>, with: Seq<char>) -> LineView {
        LineView {
            text: splice(self.text, r, with),
            colors: splice(
                self.colors,
                r,
                repeated(color_before(self.colors, r.start), with.len()),
            ),
            ..self
        }
    }

    pub open spec fn moved_to(self, position: int) -> LineView {
        LineView { position, ..self }
    }

    /// Whether an insertion at the cursor is made part of the last edit: both are plain typing,
    /// and the cursor was not moved in between. Outside of a group a space starts a new edit.
    pub open spec fn coalesces(self, r: Range<int>, with: Seq<char>) -> bool {
        &&& r.start == r.end == self.position
        &&& self.may_coalesce
        &&& with.len() == 1
        &&& (with[0] != ' ' || self.group_depth > 0)
        &&& self.past.len() > 0
        &&& self.past.last().old.len() == 0
        &&& self.past.last().covered().end == self.position
    }

    pub open spec fn edit(self, r: Range<int>, with: Seq<char>) -> EditView {
        EditView {
            range: r,
            replacement: with,
            cursor_before: self.position,
            old: part(self.text, r),
            group: if self.group_depth > 0 {
                Some(self.group_id)
            } else {
                None
            },
        }
    }

    /// The line after an edit. An edit that does nothing is not recorded; any other edit drops the
    /// edits that were undone before.
    pub open spec fn pushed(self, r: Range<int>, with: Seq<char>, allow_coalesce: bool) -> LineView {
        if allow_coalesce && self.coalesces(r, with) {
            let last = self.past.last();
            LineView {
                position: self.position + 1,
                past: self.past.drop_last().push(
                    EditView { replacement: last.replacement + with, ..last },
                ),
                future: Seq::empty(),
                ..self.replaced(r, with)
            }
        } else if r.start == r.end && with.len() == 0 {
            self
        } else {
            LineView {
                position: self.edit(r, with).cursor_after(),
                past: self.past.push(self.edit(r, with)),
                future: Seq::empty(),
                may_coalesce: r.start == r.end && (self.group_depth > 0 || with.len() == 1),
                ..self.replaced(r, with)
            }
        }
    }

    /// One edit undone.
    pub open spec fn stepped_back(self) -> LineView {
        let e = self.past.last();
        LineView {
            position: e.cursor_before,
            past: self.past.drop_last(),
            future: self.future.push(e),
            ..self.replaced(e.covered(), e.old)
        }
    }

    /// One edit redone.
    pub open spec fn stepped_forward(self) -> LineView {
        let e = self.future.last();
        LineView {
            position: e.cursor_after(),
            past: self.past.push(e),
            future: self.future.drop_last(),
            ..self.replaced(e.range, e.replacement)
        }
    }

    /// The edits of the group `group` undone as far as they are the last ones.
    pub open spec fn group_undone(self, group: Option<u64>) -> LineView
        decreases self.past.len(),
    {
        if group is Some && self.past.len() > 0 && self.past.last().group == group {
            self.stepped_back().group_undone(group)
        } else {
            self
        }
    }

    pub open spec fn group_redone(self, group: Option<u64>) -> LineView
        decreases self.future.len(),
    {
        if group is Some && self.future.len() > 0 && self.future.last().group == group {
            self.stepped_forward().group_redone(group)
        } else {
            self
        }
    }

    pub open spec fn group_begun(self) -> LineView {
        if self.group_depth == 0 {
            LineView {
                group_depth: 1,
                may_coalesce: false,
                group_id: if self.group_id == u64::MAX {
                    0
                } else {
                    (self.group_id + 1) as u64
                },
                ..self
            }
        } else {
            LineView { group_depth: self.group_depth + 1, ..self }
        }
    }

    pub open spec fn group_ended(self) -> LineView {
        if self.group_depth == 0 {
            self
        } else {
            LineView {
                group_depth: self.group_depth - 1,
                may_coalesce: self.may_coalesce && self.group_depth != 1,
                ..self
            }
        }
    }

    pub open spec fn undone(self) -> LineView {
        let back = if self.past.len() > 0 {
            self.stepped_back().group_undone(self.past.last().group)
        } else {
            self
        };
        LineView { may_coalesce: false, ..back.group_ended() }
    }

    pub open spec fn redone(self) -> LineView {
        let forward = if self.future.len() > 0 {
            self.stepped_forward().group_redone(self.future.last().group)
        } else {
            self
        };
        LineView { may_coalesce: false, ..forward.group_ended() }
    }
}

pub struct EditableLine {
    pub text: WString,
    pub colors: Vec<HighlightSpec>,
    pub position: usize,
    /// The edits made, newest last.
    pub undo_stack: Vec<Edit>,
    /// The edits undone, last undone last.
    pub redo_stack: Vec<Edit>,
    pub may_coalesce: bool,
    pub group_depth: usize,
    pub group_id: u64,
    /// Where the cursor goes when the line is shown again after execution.
    pub pending_position: Option<usize>,
}

pub open spec fn edits(stack: Seq<Edit>) -> Seq<EditView> {
    stack.map_values(|e: Edit| e@)
}

impl View for EditableLine {
    type V = LineView;

    open spec fn view(&self) -> LineView {
        LineView {
            text: self.text@,
            colors: self.colors@,
            position: self.position as int,
            past: edits(self.undo_stack@),
            future: edits(self.redo_stack@),
            may_coalesce: self.may_coalesce,
            group_depth: self.group_depth as int,
            group_id: self.group_id,
            pending_position: self.pending_position,
        }
    }
}

impl Edit {
    /// An edit that is to be made.
    pub fn new(range: Range<usize>, replacement: WString) -> (r: Edit)
        ensures
            r.range == range,
            r.replacement == replacement,
            r.old@ == Seq::<char>::empty(),
            r.cursor_position_before_edit == 0,
            r.group_id is None,
    {
        Edit { range, replacement, cursor_position_before_edit: 0, old: Vec::new(), group_id: None }
    }
}

impl EditableLine {
    pub fn new() -> (r: EditableLine)
        ensures
            r@ == LineView::empty(),
            r@.wf(),
    {
        let r = EditableLine {
            text: Vec::new(),
            colors: Vec::new(),
            position: 0,
            undo_stack: Vec::new(),
            redo_stack: Vec::new(),
            may_coalesce: false,
            group_depth: 0,
            group_id: 0,
            pending_position: None,
        };
        assert(r@.past =~= Seq::empty());
        assert(r@.future =~= Seq::empty());
        r
    }

    pub fn len(&self) -> (n: usize)
        ensures
            n == self@.text.len(),
    {
        self.text.len()
    }

    pub fn is_empty(&self) -> (r: bool)
        ensures
            r == (self@.text.len() == 0),
    {
        self.text.len() == 0
    }

    /// Put the cursor somewhere else.
    pub fn set_position(&mut self, position: usize)
        requires
            old(self)@.wf(),
            position <= old(self)@.text.len(),
        ensures
            final(self)@ == old(self)@.moved_to(position as int),
            final(self)@.wf(),
    {
        self.position = position;
    }

    /// Give every character its color.
    pub fn set_colors(&mut self, colors: Vec<HighlightSpec>)
        requires
            old(self)@.wf(),
            colors@.len() == old(self)@.text.len(),
        ensures
            final(self)@ == (LineView { colors: colors@, ..old(self)@ }),
            final(self)@.wf(),
    {
        self.colors = colors;
    }

    fn replace(&mut self, from: usize, to: usize, with: &[char])
        requires
            from <= to <= old(self)@.text.len(),
            old(self)@.colors.len() == old(self)@.text.len(),
        ensures
            final(self)@ == old(self)@.replaced(
                Range { start: from as int, end: to as int },
                with@,
            ),
            final(self)@.text.len() <= isize::MAX,
            final(self)@.colors.len() == final(self)@.text.len(),
            final(self).undo_stack == old(self).undo_stack,
            final(self).redo_stack == old(self).redo_stack,
            final(self).position == old(self).position,
            final(self).may_coalesce == old(self).may_coalesce,
            final(self).group_depth == old(self).group_depth,
            final(self).group_id == old(self).group_id,
            final(self).pending_position == old(self).pending_position,
    {
        let color = if from > 0 {
            self.colors[from - 1]
        } else {
            HighlightSpec::with_both(HighlightRole::Normal)
        };
        self.text = spliced(&self.text, from, to, with);
        // That the new text has a length bounds the number of its colors.
        let _ = text_len(&self.text);
        self.colors = recolored(&self.colors, from, to, color, with.len());
    }

    /// Make an edit.
    pub fn push_edit(&mut self, edit: Edit, allow_coalesce: bool)
        requires
            old(self)@.wf(),
            inside(extent(edit.range), old(self)@.text.len() as int),
        ensures
            final(self)@ == old(self)@.pushed(
                extent(edit.range),
                edit.replacement@,
                allow_coalesce,
            ),
            final(self)@.wf(),
    {
        let ghost before = self@;
        let ghost r = extent(edit.range);
        let ghost with = edit.replacement@;
        let from = edit.range.start;
        let to = edit.range.end;
        let is_insertion = from == to;
        // Coalescing an insertion does not create a new edit but adds to the last one.
        if allow_coalesce && is_insertion && from == self.position && self.want_to_coalesce(
            &edit.replacement,
        ) {
            self.replace(from, to, &edit.replacement);
            let mut last = self.undo_stack.pop().unwrap();
            push_text(&mut last.replacement, &edit.replacement);
            self.undo_stack.push(last);
            self.redo_stack = Vec::new();
            self.position = self.position + 1;
            proof {
                lemma_coalescing_keeps_past(before, with);
                let e = edits(old(self).undo_stack@).last();
                assert(self@.past =~= before.past.drop_last().push(
                    EditView { replacement: e.replacement + with, ..e },
                ));
                assert(self@.future =~= Seq::empty());
            }
            return;
        }
        if is_insertion && edit.replacement.len() == 0 {
            return;
        }
        let group_id = if self.group_depth > 0 {
            Some(self.group_id)
        } else {
            None
        };
        let old_text = subtext(&self.text, from, to);
        let n = edit.replacement.len();
        self.replace(from, to, &edit.replacement);
        let done = Edit {
            range: from..to,
            replacement: edit.replacement,
            cursor_position_before_edit: self.position,
            old: old_text,
            group_id,
        };
        proof {
            let e = done@;
            lemma_splice_back(before.text, e.range, e.replacement);
            lemma_cursor_after(e, before.text);
            assert(e == before.edit(r, with));
        }
        self.position = done.cursor_after();
        self.may_coalesce = is_insertion && (self.group_depth > 0 || n == 1);
        let ghost stack = self.undo_stack@;
        self.undo_stack.push(done);
        self.redo_stack = Vec::new();
        proof {
            assert(edits(stack.push(done)) =~= edits(stack).push(done@));
            assert(self@.past.drop_last() =~= before.past);
            assert(self@.future =~= Seq::empty());
        }
    }

    fn want_to_coalesce(&self, with: &[char]) -> (r: bool)
        requires
            self@.wf(),
        ensures
            r == self@.coalesces(
                Range { start: self@.position, end: self@.position },
                with@,
            ),
    {
        if !self.may_coalesce || with.len() != 1 {
            return false;
        }
        // Make a new edit for every space.
        if with[0] == ' ' && self.group_depth == 0 {
            return false;
        }
        if self.undo_stack.len() == 0 {
            return false;
        }
        let last = &self.undo_stack[self.undo_stack.len() - 1];
        assert(last@ == self@.past.last());
        // Do not add to the last edit if it deleted something.
        if last.old.len() != 0 {
            return false;
        }
        // The cursor must not have moved.
        last.range.start + last.replacement.len() == self.position
    }

    fn step_back(&mut self)
        requires
            old(self)@.wf(),
            old(self)@.past.len() > 0,
        ensures
            final(self)@ == old(self)@.stepped_back(),
            final(self)@.wf(),
    {
        let ghost before = self@;
        let e = self.undo_stack.pop().unwrap();
        assert(e@ == before.past.last());
        let from = e.range.start;
        let to = from + e.replacement.len();
        self.replace(from, to, &e.old);
        self.position = e.cursor_position_before_edit;
        let ghost stack = self.redo_stack@;
        proof {
            lemma_splice_forth(before.text, e@);
        }
        self.redo_stack.push(e);
        proof {
            assert(self@.past =~= before.past.drop_last());
            assert(self@.future =~= before.future.push(e@));
            assert(self@.future.drop_last() =~= before.future);
        }
    }

    fn step_forward(&mut self)
        requires
            old(self)@.wf(),
            old(self)@.future.len() > 0,
        ensures
            final(self)@ == old(self)@.stepped_forward(),
            final(self)@.wf(),
    {
        let ghost before = self@;
        let e = self.redo_stack.pop().unwrap();
        assert(e@ == before.future.last());
        self.replace(e.range.start, e.range.end, &e.replacement);
        proof {
            lemma_splice_back(before.text, e@.range, e@.replacement);
            lemma_cursor_after(e@, before.text);
        }
        self.position = e.cursor_after();
        self.undo_stack.push(e);
        proof {
            assert(self@.future =~= before.future.drop_last());
            assert(self@.past =~= before.past.push(e@));
            assert(self@.past.drop_last() =~= before.past);
        }
    }

    /// Undo the last edit, with the edits of its group. Return false if there is none.
    pub fn undo(&mut self) -> (did_undo: bool)
        requires
            old(self)@.wf(),
        ensures
            did_undo == (old(self)@.past.len() > 0),
            final(self)@ == old(self)@.undone(),
            final(self)@.wf(),
    {
        let did_undo = self.undo_stack.len() > 0;
        if did_undo {
            let group = self.undo_stack[self.undo_stack.len() - 1].group_id;
            assert(group == self@.past.last().group);
            self.step_back();
            let ghost goal = self@.group_undone(group);
            while group.is_some() && self.undo_stack.len() > 0 && self.undo_stack[self.undo_stack.len()
                - 1].group_id == group
                invariant
                    self@.wf(),
                    self@.group_undone(group) == goal,
                decreases self.undo_stack@.len(),
            {
                assert(self@.past.last().group == group);
                let ghost n = self@.past.len();
                self.step_back();
                assert(self@.past.len() == n - 1);
            }
            assert(self.undo_stack@.len() > 0 ==> self@.past.last()
                == self.undo_stack@.last()@);
        }
        self.end_edit_group();
        self.may_coalesce = false;
        did_undo
    }

    /// Redo the last undone edit, with the edits of its group. Return false if there is none.
    pub fn redo(&mut self) -> (did_redo: bool)
        requires
            old(self)@.wf(),
        ensures
            did_redo == (old(self)@.future.len() > 0),
            final(self)@ == old(self)@.redone(),
            final(self)@.wf(),
    {
        let did_redo = self.redo_stack.len() > 0;
        if did_redo {
            let group = self.redo_stack[self.redo_stack.len() - 1].group_id;
            assert(group == self@.future.last().group);
            self.step_forward();
            let ghost goal = self@.group_redone(group);
            while group.is_some() && self.redo_stack.len() > 0 && self.redo_stack[self.redo_stack.len()
                - 1].group_id == group
                invariant
                    self@.wf(),
                    self@.group_redone(group) == goal,
                decreases self.redo_stack@.len(),
            {
                assert(self@.future.last().group == group);
                let ghost n = self@.future.len();
                self.step_forward();
                assert(self@.future.len() == n - 1);
            }
            assert(self.redo_stack@.len() > 0 ==> self@.future.last()
                == self.redo_stack@.last()@);
        }
        self.end_edit_group();
        self.may_coalesce = false;
        did_redo
    }

    /// Edits made from now on until the group is ended are undone and redone together.
    pub fn begin_edit_group(&mut self)
        requires
            old(self)@.wf(),
            old(self)@.group_depth < usize::MAX,
        ensures
            final(self)@ == old(self)@.group_begun(),
            final(self)@.wf(),
    {
        if self.group_depth == 0 {
            self.group_depth = 1;
            self.may_coalesce = false;
            self.group_id = if self.group_id == u64::MAX {
                0
            } else {
                self.group_id + 1
            };
        } else {
            self.group_depth = self.group_depth + 1;
        }
    }

    /// End the group that was begun last. A call without a group does nothing.
    pub fn end_edit_group(&mut self)
        requires
            old(self)@.wf(),
        ensures
            final(self)@ == old(self)@.group_ended(),
            final(self)@.wf(),
    {
        if self.group_depth > 0 {
            if self.group_depth == 1 {
                self.may_coalesce = false;
            }
            self.group_depth = self.group_depth - 1;
        }
    }
}

impl Edit {
    fn cursor_after(&self) -> (r: usize)
        requires
            self.range.start <= self.range.end,
            self@.cursor_after() <= isize::MAX,
        ensures
            r == self@.cursor_after(),
    {
        let cursor = self.cursor_position_before_edit;
        let removed = if cursor <= self.range.start {
            0
        } else if cursor - self.range.start < self.range.end - self.range.start {
            cursor - self.range.start
        } else {
            self.range.end - self.range.start
        };
        cursor - removed + self.replacement.len()
    }
}

/// Replacing what an edit inserted by what it replaced gives the text before the edit.
pub proof fn lemma_splice_back(text: Seq<char>, r: Range<int>, with: Seq<char>)
    requires
        inside(r, text.len() as int),
    ensures
        splice(
            splice(text, r, with),
            Range { start: r.start, end: r.start + with.len() },
            part(text, r),
        ) == text,
        splice(text, r, with).len() == text.len() - (r.end - r.start) + with.len(),
        part(splice(text, r, with), Range { start: r.start, end: r.start + with.len() }) == with,
{
    assert(splice(
        splice(text, r, with),
        Range { start: r.start, end: r.start + with.len() },
        part(text, r),
    ) =~= text);
    assert(part(splice(text, r, with), Range { start: r.start, end: r.start + with.len() })
        =~= with);
}

/// An edit that was undone can be made again, and gives the text that it gave before.
proof fn lemma_splice_forth(text: Seq<char>, e: EditView)
    requires
        e.made(text),
    ensures
        e.makeable(splice(text, e.covered(), e.old)),
        splice(splice(text, e.covered(), e.old), e.range, e.replacement) == text,
{
    let before = splice(text, e.covered(), e.old);
    assert(part(before, e.range) =~= e.old);
    assert(splice(before, e.range, e.replacement) =~= text);
}

/// An edit leaves the cursor inside the text.
pub proof fn lemma_cursor_after(e: EditView, text: Seq<char>)
    requires
        inside(e.range, text.len() as int),
        0 <= e.cursor_before <= text.len(),
    ensures
        0 <= e.cursor_after() <= splice(text, e.range, e.replacement).len(),
{
}

/// Adding typed text to the last edit does not change what undoing it gives.
proof fn lemma_coalescing_keeps_past(line: LineView, with: Seq<char>)
    requires
        line.wf(),
        line.coalesces(Range { start: line.position, end: line.position }, with),
    ensures
        ({
            let r = Range { start: line.position, end: line.position };
            let last = line.past.last();
            past_leads_to(
                splice(line.text, r, with),
                line.past.drop_last().push(EditView { replacement: last.replacement + with, ..last }),
            )
        }),
{
    let r = Range { start: line.position, end: line.position };
    let last = line.past.last();
    let longer = EditView { replacement: last.replacement + with, ..last };
    let text = splice(line.text, r, with);
    assert(splice(text, longer.covered(), longer.old) =~= splice(
        line.text,
        last.covered(),
        last.old,
    ));
    assert(part(text, longer.covered()) =~= longer.replacement) by {
        assert(part(line.text, last.covered()) == last.replacement);
        assert forall|i: int| 0 <= i < last.replacement.len() implies part(
            text,
            longer.covered(),
        )[i] == last.replacement[i] by {
            assert(part(line.text, last.covered())[i] == last.replacement[i]);
        }
    }
    assert(line.past.drop_last().push(longer).drop_last() =~= line.past.drop_last());
}

} // verus!

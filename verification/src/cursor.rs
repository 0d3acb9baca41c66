//! The commands that move the cursor.

use crate::action::{Action, ActionView};
use crate::command::ReadlineCmd;
use crate::data::{DataView, EditableLineTag, JumpDirection, JumpPrecision, ReaderData};
use crate::flags::Flag;
use crate::motion::{bracket_landing, bracket_partner, leading, MoveWordDir};
use crate::pager::SelectionMotion;
use crate::text::{
    at, char_at, copy_text, extent, inside, line_end, line_range, line_start, opt_int,
    range_of_line_at_cursor, subtext, text_len, wide,
};
use std::ops::Range;
use vstd::prelude::*;

verus! {

/// How much of the autosuggestion is accepted.
#[derive(Clone, Copy, PartialEq, Eq, Structural, Debug)]
pub enum AutosuggestionPortion {
    /// Everything.
    All,
    /// That many characters.
    Count(usize),
    /// The next word.
    Word,
}

/// Where the token at a position lies, where the one before it lies, and where the command
/// substitution begins that surrounds the earlier token.
pub struct TokenExtent {
    pub token: Range<usize>,
    pub previous: Range<usize>,
    pub previous_cmdsub_start: usize,
}

#[verifier::ext_equal]
pub struct TokenView {
    pub token: Range<int>,
    pub previous: Range<int>,
    pub previous_cmdsub_start: int,
}

impl View for TokenExtent {
    type V = TokenView;

    open spec fn view(&self) -> TokenView {
        TokenView {
            token: extent(self.token),
            previous: extent(self.previous),
            previous_cmdsub_start: self.previous_cmdsub_start as int,
        }
    }
}

impl TokenView {
    pub open spec fn inside(self, len: int) -> bool {
        &&& inside(self.token, len)
        &&& inside(self.previous, len)
        &&& 0 <= self.previous_cmdsub_start <= len
    }
}

/// A token of the command substitution at the cursor, with its end counted from the beginning of
/// the substitution.
#[derive(Clone, Copy, PartialEq, Eq, Structural, Debug)]
pub struct LexedToken {
    pub is_string: bool,
    pub end: usize,
}

/// The end of the first string token that ends behind `pos`.
pub open spec fn next_token_end(tokens: Seq<LexedToken>, start: int, pos: int) -> Option<int>
    decreases tokens.len(),
{
    if tokens.len() == 0 {
        None
    } else if tokens[0].is_string && start + tokens[0].end > pos {
        Some(start + tokens[0].end)
    } else {
        next_token_end(tokens.skip(1), start, pos)
    }
}

pub const SPACES_PER_INDENT: i32 = 4;

/// The indentation at an offset; behind the end, that of the last character.
pub open spec fn indent_at(indents: Seq<i32>, pos: int) -> int {
    if pos < indents.len() {
        indents[pos] as int
    } else {
        indents[indents.len() - 1] as int
    }
}

/// Where a motion by one line leads: to the same column as it is shown, as far as the line goes.
pub open spec fn vertical_target(text: Seq<char>, pos: int, up: bool, indents: Seq<i32>) -> Option<int> {
    let here = line_range(text, pos);
    if up && here.start == 0 || !up && here.end == text.len() {
        None
    } else {
        let there = if up {
            line_range(text, here.start - 1)
        } else {
            line_range(text, here.end + 1)
        };
        let column = pos - here.start - SPACES_PER_INDENT * (indent_at(indents, there.start)
            - indent_at(indents, here.start));
        Some(
            if column < 0 {
                there.start
            } else if there.start + column > there.end {
                there.end
            } else {
                there.start + column
            },
        )
    }
}

pub open spec fn opening_bracket(c: char) -> bool {
    c == '(' || c == '[' || c == '{'
}

pub open spec fn closing_bracket(c: char) -> bool {
    c == ')' || c == ']' || c == '}'
}

/// The bracket from which a jump to its partner starts: the one at the cursor, or next to it for a
/// jump that stops short of the partner.
pub open spec fn bracket_at_cursor(s: Seq<char>, cursor: int, till: bool) -> Option<int> {
    if opening_bracket(at(s, cursor)) || closing_bracket(at(s, cursor)) {
        Some(cursor)
    } else if till && cursor > 0 && opening_bracket(at(s, cursor - 1)) {
        Some(cursor - 1)
    } else if till && cursor < s.len() && closing_bracket(at(s, cursor + 1)) {
        Some(cursor + 1)
    } else {
        None
    }
}

pub open spec fn opening_of(c: char) -> char {
    if c == '(' || c == ')' {
        '('
    } else if c == '[' || c == ']' {
        '['
    } else {
        '{'
    }
}

pub open spec fn closing_of(c: char) -> char {
    if c == '(' || c == ')' {
        ')'
    } else if c == '[' || c == ']' {
        ']'
    } else {
        '}'
    }
}

pub open spec fn closing_brackets() -> Seq<char> {
    seq![')', ']', '}']
}

impl DataView {
    pub open spec fn selecting(self, motion: SelectionMotion) -> DataView {
        self.queued(ActionView::MoveSelection { motion, force: false })
    }

    pub open spec fn at_line_beginning(self) -> DataView {
        let line = self.active_line();
        let start = line_start(line.text, line.position);
        if start == line.position {
            self
        } else {
            self.moved(self.active_tag(), Some(start))
        }
    }

    /// What accepting a portion of the suggestion replaces, and by what.
    pub open spec fn accepted_edit(self, amount: AutosuggestionPortion, word: Seq<bool>) -> Option<
        (Range<int>, Seq<char>),
    > {
        let s = self.autosuggestion;
        let have = s.range.end - s.range.start;
        let at_end = Range { start: s.range.end, end: s.range.end };
        let available = s.text.len() - have;
        match amount {
            AutosuggestionPortion::All => Some((s.range, s.text)),
            AutosuggestionPortion::Count(count) => {
                let n = if count <= available {
                    count as int
                } else {
                    available
                };
                if n == 0 {
                    None
                } else {
                    Some((at_end, s.text.subrange(have, have + n)))
                }
            },
            AutosuggestionPortion::Word => Some(
                (at_end, s.text.subrange(have, have + leading(word, available))),
            ),
        }
    }

    /// The suggestion, or a portion of it, accepted. This closes the pager.
    pub open spec fn suggestion_accepted(
        self,
        amount: AutosuggestionPortion,
        word: Seq<bool>,
    ) -> DataView {
        match self.accepted_edit(amount, word) {
            Some((r, with)) => self.pager_cleared().replaced(EditableLineTag::Commandline, r, with),
            None => self.pager_cleared(),
        }
    }

    pub open spec fn at_line_finish(self) -> DataView {
        let line = self.active_line();
        let end = line_end(line.text, line.position);
        if self.at_suggestion() {
            self.suggestion_accepted(AutosuggestionPortion::All, Seq::empty())
        } else if self.at_end() || end == line.position {
            self
        } else {
            self.moved(self.active_tag(), Some(end))
        }
    }

    pub open spec fn one_char_back(self) -> DataView {
        let line = self.active_line();
        if self.navigating() {
            self.selecting(SelectionMotion::West)
        } else if line.position != 0 {
            self.moved(self.active_tag(), Some(line.position - 1))
        } else {
            self
        }
    }

    pub open spec fn one_char_back_passively(self) -> DataView {
        let line = self.active_line();
        if line.position != 0 && (self.active_tag() == EditableLineTag::SearchField
            || !self.navigating()) {
            self.moved(self.active_tag(), Some(line.position - 1))
        } else {
            self
        }
    }

    pub open spec fn one_char_forward(self, amount: AutosuggestionPortion) -> DataView {
        if self.navigating() {
            self.selecting(SelectionMotion::East)
        } else if self.at_suggestion() {
            self.suggestion_accepted(amount, Seq::empty())
        } else if !self.at_end() {
            self.moved(self.active_tag(), Some(self.active_line().position + 1))
        } else {
            self
        }
    }

    pub open spec fn one_char_forward_passively(self) -> DataView {
        if !self.at_end() && (self.active_tag() == EditableLineTag::SearchField
            || !self.navigating()) {
            self.moved(self.active_tag(), Some(self.active_line().position + 1))
        } else {
            self
        }
    }

    /// Where a motion backwards by a token leads: to the beginning of the token at the cursor, or
    /// of the one before if the cursor is there already.
    pub open spec fn token_back(self, t: TokenView) -> Option<int> {
        let pos = self.active_line().position;
        if pos == 0 {
            None
        } else if t.token.start != pos {
            Some(t.token.start)
        } else if t.previous.start != pos {
            Some(t.previous.start)
        } else if t.previous_cmdsub_start > 0 {
            Some(t.previous_cmdsub_start - 1)
        } else {
            Some(0)
        }
    }

    /// The length of the active line, with the suggestion where that is asked for.
    pub open spec fn shown_len(self, with_suggestion: bool) -> int {
        let s = self.autosuggestion;
        self.active_line().text.len() + if with_suggestion {
            s.text.len() - (s.range.end - s.range.start)
        } else {
            0
        }
    }

    /// Where a motion forward by a token leads: to the end of the next token.
    pub open spec fn token_forward(
        self,
        with_suggestion: bool,
        start: int,
        tokens: Seq<LexedToken>,
    ) -> Option<int> {
        let line = self.active_line();
        if line.position == self.shown_len(with_suggestion) {
            None
        } else {
            match next_token_end(tokens, start, line.position) {
                Some(end) => Some(end),
                None => Some(line.text.len() as int),
            }
        }
    }

    pub open spec fn one_token_back(self, t: TokenView) -> DataView {
        match self.token_back(t) {
            Some(p) => self.moved(self.active_tag(), Some(p)),
            None => self,
        }
    }

    pub open spec fn one_token_forward(self, start: int, tokens: Seq<LexedToken>) -> DataView {
        let line = self.active_line();
        if self.at_suggestion() {
            match self.token_forward(true, start, tokens) {
                Some(p) => self.suggestion_accepted(
                    AutosuggestionPortion::Count((p - line_end(line.text, line.position)) as usize),
                    Seq::empty(),
                ),
                None => self,
            }
        } else if !self.at_end() {
            match self.token_forward(false, start, tokens) {
                Some(p) => self.moved(self.active_tag(), Some(p)),
                None => self,
            }
        } else {
            self
        }
    }

    /// With nothing on the command line, a command is run and the prompt repainted.
    pub open spec fn directory_changed(self, cmd: Seq<char>) -> DataView {
        self.queued(ActionView::EvalBind(cmd)).with_flag(
            Flag::ForceExecPromptAndRepaint,
            true,
        ).queued(ActionView::QueueReadline(ReadlineCmd::Repaint))
    }

    pub open spec fn one_word_back(self, word: Seq<bool>) -> DataView {
        self.word_moved(self.active_tag(), MoveWordDir::Left, false, word, false)
    }

    pub open spec fn one_word_forward(self, word: Seq<bool>) -> DataView {
        if self.at_suggestion() {
            self.suggestion_accepted(AutosuggestionPortion::Word, word)
        } else if !self.at_end() {
            self.word_moved(self.active_tag(), MoveWordDir::Right, false, word, false)
        } else {
            self
        }
    }

    pub open spec fn one_line_moved(
        self,
        up: bool,
        selection_at_top: bool,
        indents: Seq<i32>,
    ) -> DataView {
        let line = self.active_line();
        if self.navigating() {
            self.selecting(
                if !up {
                    SelectionMotion::South
                } else if selection_at_top {
                    SelectionMotion::Deselect
                } else {
                    SelectionMotion::North
                },
            )
        } else if !self.pager.is_empty() {
            self.selecting(
                if up {
                    SelectionMotion::North
                } else {
                    SelectionMotion::South
                },
            )
        } else {
            match vertical_target(line.text, line.position, up, indents) {
                Some(p) => self.moved(self.active_tag(), Some(p)),
                None => self,
            }
        }
    }

    /// A jump to a target, remembered and reported.
    pub open spec fn jump_reported(
        self,
        direction: JumpDirection,
        precision: JumpPrecision,
        target: char,
        skip_till: bool,
    ) -> DataView {
        let elt = self.active_tag();
        let noted = self.jump_remembered(direction, precision, target);
        let ok = noted.jump_target_pos(direction, precision, elt, seq![target], skip_till) is Some;
        noted.jumped(direction, precision, elt, seq![target], skip_till).queued(
            ActionView::FunctionStatus(ok),
        )
    }

    /// The last jump done again, possibly in the other direction. What is remembered of it stays.
    pub open spec fn jump_repeated(self, reverse: bool) -> DataView {
        let direction = if !reverse {
            self.jump_direction
        } else if self.jump_direction == JumpDirection::Forward {
            JumpDirection::Backward
        } else {
            JumpDirection::Forward
        };
        match self.jump_target {
            Some(target) => {
                let elt = self.active_tag();
                let noted = self.jump_remembered(direction, self.jump_precision, target);
                let ok = noted.jump_target_pos(
                    direction,
                    self.jump_precision,
                    elt,
                    seq![target],
                    true,
                ) is Some;
                DataView {
                    jump_direction: self.jump_direction,
                    ..noted.jumped(direction, self.jump_precision, elt, seq![target], true)
                }.queued(ActionView::FunctionStatus(ok))
            },
            None => self.queued(ActionView::FunctionStatus(false)),
        }
    }

    /// A jump to the bracket that belongs to the one at the cursor, or to the next closing bracket.
    pub open spec fn bracket_jumped(self, precision: JumpPrecision) -> DataView {
        let elt = self.active_tag();
        let line = self.active_line();
        let till = precision == JumpPrecision::Till;
        match bracket_at_cursor(line.text, line.position, till) {
            Some(from) => {
                let c = at(line.text, from);
                match bracket_partner(line.text, opening_of(c), closing_of(c), from, 0) {
                    Some(to) => {
                        let landing = bracket_landing(from, to, precision);
                        self.moved(elt, Some(landing)).queued(
                            ActionView::FunctionStatus(self.can_move(elt, Some(landing))),
                        )
                    },
                    None => self.queued(ActionView::FunctionStatus(false)),
                }
            },
            None => {
                let ok = self.jump_target_pos(
                    JumpDirection::Forward,
                    precision,
                    elt,
                    closing_brackets(),
                    false,
                ) is Some;
                self.jumped(JumpDirection::Forward, precision, elt, closing_brackets(), false).queued(
                    ActionView::FunctionStatus(ok),
                )
            },
        }
    }
}

fn find_next_token_end(tokens: &Vec<LexedToken>, start: usize, pos: usize) -> (r: Option<usize>)
    requires
        forall|i: int|
            #![trigger tokens@[i]]
            0 <= i < tokens@.len() ==> start + tokens@[i].end <= usize::MAX,
    ensures
        opt_int(r) == next_token_end(tokens@, start as int, pos as int),
        r matches Some(end) ==> exists|i: int|
            #![trigger tokens@[i]]
            0 <= i < tokens@.len() && end == start + tokens@[i].end && end > pos,
{
    let mut i: usize = 0;
    assert(tokens@.skip(0) =~= tokens@);
    while i < tokens.len()
        invariant
            i <= tokens@.len(),
            forall|i: int|
                #![trigger tokens@[i]]
                0 <= i < tokens@.len() ==> start + tokens@[i].end <= usize::MAX,
            next_token_end(tokens@, start as int, pos as int) == next_token_end(
                tokens@.skip(i as int),
                start as int,
                pos as int,
            ),
        decreases tokens@.len() - i,
    {
        let t = tokens[i];
        assert(tokens@.skip(i as int)[0] == t);
        assert(tokens@.skip(i as int).skip(1) =~= tokens@.skip(i + 1));
        if t.is_string && start + t.end > pos {
            return Some(start + t.end);
        }
        i += 1;
    }
    None
}

fn find_vertical_target(text: &Vec<char>, pos: usize, up: bool, indents: &Vec<i32>) -> (r: Option<
    usize,
>)
    requires
        pos <= text@.len(),
        text@.len() <= isize::MAX,
        indents@.len() == text@.len(),
    ensures
        opt_int(r) == vertical_target(text@, pos as int, up, indents@),
        r matches Some(p) ==> p <= text@.len(),
{
    let here = range_of_line_at_cursor(text, pos);
    if up && here.start == 0 || !up && here.end == text.len() {
        return None;
    }
    let there = if up {
        range_of_line_at_cursor(text, here.start - 1)
    } else {
        range_of_line_at_cursor(text, here.end + 1)
    };
    let last: usize = indents.len() - 1;
    let indent_old = indents[if here.start < last {
        here.start
    } else {
        last
    }];
    let indent_new = indents[if there.start < last {
        there.start
    } else {
        last
    }];
    let column: i128 = (pos - here.start) as i128 - SPACES_PER_INDENT as i128 * (indent_new as i128
        - indent_old as i128);
    if column < 0 {
        return Some(there.start);
    }
    if there.start as i128 + column > there.end as i128 {
        return Some(there.end);
    }
    Some(there.start + column as usize)
}

impl ReaderData {
    pub(crate) fn select_completion_in_direction(&mut self, motion: SelectionMotion)
        requires
            old(self)@.wf(),
        ensures
            final(self)@ == old(self)@.selecting(motion),
            final(self)@.wf(),
    {
        self.queue(Action::MoveSelection { motion, force: false });
    }

    pub(crate) fn set_function_status(&mut self, ok: bool)
        requires
            old(self)@.wf(),
        ensures
            final(self)@ == old(self)@.queued(ActionView::FunctionStatus(ok)),
            final(self)@.wf(),
    {
        self.queue(Action::FunctionStatus(ok));
    }

    /// Go to the beginning of the line.
    pub fn beginning_of_line(&mut self)
        requires
            old(self)@.wf(),
        ensures
            final(self)@ == old(self)@.at_line_beginning(),
            final(self)@.wf(),
            final(self)@.active_tag() == old(self)@.active_tag(),
    {
        let (elt, el) = self.active_edit_line();
        let position = el.position;
        let range = range_of_line_at_cursor(&el.text, position);
        if range.start != position {
            self.update_buff_pos(elt, Some(range.start));
        }
    }

    /// Accept any autosuggestion, or a portion of it, by replacing the line with it. `word` tells
    /// for each character of the part that is not typed yet whether it belongs to the next word.
    pub fn accept_autosuggestion(&mut self, amount: AutosuggestionPortion, word: &[bool])
        requires
            old(self)@.wf(),
            old(self)@.at_line_with_suggestion(),
        ensures
            final(self)@ == old(self)@.suggestion_accepted(amount, word@),
            final(self)@.wf(),
    {
        // Accepting an autosuggestion clears the pager.
        self.clear_pager();
        let range = &self.autosuggestion.search_string_range;
        let text = &self.autosuggestion.text;
        let start = range.start;
        let end = range.end;
        let have: usize = end - start;
        let available: usize = text.len() - have;
        let (from, replacement) = match amount {
            AutosuggestionPortion::All => (start, copy_text(text)),
            AutosuggestionPortion::Count(count) => {
                let n: usize = if count <= available {
                    count
                } else {
                    available
                };
                if n == 0 {
                    return;
                }
                (end, subtext(text, have, have + n))
            },
            AutosuggestionPortion::Word => {
                // Accept characters according to the specified style.
                let n = crate::motion::count_leading(word, available);
                (end, subtext(text, have, have + n))
            },
        };
        self.replace_substring(EditableLineTag::Commandline, from..end, replacement);
    }

    /// Go to the end of the line, or accept the autosuggestion that is shown there.
    pub fn end_of_line(&mut self)
        requires
            old(self)@.wf(),
            old(self)@.at_suggestion() ==> old(self)@.at_line_with_suggestion(),
        ensures
            final(self)@ == old(self)@.at_line_finish(),
            final(self)@.wf(),
    {
        if self.is_at_autosuggestion() {
            self.accept_autosuggestion(AutosuggestionPortion::All, &[]);
        } else if !self.is_at_end() {
            let (elt, el) = self.active_edit_line();
            let position = el.position;
            let range = range_of_line_at_cursor(&el.text, position);
            if range.end != position {
                self.update_buff_pos(elt, Some(range.end));
            }
        }
    }

    pub fn backward_char(&mut self)
        requires
            old(self)@.wf(),
        ensures
            final(self)@ == old(self)@.one_char_back(),
            final(self)@.wf(),
    {
        let (elt, el) = self.active_edit_line();
        let position = el.position;
        if self.is_navigating_pager_contents() {
            self.select_completion_in_direction(SelectionMotion::West);
        } else if position != 0 {
            self.update_buff_pos(elt, Some(position - 1));
        }
    }

    pub fn backward_char_passive(&mut self)
        requires
            old(self)@.wf(),
        ensures
            final(self)@ == old(self)@.one_char_back_passively(),
            final(self)@.wf(),
    {
        let (elt, el) = self.active_edit_line();
        let position = el.position;
        if position != 0 {
            if elt == EditableLineTag::SearchField || !self.is_navigating_pager_contents() {
                self.update_buff_pos(elt, Some(position - 1));
            }
        }
    }

    pub fn forward_char(&mut self, amount: AutosuggestionPortion)
        requires
            old(self)@.wf(),
            old(self)@.at_suggestion() ==> old(self)@.at_line_with_suggestion(),
        ensures
            final(self)@ == old(self)@.one_char_forward(amount),
            final(self)@.wf(),
    {
        if self.is_navigating_pager_contents() {
            self.select_completion_in_direction(SelectionMotion::East);
        } else if self.is_at_autosuggestion() {
            self.accept_autosuggestion(amount, &[]);
        } else if !self.is_at_end() {
            let (elt, el) = self.active_edit_line();
            let position = el.position;
            self.update_buff_pos(elt, Some(position + 1));
        }
    }

    pub fn forward_char_passive(&mut self)
        requires
            old(self)@.wf(),
        ensures
            final(self)@ == old(self)@.one_char_forward_passively(),
            final(self)@.wf(),
    {
        if !self.is_at_end() {
            let (elt, el) = self.active_edit_line();
            let position = el.position;
            if elt == EditableLineTag::SearchField || !self.is_navigating_pager_contents() {
                self.update_buff_pos(elt, Some(position + 1));
            }
        }
    }

    /// Where a motion backwards by a token leads.
    pub fn backward_token(&self, t: &TokenExtent) -> (r: Option<usize>)
        requires
            self@.wf(),
        ensures
            opt_int(r) == self@.token_back(t@),
    {
        let (_elt, el) = self.active_edit_line();
        let pos = el.position;
        if pos == 0 {
            return None;
        }
        // If we are at the start of a token, go back one.
        if t.token.start == pos {
            if t.previous.start == pos {
                if t.previous_cmdsub_start > 0 {
                    Some(t.previous_cmdsub_start - 1)
                } else {
                    Some(0)
                }
            } else {
                Some(t.previous.start)
            }
        } else {
            Some(t.token.start)
        }
    }

    /// Where a motion forward by a token leads, in the active line or in what is shown of it with
    /// the autosuggestion. `tokens` are those of the command substitution at the cursor, which
    /// begins at `cmdsub_start`.
    pub fn forward_token(
        &self,
        autosuggest: bool,
        cmdsub_start: usize,
        tokens: &Vec<LexedToken>,
    ) -> (r: Option<usize>)
        requires
            self@.wf(),
            autosuggest ==> self@.at_line_with_suggestion(),
            forall|i: int|
                #![trigger tokens@[i]]
                0 <= i < tokens@.len() ==> cmdsub_start + tokens@[i].end <= self@.shown_len(
                    autosuggest,
                ),
        ensures
            opt_int(r) == self@.token_forward(autosuggest, cmdsub_start as int, tokens@),
            r matches Some(p) ==> p <= self@.shown_len(autosuggest) && (p
                > self@.active_line().position || p == self@.active_line().text.len()),
    {
        let (_elt, el) = self.active_edit_line();
        let pos = el.position;
        let range = &self.autosuggestion.search_string_range;
        let more: usize = if autosuggest {
            text_len(&self.autosuggestion.text) - (range.end - range.start)
        } else {
            0
        };
        let len = text_len(&el.text);
        if pos == len + more {
            return None;
        }
        match find_next_token_end(tokens, cmdsub_start, pos) {
            Some(end) => Some(end),
            None => Some(el.len()),
        }
    }

    pub fn backward_token_cmd(&mut self, t: &TokenExtent)
        requires
            old(self)@.wf(),
            t@.inside(old(self)@.active_line().text.len() as int),
        ensures
            final(self)@ == old(self)@.one_token_back(t@),
            final(self)@.wf(),
    {
        if let Some(p) = self.backward_token(t) {
            let elt = self.active_edit_line_tag();
            self.update_buff_pos(elt, Some(p));
        }
    }

    pub fn forward_token_cmd(&mut self, cmdsub_start: usize, tokens: &Vec<LexedToken>)
        requires
            old(self)@.wf(),
            old(self)@.at_suggestion() ==> old(self)@.at_line_with_suggestion(),
            forall|i: int|
                #![trigger tokens@[i]]
                0 <= i < tokens@.len() ==> cmdsub_start + tokens@[i].end <= old(self)@.shown_len(
                    old(self)@.at_suggestion(),
                ),
        ensures
            final(self)@ == old(self)@.one_token_forward(cmdsub_start as int, tokens@),
            final(self)@.wf(),
    {
        if self.is_at_autosuggestion() {
            if let Some(p) = self.forward_token(true, cmdsub_start, tokens) {
                let (_elt, el) = self.active_edit_line();
                let range = range_of_line_at_cursor(&el.text, el.position);
                let count: usize = p - range.end;
                self.accept_autosuggestion(AutosuggestionPortion::Count(count), &[]);
            }
        } else if !self.is_at_end() {
            if let Some(p) = self.forward_token(false, cmdsub_start, tokens) {
                let elt = self.active_edit_line_tag();
                self.update_buff_pos(elt, Some(p));
            }
        }
    }

    fn change_directory(&mut self, cmd: &str)
        requires
            old(self)@.wf(),
        ensures
            final(self)@ == old(self)@.directory_changed(cmd@),
            final(self)@.wf(),
    {
        self.queue(Action::EvalBind(wide(cmd)));
        self.flags.set(Flag::ForceExecPromptAndRepaint, true);
        self.queue(Action::QueueReadline(ReadlineCmd::Repaint));
    }

    /// Go back in the directory history if the command line is empty, else back by a word.
    pub fn prevd_or_backward_word(&mut self, word: &[bool])
        requires
            old(self)@.wf(),
        ensures
            final(self)@ == if old(self)@.command_line.text.len() == 0 {
                old(self)@.directory_changed("prevd"@)
            } else {
                old(self)@.one_word_back(word@)
            },
            final(self)@.wf(),
    {
        if self.command_line.is_empty() {
            self.change_directory("prevd");
        } else {
            self.backward_word(word);
        }
    }

    /// Go forward in the directory history if the command line is empty, else forward by a word.
    pub fn nextd_or_forward_word(&mut self, word: &[bool])
        requires
            old(self)@.wf(),
            old(self)@.at_suggestion() ==> old(self)@.at_line_with_suggestion(),
        ensures
            final(self)@ == if old(self)@.command_line.text.len() == 0 {
                old(self)@.directory_changed("nextd"@)
            } else {
                old(self)@.one_word_forward(word@)
            },
            final(self)@.wf(),
    {
        if self.command_line.is_empty() {
            self.change_directory("nextd");
        } else {
            self.forward_word(word);
        }
    }

    pub fn backward_word(&mut self, word: &[bool])
        requires
            old(self)@.wf(),
        ensures
            final(self)@ == old(self)@.one_word_back(word@),
            final(self)@.wf(),
    {
        let elt = self.active_edit_line_tag();
        self.move_word(elt, MoveWordDir::Left, false, word, false);
    }

    /// Go forward by a word, accepting it from the autosuggestion if the cursor is there.
    pub fn forward_word(&mut self, word: &[bool])
        requires
            old(self)@.wf(),
            old(self)@.at_suggestion() ==> old(self)@.at_line_with_suggestion(),
        ensures
            final(self)@ == old(self)@.one_word_forward(word@),
            final(self)@.wf(),
    {
        if self.is_at_autosuggestion() {
            self.accept_autosuggestion(AutosuggestionPortion::Word, word);
        } else if !self.is_at_end() {
            let elt = self.active_edit_line_tag();
            self.move_word(elt, MoveWordDir::Right, false, word, false);
        }
    }

    /// Go up or down by a line, in the pager if it is open.
    pub fn up_or_down_line(&mut self, up: bool, selection_at_top: bool, indents: &Vec<i32>)
        requires
            old(self)@.wf(),
            !old(self)@.navigating() && old(self)@.pager.is_empty() ==> indents@.len()
                == old(self)@.active_line().text.len(),
        ensures
            final(self)@ == old(self)@.one_line_moved(up, selection_at_top, indents@),
            final(self)@.wf(),
    {
        if self.is_navigating_pager_contents() {
            // We are already navigating pager contents.
            let direction = if !up {
                // Down arrow is always south.
                SelectionMotion::South
            } else if selection_at_top {
                // Up arrow, but we are in the first column and first row. End navigation.
                SelectionMotion::Deselect
            } else {
                // Up arrow, go north.
                SelectionMotion::North
            };
            // Now do the selection.
            self.select_completion_in_direction(direction);
        } else if !self.pager.is_empty() {
            // We pressed a direction with a non-empty pager, begin navigation.
            self.select_completion_in_direction(
                if up {
                    SelectionMotion::North
                } else {
                    SelectionMotion::South
                },
            );
        } else {
            // Not navigating the pager contents.
            let (elt, el) = self.active_edit_line();
            let target = find_vertical_target(&el.text, el.position, up, indents);
            if target.is_some() {
                self.update_buff_pos(elt, target);
            }
        }
    }

    /// Jump to a character, and report whether there is one.
    pub fn jump_to_char(
        &mut self,
        direction: JumpDirection,
        precision: JumpPrecision,
        target: char,
    )
        requires
            old(self)@.wf(),
        ensures
            final(self)@ == old(self)@.jump_reported(direction, precision, target, false),
            final(self)@.wf(),
    {
        let elt = self.active_edit_line_tag();
        let success = self.jump_and_remember_last_jump(direction, precision, elt, target, false);
        self.set_function_status(success);
    }

    /// Do the last jump again, possibly in the other direction.
    pub fn repeat_jump(&mut self, reverse: bool)
        requires
            old(self)@.wf(),
        ensures
            final(self)@ == old(self)@.jump_repeated(reverse),
            final(self)@.wf(),
    {
        let elt = self.active_edit_line_tag();
        let mut success = false;
        let original_dir = self.last_jump_direction;
        let dir = if !reverse {
            original_dir
        } else if original_dir == JumpDirection::Forward {
            JumpDirection::Backward
        } else {
            JumpDirection::Forward
        };
        if let Some(target) = self.last_jump_target {
            let precision = self.last_jump_precision;
            success = self.jump_and_remember_last_jump(dir, precision, elt, target, true);
        }
        self.last_jump_direction = original_dir;
        self.set_function_status(success);
    }

    /// Jump to the bracket that belongs to the one at the cursor. If we stand on a non-bracket
    /// character, we prefer to jump forward.
    pub fn jump_to_bracket(&mut self, precision: JumpPrecision)
        requires
            old(self)@.wf(),
        ensures
            final(self)@ == old(self)@.bracket_jumped(precision),
            final(self)@.wf(),
    {
        let (elt, el) = self.active_edit_line();
        let cursor = el.position;
        let till = precision == JumpPrecision::Till;
        let here = char_at(&el.text, cursor);
        let jump_from_pos: Option<usize> = if is_opening(here) || is_closing(here) {
            Some(cursor)
        } else if till && cursor > 0 && is_opening(char_at(&el.text, cursor - 1)) {
            Some(cursor - 1)
        } else if till && cursor < el.len() && is_closing(char_at(&el.text, cursor + 1)) {
            Some(cursor + 1)
        } else {
            None
        };
        assert(opt_int(jump_from_pos) == bracket_at_cursor(el@.text, cursor as int, till));
        let success = match jump_from_pos {
            Some(from) => {
                let c = char_at(&el.text, from);
                let (l_bracket, r_bracket) = if c == '(' || c == ')' {
                    ('(', ')')
                } else if c == '[' || c == ']' {
                    ('[', ']')
                } else {
                    ('{', '}')
                };
                self.jump_to_matching_bracket(precision, elt, from, l_bracket, r_bracket)
            },
            None => {
                let mut targets: Vec<char> = Vec::new();
                targets.push(')');
                targets.push(']');
                targets.push('}');
                assert(targets@ =~= closing_brackets());
                self.jump(JumpDirection::Forward, precision, elt, targets, false)
            },
        };
        self.set_function_status(success);
    }
}

fn is_opening(c: char) -> (r: bool)
    ensures
        r == opening_bracket(c),
{
    c == '(' || c == '[' || c == '{'
}

fn is_closing(c: char) -> (r: bool)
    ensures
        r == closing_bracket(c),
{
    c == ')' || c == ']' || c == '}'
}

} // verus!

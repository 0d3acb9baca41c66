//! Moving the cursor and deleting by characters, words, tokens and lines.

use crate::data::{DataView, EditableLineTag, JumpDirection, JumpPrecision, Kill, ReaderData};
use crate::flags::Flag;
use crate::text::{contains_char, opt_int};
use std::ops::Range;
use vstd::prelude::*;

verus! {

#[derive(Clone, Copy, PartialEq, Eq, Structural, Debug)]
pub enum MoveWordDir {
    Left,
    Right,
}

/// What makes up a word.
#[derive(Clone, Copy, PartialEq, Eq, Structural, Debug)]
pub enum MoveWordStyle {
    /// A word ends at punctuation.
    Punctuation,
    /// A word is a component of a path.
    PathComponents,
    /// A word ends at whitespace.
    Whitespace,
}

/// Where deletion backwards from `pos` begins: composed character sequences go as a whole, so it
/// goes on until it meets a character of nonzero width.
pub open spec fn composed_start(widths: Seq<i32>, pos: int) -> int
    decreases pos,
{
    if pos <= 1 || widths[pos - 1] != 0 {
        pos - 1
    } else {
        composed_start(widths, pos - 1)
    }
}

/// How many of the answers are affirmative before the first that is not.
pub open spec fn leading(answers: Seq<bool>, limit: int) -> int
    decreases limit,
{
    if limit <= 0 || answers.len() == 0 || !answers[0] {
        0
    } else {
        1 + leading(answers.skip(1), limit - 1)
    }
}

/// The nearest position before `pos` that holds one of the targets.
pub open spec fn last_target_before(s: Seq<char>, targets: Seq<char>, pos: int) -> Option<int>
    decreases pos,
{
    if pos <= 0 {
        None
    } else if targets.contains(s[pos - 1]) {
        Some(pos - 1)
    } else {
        last_target_before(s, targets, pos - 1)
    }
}

/// The nearest position at or behind `pos` that holds one of the targets.
pub open spec fn first_target_from(s: Seq<char>, targets: Seq<char>, pos: int) -> Option<int>
    decreases s.len() - pos,
{
    if pos < 0 || pos >= s.len() {
        None
    } else if targets.contains(s[pos]) {
        Some(pos)
    } else {
        first_target_from(s, targets, pos + 1)
    }
}

/// Where a jump lands: on the nearest target, or next to it on the near side.
pub open spec fn jump_landing(
    s: Seq<char>,
    position: int,
    direction: JumpDirection,
    precision: JumpPrecision,
    targets: Seq<char>,
    skip_till: bool,
) -> Option<int> {
    let till = precision == JumpPrecision::Till;
    match direction {
        JumpDirection::Backward => {
            let from = if till && skip_till && position > 0 {
                position - 1
            } else {
                position
            };
            match last_target_before(s, targets, from) {
                Some(i) => Some(
                    if till && i + 1 < s.len() {
                        i + 1
                    } else {
                        i
                    },
                ),
                None => None,
            }
        },
        JumpDirection::Forward => {
            let from = if till && skip_till && position + 1 < s.len() - 1 {
                position + 2
            } else {
                position + 1
            };
            match first_target_from(s, targets, from) {
                Some(i) => Some(
                    if till {
                        i - 1
                    } else {
                        i
                    },
                ),
                None => None,
            }
        },
    }
}

/// The brackets that are still open before `pos`, outermost first.
pub open spec fn open_brackets(s: Seq<char>, l: char, r: char, pos: int) -> Seq<int>
    decreases pos,
{
    if pos <= 0 {
        Seq::empty()
    } else {
        let before = open_brackets(s, l, r, pos - 1);
        if s[pos - 1] == l {
            before.push(pos - 1)
        } else if s[pos - 1] == r && before.len() > 0 {
            before.drop_last()
        } else {
            before
        }
    }
}

/// The position of the bracket that belongs to the one at `from`, among the pairs that are closed
/// at or behind `at`.
pub open spec fn bracket_partner(s: Seq<char>, l: char, r: char, from: int, at: int) -> Option<int>
    decreases s.len() - at,
{
    if at < 0 || at >= s.len() {
        None
    } else {
        let before = open_brackets(s, l, r, at);
        if s[at] != l && s[at] == r && before.len() > 0 && before.last() == from {
            Some(at)
        } else if s[at] != l && s[at] == r && before.len() > 0 && at == from {
            Some(before.last())
        } else {
            bracket_partner(s, l, r, from, at + 1)
        }
    }
}

/// Next to the bracket at `to`, on the side of `from`.
pub open spec fn bracket_landing(from: int, to: int, precision: JumpPrecision) -> int {
    match precision {
        JumpPrecision::To => to,
        JumpPrecision::Till => if to > from {
            to - 1
        } else {
            to + 1
        },
    }
}

impl DataView {
    /// The character before or at the cursor deleted, with the characters of no width that belong
    /// to it.
    pub open spec fn char_deleted(self, backward: bool, widths: Seq<i32>) -> DataView {
        let elt = self.active_tag();
        let pos = self.active_line().position;
        let end = if backward {
            pos
        } else {
            pos + 1
        };
        if pos == 0 && backward {
            self
        } else {
            self.with_flag(Flag::SuppressAutosuggestion, true).erased(
                elt,
                Range { start: composed_start(widths, end), end },
            ).moved(elt, None)
        }
    }

    /// How far a motion by a word goes: at least over one character.
    pub open spec fn word_distance(self, elt: EditableLineTag, dir: MoveWordDir, word: Seq<bool>) -> int {
        let line = self.line(elt);
        let room = match dir {
            MoveWordDir::Left => line.position,
            MoveWordDir::Right => line.text.len() - line.position,
        };
        let n = leading(word, room);
        if n == 0 {
            1
        } else {
            n
        }
    }

    pub open spec fn at_boundary(self, elt: EditableLineTag, dir: MoveWordDir) -> bool {
        let line = self.line(elt);
        match dir {
            MoveWordDir::Left => line.position == 0,
            MoveWordDir::Right => line.position == line.text.len(),
        }
    }

    /// The cursor moved by a word, or the word killed. `word` tells for each character in the
    /// direction of the motion whether it still belongs to the word.
    pub open spec fn word_moved(
        self,
        elt: EditableLineTag,
        dir: MoveWordDir,
        erase: bool,
        word: Seq<bool>,
        newv: bool,
    ) -> DataView {
        let pos = self.line(elt).position;
        let n = self.word_distance(elt, dir, word);
        if self.at_boundary(elt, dir) {
            self
        } else if erase {
            // Don't autosuggest after a kill.
            let quiet = if elt == EditableLineTag::Commandline {
                self.with_flag(Flag::SuppressAutosuggestion, true)
            } else {
                self
            };
            match dir {
                MoveWordDir::Right => quiet.killed(
                    elt,
                    Range { start: pos, end: pos + n },
                    Kill::Append,
                    newv,
                ),
                MoveWordDir::Left => quiet.killed(
                    elt,
                    Range { start: pos - n, end: pos },
                    Kill::Prepend,
                    newv,
                ),
            }
        } else {
            match dir {
                MoveWordDir::Right => self.moved(elt, Some(pos + n)),
                MoveWordDir::Left => self.moved(elt, Some(pos - n)),
            }
        }
    }

    pub open spec fn jump_target_pos(
        self,
        direction: JumpDirection,
        precision: JumpPrecision,
        elt: EditableLineTag,
        targets: Seq<char>,
        skip_till: bool,
    ) -> Option<int> {
        let line = self.line(elt);
        jump_landing(line.text, line.position, direction, precision, targets, skip_till)
    }

    pub open spec fn jumped(
        self,
        direction: JumpDirection,
        precision: JumpPrecision,
        elt: EditableLineTag,
        targets: Seq<char>,
        skip_till: bool,
    ) -> DataView {
        match self.jump_target_pos(direction, precision, elt, targets, skip_till) {
            Some(p) => self.moved(elt, Some(p)),
            None => self,
        }
    }

    pub open spec fn jump_remembered(
        self,
        direction: JumpDirection,
        precision: JumpPrecision,
        target: char,
    ) -> DataView {
        DataView {
            jump_target: Some(target),
            jump_direction: direction,
            jump_precision: precision,
            ..self
        }
    }
}

proof fn lemma_composed_start(widths: Seq<i32>, pos: int)
    requires
        1 <= pos,
    ensures
        0 <= composed_start(widths, pos) < pos,
    decreases pos,
{
    if pos > 1 && widths[pos - 1] == 0 {
        lemma_composed_start(widths, pos - 1);
    }
}

pub(crate) fn count_leading(answers: &[bool], limit: usize) -> (n: usize)
    ensures
        n == leading(answers@, limit as int),
        n <= limit,
{
    let mut n: usize = 0;
    assert(answers@.skip(0) =~= answers@);
    while n < limit && n < answers.len() && answers[n]
        invariant
            n <= limit,
            n <= answers@.len(),
            leading(answers@, limit as int) == n + leading(answers@.skip(n as int), limit - n),
        decreases limit - n,
    {
        assert(answers@.skip(n as int).skip(1) =~= answers@.skip(n + 1));
        n += 1;
    }
    n
}

fn find_last_target_before(text: &[char], targets: &[char], pos: usize) -> (r: Option<usize>)
    requires
        pos <= text@.len(),
    ensures
        opt_int(r) == last_target_before(text@, targets@, pos as int),
        r matches Some(i) ==> i < pos,
{
    let mut i: usize = pos;
    while i > 0
        invariant
            i <= pos <= text@.len(),
            last_target_before(text@, targets@, pos as int) == last_target_before(
                text@,
                targets@,
                i as int,
            ),
        decreases i,
    {
        i -= 1;
        if contains_char(targets, text[i]) {
            return Some(i);
        }
    }
    None
}

fn find_first_target_from(text: &[char], targets: &[char], pos: usize) -> (r: Option<usize>)
    ensures
        opt_int(r) == first_target_from(text@, targets@, pos as int),
        r matches Some(i) ==> pos <= i < text@.len(),
{
    let mut i: usize = pos;
    while i < text.len()
        invariant
            pos <= i,
            first_target_from(text@, targets@, pos as int) == first_target_from(
                text@,
                targets@,
                i as int,
            ),
        decreases text@.len() - i,
    {
        if contains_char(targets, text[i]) {
            return Some(i);
        }
        i += 1;
    }
    None
}

impl ReaderData {
    /// Remove the character before the cursor, or the one at the cursor. `widths` are the widths of
    /// the characters of the active line.
    pub fn delete_char(&mut self, backward: bool, widths: &[i32])
        requires
            old(self)@.wf(),
            widths@.len() == old(self)@.active_line().text.len(),
            !backward ==> old(self)@.active_line().position < old(self)@.active_line().text.len(),
        ensures
            final(self)@ == old(self)@.char_deleted(backward, widths@),
            final(self)@.wf(),
    {
        let elt = self.active_edit_line_tag();
        let position = self.edit_line(elt).position;
        if position == 0 && backward {
            return;
        }
        let end: usize = if backward {
            position
        } else {
            position + 1
        };
        proof {
            lemma_composed_start(widths@, end as int);
        }
        // Fake composed character sequences by continuing to delete until we delete a character of
        // width at least 1.
        let mut pos: usize = end - 1;
        while pos != 0 && widths[pos] == 0
            invariant
                pos < end <= widths@.len(),
                composed_start(widths@, end as int) == composed_start(widths@, pos + 1),
            decreases pos,
        {
            pos -= 1;
        }
        self.flags.set(Flag::SuppressAutosuggestion, true);
        self.erase_substring(elt, pos..end);
        self.update_buff_pos(elt, None);
    }

    /// Move the cursor one word or kill one word. `word` tells for each character in the direction
    /// of the motion whether it still belongs to the word.
    pub fn move_word(
        &mut self,
        elt: EditableLineTag,
        direction: MoveWordDir,
        erase: bool,
        word: &[bool],
        newv: bool,
    )
        requires
            old(self)@.wf(),
        ensures
            final(self)@ == old(self)@.word_moved(elt, direction, erase, word@, newv),
            final(self)@.wf(),
            !erase ==> final(self)@.active_tag() == old(self)@.active_tag(),
            !erase ==> final(self)@.differs_by_motion(old(self)@, elt),
            !erase && direction == MoveWordDir::Right ==> final(self)@.line(elt).position
                >= old(self)@.line(elt).position,
    {
        let el = self.edit_line(elt);
        let start = el.position;
        // Return if we are already at the edge.
        let room: usize = if direction == MoveWordDir::Right {
            el.len() - start
        } else {
            start
        };
        if room == 0 {
            return;
        }
        let mut n = count_leading(word, room);
        // Always consume at least one character.
        if n == 0 {
            n = 1;
        }
        if erase {
            // Don't autosuggest after a kill.
            if elt == EditableLineTag::Commandline {
                self.flags.set(Flag::SuppressAutosuggestion, true);
            }
            if direction == MoveWordDir::Right {
                self.kill(elt, start..start + n, Kill::Append, newv);
            } else {
                self.kill(elt, start - n..start, Kill::Prepend, newv);
            }
        } else if direction == MoveWordDir::Right {
            self.update_buff_pos(elt, Some(start + n));
        } else {
            self.update_buff_pos(elt, Some(start - n));
        }
    }

    /// Move the cursor to the next target, or next to it. Return false if there is none.
    pub fn jump(
        &mut self,
        direction: JumpDirection,
        precision: JumpPrecision,
        elt: EditableLineTag,
        targets: Vec<char>,
        skip_till: bool,
    ) -> (success: bool)
        requires
            old(self)@.wf(),
        ensures
            success == (old(self)@.jump_target_pos(direction, precision, elt, targets@, skip_till)
                is Some),
            final(self)@ == old(self)@.jumped(direction, precision, elt, targets@, skip_till),
            final(self)@.wf(),
    {
        let landing = self.find_jump_landing(direction, precision, elt, &targets, skip_till);
        match landing {
            Some(p) => {
                self.update_buff_pos(elt, Some(p));
                true
            },
            None => false,
        }
    }

    fn find_jump_landing(
        &self,
        direction: JumpDirection,
        precision: JumpPrecision,
        elt: EditableLineTag,
        targets: &Vec<char>,
        skip_till: bool,
    ) -> (r: Option<usize>)
        requires
            self@.wf(),
        ensures
            opt_int(r) == self@.jump_target_pos(direction, precision, elt, targets@, skip_till),
            r matches Some(p) ==> p <= self@.line(elt).text.len(),
    {
        let el = self.edit_line(elt);
        let n: usize = el.len();
        match direction {
            JumpDirection::Backward => {
                let mut from = el.position;
                if precision == JumpPrecision::Till && skip_till && from > 0 {
                    from -= 1;
                }
                match find_last_target_before(&el.text, targets, from) {
                    Some(i) => if precision == JumpPrecision::Till && i + 1 < n {
                        Some(i + 1)
                    } else {
                        Some(i)
                    },
                    None => None,
                }
            },
            JumpDirection::Forward => {
                let mut from: usize = el.position + 1;
                if precision == JumpPrecision::Till && skip_till && n > 0 && from < n - 1 {
                    from += 1;
                }
                match find_first_target_from(&el.text, targets, from) {
                    Some(i) => if precision == JumpPrecision::Till {
                        Some(i - 1)
                    } else {
                        Some(i)
                    },
                    None => None,
                }
            },
        }
    }

    /// Jump, and remember how for repeating it.
    pub fn jump_and_remember_last_jump(
        &mut self,
        direction: JumpDirection,
        precision: JumpPrecision,
        elt: EditableLineTag,
        target: char,
        skip_till: bool,
    ) -> (success: bool)
        requires
            old(self)@.wf(),
        ensures
            ({
                let noted = old(self)@.jump_remembered(direction, precision, target);
                &&& success == (noted.jump_target_pos(
                    direction,
                    precision,
                    elt,
                    seq![target],
                    skip_till,
                ) is Some)
                &&& final(self)@ == noted.jumped(
                    direction,
                    precision,
                    elt,
                    seq![target],
                    skip_till,
                )
            }),
            final(self)@.wf(),
    {
        self.last_jump_target = Some(target);
        self.last_jump_direction = direction;
        self.last_jump_precision = precision;
        let mut targets: Vec<char> = Vec::new();
        targets.push(target);
        assert(targets@ =~= seq![target]);
        self.jump(direction, precision, elt, targets, skip_till)
    }

    /// Move the cursor to the bracket that belongs to the one at `jump_from`, or next to it. Return
    /// false if there is none, or if the cursor could not be moved.
    pub fn jump_to_matching_bracket(
        &mut self,
        precision: JumpPrecision,
        elt: EditableLineTag,
        jump_from: usize,
        l_bracket: char,
        r_bracket: char,
    ) -> (success: bool)
        requires
            old(self)@.wf(),
        ensures
            ({
                let to = bracket_partner(
                    old(self)@.line(elt).text,
                    l_bracket,
                    r_bracket,
                    jump_from as int,
                    0,
                );
                &&& to matches Some(p) ==> {
                    let landing = bracket_landing(jump_from as int, p, precision);
                    &&& success == old(self)@.can_move(elt, Some(landing))
                    &&& final(self)@ == old(self)@.moved(elt, Some(landing))
                }
                &&& to is None ==> !success && final(self)@ == old(self)@
            }),
            final(self)@.wf(),
    {
        let to = find_bracket_partner(
            &self.edit_line(elt).text,
            l_bracket,
            r_bracket,
            jump_from,
        );
        match to {
            Some(p) => {
                let landing = match precision {
                    JumpPrecision::Till => if p > jump_from {
                        p - 1
                    } else {
                        p + 1
                    },
                    JumpPrecision::To => p,
                };
                self.update_buff_pos(elt, Some(landing))
            },
            None => false,
        }
    }
}

fn find_bracket_partner(text: &[char], l: char, r: char, from: usize) -> (to: Option<usize>)
    ensures
        opt_int(to) == bracket_partner(text@, l, r, from as int, 0),
        to matches Some(p) ==> p < text@.len() && (p < from ==> from < text@.len()),
{
    let mut stack: Vec<usize> = Vec::new();
    let mut i: usize = 0;
    assert(positions(stack@) =~= open_brackets(text@, l, r, 0));
    while i < text.len()
        invariant
            i <= text@.len(),
            positions(stack@) == open_brackets(text@, l, r, i as int),
            forall|k: int| 0 <= k < stack@.len() ==> stack@[k] < i,
            bracket_partner(text@, l, r, from as int, 0) == bracket_partner(
                text@,
                l,
                r,
                from as int,
                i as int,
            ),
        decreases text@.len() - i,
    {
        let ghost before = stack@;
        if text[i] == l {
            stack.push(i);
            assert(positions(stack@) =~= positions(before).push(i as int));
        } else if text[i] == r {
            match stack.pop() {
                Some(opened) => {
                    assert(positions(before).last() == opened);
                    assert(positions(stack@) =~= positions(before).drop_last());
                    if from == opened {
                        return Some(i);
                    }
                    if from == i {
                        return Some(opened);
                    }
                },
                None => {},
            }
        }
        i += 1;
    }
    None
}

spec fn positions(stack: Seq<usize>) -> Seq<int> {
    stack.map_values(|p: usize| p as int)
}

/// The open brackets are in order, lie before the position, and are opening ones.
pub proof fn lemma_open_brackets(s: Seq<char>, l: char, r: char, pos: int)
    requires
        0 <= pos <= s.len(),
    ensures
        forall|i: int|
            0 <= i < open_brackets(s, l, r, pos).len() ==> {
                &&& 0 <= #[trigger] open_brackets(s, l, r, pos)[i] < pos
                &&& s[open_brackets(s, l, r, pos)[i]] == l
            },
        forall|i: int, j: int|
            0 <= i < j < open_brackets(s, l, r, pos).len() ==> open_brackets(s, l, r, pos)[i]
                < open_brackets(s, l, r, pos)[j],
    decreases pos,
{
    if pos > 0 {
        lemma_open_brackets(s, l, r, pos - 1);
        let before = open_brackets(s, l, r, pos - 1);
        let now = open_brackets(s, l, r, pos);
        assert forall|i: int| 0 <= i < now.len() implies 0 <= #[trigger] now[i] < pos && s[now[i]]
            == l by {
            if i < before.len() {
                assert(now[i] == before[i]);
            }
        }
        assert forall|i: int, j: int| 0 <= i < j < now.len() implies now[i] < now[j] by {
            assert(now[i] == before[i]);
            if j < before.len() {
                assert(now[j] == before[j]);
            }
        }
    }
}

/// A bracket that is closed stays closed.
pub proof fn lemma_closed_bracket(s: Seq<char>, l: char, r: char, a: int, p: int, q: int)
    requires
        0 <= a < p <= q <= s.len(),
        !open_brackets(s, l, r, p).contains(a),
    ensures
        !open_brackets(s, l, r, q).contains(a),
    decreases q - p,
{
    if p < q {
        lemma_closed_bracket(s, l, r, a, p, q - 1);
        let before = open_brackets(s, l, r, q - 1);
        let after = open_brackets(s, l, r, q);
        if after.contains(a) {
            let i = choose|i: int| 0 <= i < after.len() && after[i] == a;
            assert(i < before.len() ==> before[i] == a);
            assert(false);
        }
    }
}

pub proof fn lemma_partner_scan(s: Seq<char>, l: char, r: char, from: int, at: int, goal: int)
    requires
        0 <= at <= goal < s.len(),
        forall|i: int|
            #![trigger open_brackets(s, l, r, i)]
            at <= i < goal ==> !(s[i] != l && s[i] == r && open_brackets(s, l, r, i).len() > 0 && (
            open_brackets(s, l, r, i).last() == from || i == from)),
    ensures
        bracket_partner(s, l, r, from, at) == bracket_partner(s, l, r, from, goal),
    decreases goal - at,
{
    if at < goal {
        assert(open_brackets(s, l, r, at).len() >= 0);
        lemma_partner_scan(s, l, r, from, at + 1, goal);
    }
}

pub proof fn lemma_partner_found(s: Seq<char>, l: char, r: char, from: int, at: int)
    requires
        0 <= at,
    ensures
        bracket_partner(s, l, r, from, at) matches Some(to) ==> {
            let close = if to > from {
                to
            } else {
                from
            };
            let opened = if to > from {
                from
            } else {
                to
            };
            &&& 0 <= opened < close < s.len()
            &&& s[close] != l && s[close] == r
            &&& open_brackets(s, l, r, close).len() > 0
            &&& open_brackets(s, l, r, close).last() == opened
        },
    decreases s.len() - at,
{
    if at < s.len() {
        lemma_open_brackets(s, l, r, at);
        lemma_partner_found(s, l, r, from, at + 1);
    }
}

/// Jumping to the bracket that belongs to the one at the cursor, and jumping again, leads back.
pub proof fn law_matching_brackets_match(s: Seq<char>, l: char, r: char, from: int)
    ensures
        bracket_partner(s, l, r, from, 0) matches Some(to) ==> bracket_partner(s, l, r, to, 0)
            == Some(from),
{
    if let Some(to) = bracket_partner(s, l, r, from, 0) {
        lemma_partner_found(s, l, r, from, 0);
        let (a, b) = if to > from {
            (from, to)
        } else {
            (to, from)
        };
        // From the closing bracket `b` to the opening one `a`.
        assert(bracket_partner(s, l, r, b, 0) == Some(a)) by {
            assert forall|i: int|
                #![trigger open_brackets(s, l, r, i)]
                0 <= i < b implies !(s[i] != l && s[i] == r && open_brackets(s, l, r, i).len() > 0
                && (open_brackets(s, l, r, i).last() == b || i == b)) by {
                lemma_open_brackets(s, l, r, i);
            }
            lemma_partner_scan(s, l, r, b, 0, b);
            lemma_open_brackets(s, l, r, b);
        }
        // And from `a` to `b`: a bracket that closes `a` earlier would leave it closed.
        assert(bracket_partner(s, l, r, a, 0) == Some(b)) by {
            lemma_open_brackets(s, l, r, b);
            let last = open_brackets(s, l, r, b).len() - 1;
            assert(s[open_brackets(s, l, r, b)[last]] == l);
            assert forall|i: int|
                #![trigger open_brackets(s, l, r, i)]
                0 <= i < b implies !(s[i] != l && s[i] == r && open_brackets(s, l, r, i).len() > 0
                && (open_brackets(s, l, r, i).last() == a || i == a)) by {
                lemma_open_brackets(s, l, r, i);
                let before = open_brackets(s, l, r, i);
                if s[i] != l && s[i] == r && before.len() > 0 && before.last() == a {
                    let after = open_brackets(s, l, r, i + 1);
                    assert(after == before.drop_last());
                    if after.contains(a) {
                        let k = choose|k: int| 0 <= k < after.len() && after[k] == a;
                        assert(before[k] < before[before.len() - 1]);
                    }
                    lemma_closed_bracket(s, l, r, a, i + 1, b);
                    assert(open_brackets(s, l, r, b).contains(a));
                }
            }
            lemma_partner_scan(s, l, r, a, 0, b);
        }
    }
}

} // verus!

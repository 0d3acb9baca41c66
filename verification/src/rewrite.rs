//! The commands that change the text at the cursor.

use crate::command::ReadlineCmd;
use crate::data::{
    CursorEndMode, CursorSelectionMode, DataView, EditableLineTag, Kill, LoopView, ReaderData,
};
use crate::cursor::{LexedToken, TokenExtent, TokenView};
use crate::flags::Flag;
use crate::layout::SelectionData;
use crate::motion::MoveWordDir;
use crate::paint::ScreenState;
use crate::text::{
    copy_text, extent, inside, line_end, line_start, opt_extent, part, push_text,
    range_of_line_at_cursor, subtext, WString,
};
use crate::unicode::{
    alphanumeric, lowercase, lowercased, to_lowercase, to_uppercase, uppercased,
};
use std::ops::Range;
use vstd::prelude::*;

verus! {

/// How the case of a text is changed.
#[derive(Clone, Copy, PartialEq, Eq, Structural, Debug)]
pub enum CaseChange {
    Upper,
    Lower,
    /// The first letter or digit upper, everything else lower.
    Capitalize,
    /// What is lower becomes upper, everything else lower.
    Toggle,
}

pub open spec fn goes_upper(c: char, change: CaseChange, capitalized: bool) -> bool {
    match change {
        CaseChange::Upper => true,
        CaseChange::Lower => false,
        CaseChange::Capitalize => !capitalized && alphanumeric(c),
        CaseChange::Toggle => lowercase(c),
    }
}

/// The text with its case changed. `capitalized` tells whether a character was capitalized before.
pub open spec fn recased(s: Seq<char>, change: CaseChange, capitalized: bool) -> Seq<char>
    decreases s.len(),
{
    if s.len() == 0 {
        Seq::empty()
    } else {
        let up = goes_upper(s[0], change, capitalized);
        let first = if up {
            uppercased(s[0])
        } else {
            lowercased(s[0])
        };
        first + recased(s.skip(1), change, capitalized || up)
    }
}

/// The two tokens exchanged.
pub open spec fn transposed(text: Seq<char>, tok: Range<int>, prev: Range<int>) -> Seq<char> {
    text.subrange(0, prev.start) + part(text, tok) + text.subrange(prev.end, tok.start) + part(
        text,
        prev,
    ) + text.subrange(tok.end, text.len() as int)
}

/// The first position at or behind `pos` that holds a letter or a digit.
pub open spec fn word_begin(text: Seq<char>, pos: int) -> int
    decreases text.len() - pos,
{
    if pos < 0 || pos >= text.len() || alphanumeric(text[pos]) {
        pos
    } else {
        word_begin(text, pos + 1)
    }
}

impl DataView {
    pub open spec fn last_cmd(self) -> Option<ReadlineCmd> {
        self.rls.unwrap().last_cmd
    }

    pub open spec fn with_yank_len(self, n: int) -> DataView {
        DataView { rls: Some(LoopView { yank_len: n, ..self.rls.unwrap() }), ..self }
    }

    /// Autosuggestions held off, if it is the command line that is edited.
    pub open spec fn quieted(self, elt: EditableLineTag) -> DataView {
        if elt == EditableLineTag::Commandline {
            self.with_flag(Flag::SuppressAutosuggestion, true)
        } else {
            self
        }
    }

    /// The range of the active line that is killed from the cursor to the end of its line; at the
    /// end, the newline.
    pub open spec fn rest_of_line(self) -> Range<int> {
        let line = self.active_line();
        let end = line_end(line.text, line.position);
        Range {
            start: line.position,
            end: if end == line.position && end < line.text.len() {
                end + 1
            } else {
                end
            },
        }
    }

    pub open spec fn line_killed(self) -> DataView {
        let r = self.rest_of_line();
        if r.start < r.end {
            self.killed(
                self.active_tag(),
                r,
                Kill::Append,
                self.last_cmd() != Some(ReadlineCmd::KillLine),
            )
        } else {
            self
        }
    }

    /// The line before the cursor killed; at the beginning of a line, the newline before it.
    pub open spec fn line_killed_backwards(self) -> DataView {
        let elt = self.active_tag();
        let line = self.active_line();
        let start = line_start(line.text, line.position);
        if line.position == 0 {
            self
        } else {
            self.quieted(elt).killed(
                elt,
                Range {
                    start: if start < line.position {
                        start
                    } else {
                        line.position - 1
                    },
                    end: line.position,
                },
                Kill::Prepend,
                self.last_cmd() != Some(ReadlineCmd::BackwardKillLine),
            )
        }
    }

    /// The extent of the line at the cursor. The whole line has its newline with it, the last line
    /// the one before it.
    pub open spec fn line_extent(self, whole: bool) -> Range<int> {
        let line = self.active_line();
        let start = line_start(line.text, line.position);
        let end = line_end(line.text, line.position);
        if !whole {
            Range { start, end }
        } else if end < line.text.len() {
            Range { start, end: end + 1 }
        } else if start > 0 {
            Range { start: start - 1, end }
        } else {
            Range { start, end }
        }
    }

    pub open spec fn whole_line_killed(self, whole: bool) -> DataView {
        let r = self.line_extent(whole);
        let c = if whole {
            ReadlineCmd::KillWholeLine
        } else {
            ReadlineCmd::KillInnerLine
        };
        if r.start < r.end {
            self.killed(self.active_tag(), r, Kill::Append, self.last_cmd() != Some(c))
        } else {
            self
        }
    }

    /// The newest item of the kill ring inserted.
    pub open spec fn yanked(self, text: Seq<char>) -> DataView {
        let next = self.inserted(self.active_tag(), text).with_yank_len(text.len() as int);
        if text.len() > 0 && self.end_mode == CursorEndMode::Inclusive {
            next.moved(next.active_tag(), Some(next.active_line().position - 1))
        } else {
            next
        }
    }

    pub open spec fn yank_range(self) -> Range<int> {
        let pos = self.active_line().position + if self.end_mode == CursorEndMode::Inclusive {
            1int
        } else {
            0int
        };
        Range { start: pos - self.rls.unwrap().yank_len, end: pos }
    }

    /// What was yanked replaced by another item of the kill ring.
    pub open spec fn yank_popped(self, text: Seq<char>) -> DataView {
        let elt = self.active_tag();
        if self.rls.unwrap().yank_len != 0 {
            self.with_flag(Flag::SuppressAutosuggestion, true).replaced(
                elt,
                self.yank_range(),
                text,
            ).moved(elt, None).with_yank_len(text.len() as int)
        } else {
            self
        }
    }

    pub open spec fn token_killed_backwards(self, t: TokenView) -> DataView {
        let elt = self.active_tag();
        match self.token_back(t) {
            Some(p) => self.quieted(elt).killed(
                elt,
                Range { start: p, end: self.active_line().position },
                Kill::Prepend,
                self.last_cmd() != Some(ReadlineCmd::BackwardKillToken),
            ),
            None => self,
        }
    }

    pub open spec fn token_killed(self, start: int, tokens: Seq<LexedToken>) -> DataView {
        let elt = self.active_tag();
        match self.token_forward(false, start, tokens) {
            Some(p) => self.quieted(elt).killed(
                elt,
                Range { start: self.active_line().position, end: p },
                Kill::Append,
                self.last_cmd() != Some(ReadlineCmd::KillToken),
            ),
            None => self,
        }
    }

    /// The character before the cursor dragged forward over the one at it. At the end of the line
    /// it is the last two characters.
    pub open spec fn chars_transposed(self) -> DataView {
        let elt = self.active_tag();
        let line = self.active_line();
        if line.text.len() < 2 {
            self
        } else {
            let base = if line.position == line.text.len() {
                self.moved(elt, Some(line.position - 1))
            } else {
                self
            };
            let pos = base.line(elt).position;
            if pos > 0 {
                base.line_and_position_set(
                    elt,
                    line.text.update(pos, line.text[pos - 1]).update(pos - 1, line.text[pos]),
                    pos + 1,
                )
            } else {
                base
            }
        }
    }

    /// The cursor moved to the next word.
    pub open spec fn at_word(self) -> DataView {
        let line = self.active_line();
        self.moved(self.active_tag(), Some(word_begin(line.text, line.position)))
    }

    /// The token at the cursor exchanged with the one before. `t` are the tokens at the cursor,
    /// `retry` those at the end of the previous one, for a cursor behind the last token.
    pub open spec fn words_transposed(self, t: TokenView, retry: TokenView) -> DataView {
        let base = self.at_word();
        let elt = base.active_tag();
        let text = base.active_line().text;
        let chosen = if t.token.start == text.len() {
            retry
        } else {
            t
        };
        let tok = chosen.token;
        let prev = chosen.previous;
        if prev.start < prev.end && tok.start < tok.end && tok.start > prev.start {
            base.line_and_position_set(elt, transposed(text, tok, prev), tok.end)
        } else {
            base
        }
    }

    /// The part of the command line that is selected.
    pub open spec fn selected_range(self) -> Option<Range<int>> {
        let n = self.command_line.text.len() as int;
        match self.selection {
            Some(s) => {
                let start = if s.start < n {
                    s.start as int
                } else {
                    n
                };
                let stop = if s.stop < n {
                    s.stop as int
                } else {
                    n
                };
                if start == stop {
                    None
                } else {
                    Some(Range { start, end: stop })
                }
            },
            None => None,
        }
    }

    /// The selection can be cut out of the active line.
    pub open spec fn selection_applies(self) -> bool {
        self.selected_range() matches Some(r) ==> inside(r, self.active_line().text.len() as int)
    }

    /// The case of a range of the active line changed. The cursor stays at its offset.
    pub open spec fn range_recased(self, r: Range<int>, change: CaseChange) -> DataView {
        let elt = self.active_tag();
        let line = self.active_line();
        self.replaced(elt, r, recased(part(line.text, r), change, false)).moved(
            elt,
            Some(line.position),
        )
    }

    pub open spec fn char_toggled(self) -> DataView {
        let line = self.active_line();
        if line.position < line.text.len() {
            self.range_recased(
                Range { start: line.position, end: line.position + 1 },
                CaseChange::Toggle,
            )
        } else {
            self
        }
    }

    pub open spec fn selection_recased(self, change: CaseChange) -> DataView {
        match self.selected_range() {
            Some(r) => self.range_recased(r, change),
            None => self,
        }
    }

    /// The word from the cursor on with its case changed, and the cursor behind it.
    pub open spec fn word_recased(self, change: CaseChange, word: Seq<bool>) -> DataView {
        let elt = self.active_tag();
        let from = self.active_line().position;
        let there = self.word_moved(elt, MoveWordDir::Right, false, word, false);
        let line = there.active_line();
        let to = if self.selection_mode == CursorSelectionMode::Inclusive && there.at_end() {
            line.text.len() as int
        } else {
            line.position
        };
        there.replaced(
            elt,
            Range { start: from, end: to },
            recased(line.text.subrange(from, to), change, false),
        ).moved(elt, None)
    }

    pub open spec fn selection_begun(self) -> DataView {
        let pos = self.command_line.position;
        let target = if self.selection_mode == CursorSelectionMode::Inclusive {
            1int
        } else {
            0int
        };
        DataView {
            selection: Some(
                SelectionData {
                    begin: pos as usize,
                    start: pos as usize,
                    stop: (pos + target) as usize,
                },
            ),
            ..self
        }
    }

    /// The cursor at the other end of the selection.
    pub open spec fn selection_swapped(self) -> DataView {
        let pos = self.command_line.position as usize;
        match self.selection {
            Some(s) => DataView {
                selection: Some(SelectionData { begin: pos, start: pos, stop: s.stop }),
                ..self
            }.moved(self.active_tag(), Some(s.begin as int)),
            None => self,
        }
    }

    pub open spec fn selection_killed(self) -> DataView {
        match self.selected_range() {
            Some(r) => self.killed(
                EditableLineTag::Commandline,
                r,
                Kill::Append,
                self.last_cmd() != Some(ReadlineCmd::KillSelection),
            ),
            None => self,
        }
    }

    /// A line opened above the one at the cursor.
    pub open spec fn line_opened_above(self) -> DataView {
        let next = self.at_line_beginning().inserted(self.active_tag(), seq!['\n']);
        next.moved(next.active_tag(), Some(next.active_line().position - 1))
    }

    /// A line opened below the one at the cursor.
    pub open spec fn line_opened_below(self) -> DataView {
        let elt = self.active_tag();
        let line = self.active_line();
        let end = line_end(line.text, line.position);
        let base = if end == line.position {
            self
        } else {
            self.moved(elt, Some(end))
        };
        base.inserted(elt, seq!['\n'])
    }

    /// The last edit undone, or the last undone one redone. Where there is none, the command line
    /// flashes.
    pub open spec fn undone_or_redone(self, undo: bool, screen: ScreenState) -> DataView {
        let elt = self.active_tag();
        let line = self.active_line();
        let next = if undo {
            self.undone(elt)
        } else {
            self.redone(elt)
        };
        if (undo && line.past.len() == 0) || (!undo && line.future.len() == 0) {
            next.flashing(
                Range { start: 0, end: next.command_line.text.len() as int },
                screen,
            )
        } else {
            let loud = next.with_flag(Flag::SuppressAutosuggestion, false);
            let shown = if elt == EditableLineTag::Commandline {
                loud.pager_cleared()
            } else {
                loud
            };
            shown.moved(elt, None)
        }
    }
}

/// A case mapping gives at least one character for each.
fn recase(s: &[char], change: CaseChange) -> (r: WString)
    ensures
        r@ == recased(s@, change, false),
        r@.len() >= s@.len(),
{
    let mut r: WString = Vec::new();
    let mut capitalized = false;
    let mut i: usize = 0;
    assert(s@.skip(0) =~= s@);
    assert(r@ + recased(s@, change, false) =~= recased(s@, change, false));
    while i < s.len()
        invariant
            i <= s@.len(),
            r@.len() >= i,
            r@ + recased(s@.skip(i as int), change, capitalized) == recased(s@, change, false),
        decreases s@.len() - i,
    {
        let c = s[i];
        let up = match change {
            CaseChange::Upper => true,
            CaseChange::Lower => false,
            CaseChange::Capitalize => !capitalized && c.is_alphanumeric(),
            CaseChange::Toggle => c.is_lowercase(),
        };
        let mapped = if up {
            to_uppercase(c)
        } else {
            to_lowercase(c)
        };
        proof {
            let rest = s@.skip(i as int);
            assert(rest[0] == c);
            assert(rest.skip(1) =~= s@.skip(i + 1));
            assert(r@ + (mapped@ + recased(rest.skip(1), change, capitalized || up)) =~= (r@
                + mapped@) + recased(rest.skip(1), change, capitalized || up));
        }
        push_text(&mut r, &mapped);
        capitalized = capitalized || up;
        i += 1;
    }
    assert(r@ + recased(s@.skip(i as int), change, capitalized) =~= r@);
    r
}

pub fn find_word_begin(text: &[char], pos: usize) -> (r: usize)
    requires
        pos <= text@.len(),
    ensures
        r == word_begin(text@, pos as int),
        pos <= r <= text@.len(),
{
    let mut i: usize = pos;
    while i < text.len() && !text[i].is_alphanumeric()
        invariant
            pos <= i <= text@.len(),
            word_begin(text@, pos as int) == word_begin(text@, i as int),
        decreases text@.len() - i,
    {
        i += 1;
    }
    i
}

fn transpose(text: &[char], tok: &Range<usize>, prev: &Range<usize>) -> (r: WString)
    requires
        prev.start <= prev.end <= tok.start <= tok.end <= text@.len(),
    ensures
        r@ == transposed(text@, extent(*tok), extent(*prev)),
        r@.len() == text@.len(),
{
    let mut r = subtext(text, 0, prev.start);
    push_text(&mut r, &text[tok.start..tok.end]);
    push_text(&mut r, &text[prev.end..tok.start]);
    push_text(&mut r, &text[prev.start..prev.end]);
    push_text(&mut r, &text[tok.end..text.len()]);
    r
}

impl ReaderData {
    pub(crate) fn last_command(&self) -> (c: Option<ReadlineCmd>)
        requires
            self@.rls is Some,
        ensures
            c == self@.last_cmd(),
    {
        match &self.rls {
            Some(rls) => rls.last_cmd,
            None => None,
        }
    }

    pub(crate) fn set_yank_len(&mut self, n: usize)
        requires
            old(self)@.rls is Some,
        ensures
            final(self)@ == old(self)@.with_yank_len(n as int),
    {
        let mut rls = self.rls.take().unwrap();
        rls.yank_len = n;
        self.rls = Some(rls);
    }

    /// Hold off autosuggestions, if it is the command line that is edited.
    fn suppress_if_commandline(&mut self, elt: EditableLineTag)
        requires
            old(self)@.wf(),
        ensures
            final(self)@ == old(self)@.quieted(elt),
            final(self)@.wf(),
    {
        if elt == EditableLineTag::Commandline {
            self.flags.set(Flag::SuppressAutosuggestion, true);
        }
    }

    pub fn kill_line(&mut self)
        requires
            old(self)@.wf(),
            old(self)@.rls is Some,
        ensures
            final(self)@ == old(self)@.line_killed(),
            final(self)@.wf(),
    {
        let (elt, el) = self.active_edit_line();
        let begin = el.position;
        let mut end: usize = range_of_line_at_cursor(&el.text, begin).end;
        if end == begin && end < el.len() {
            end += 1;
        }
        if begin < end {
            let newv = self.last_command() != Some(ReadlineCmd::KillLine);
            self.kill(elt, begin..end, Kill::Append, newv);
        }
    }

    pub fn backward_kill_line(&mut self)
        requires
            old(self)@.wf(),
            old(self)@.rls is Some,
        ensures
            final(self)@ == old(self)@.line_killed_backwards(),
            final(self)@.wf(),
    {
        let (elt, el) = self.active_edit_line();
        let end = el.position;
        if end == 0 {
            return;
        }
        let mut begin = range_of_line_at_cursor(&el.text, end).start;
        // Make sure we delete at least one character.
        if begin == end {
            begin -= 1;
        }
        let newv = self.last_command() != Some(ReadlineCmd::BackwardKillLine);
        self.suppress_if_commandline(elt);
        self.kill(elt, begin..end, Kill::Prepend, newv);
    }

    /// Kill the line at the cursor, with a newline next to it if it is the whole line.
    pub fn kill_whole_line(&mut self, whole: bool)
        requires
            old(self)@.wf(),
            old(self)@.rls is Some,
        ensures
            final(self)@ == old(self)@.whole_line_killed(whole),
            final(self)@.wf(),
    {
        let (elt, el) = self.active_edit_line();
        let range = range_of_line_at_cursor(&el.text, el.position);
        let mut begin = range.start;
        let mut end = range.end;
        if whole {
            if end < el.len() {
                end += 1;
            } else if begin > 0 {
                // We are on the last line. Delete the newline in the beginning to clear this line.
                begin -= 1;
            }
        }
        if end > begin {
            let c = if whole {
                ReadlineCmd::KillWholeLine
            } else {
                ReadlineCmd::KillInnerLine
            };
            let newv = self.last_command() != Some(c);
            self.kill(elt, begin..end, Kill::Append, newv);
        }
    }

    /// Insert the newest item of the kill ring.
    pub fn yank(&mut self, yank_str: &[char])
        requires
            old(self)@.wf(),
            old(self)@.rls is Some,
        ensures
            final(self)@ == old(self)@.yanked(yank_str@),
            final(self)@.wf(),
    {
        let elt = self.active_edit_line_tag();
        self.insert_string(elt, yank_str);
        self.set_yank_len(yank_str.len());
        if yank_str.len() > 0 && self.cursor_end_mode == CursorEndMode::Inclusive {
            let (elt, el) = self.active_edit_line();
            let position = el.position;
            self.update_buff_pos(elt, Some(position - 1));
        }
    }

    /// Replace what was yanked by another item of the kill ring.
    pub fn yank_pop(&mut self, yank_str: WString)
        requires
            old(self)@.wf(),
            old(self)@.rls is Some,
            old(self)@.rls.unwrap().yank_len != 0 ==> inside(
                old(self)@.yank_range(),
                old(self)@.active_line().text.len() as int,
            ),
        ensures
            final(self)@ == old(self)@.yank_popped(yank_str@),
            final(self)@.wf(),
    {
        let yank_len: usize = match &self.rls {
            Some(rls) => rls.yank_len,
            None => 0,
        };
        if yank_len != 0 {
            let (elt, el) = self.active_edit_line();
            let n = yank_str.len();
            let bias: usize = if self.cursor_end_mode == CursorEndMode::Inclusive {
                1
            } else {
                0
            };
            let end: usize = el.position + bias;
            let begin: usize = end - yank_len;
            self.flags.set(Flag::SuppressAutosuggestion, true);
            self.replace_substring(elt, begin..end, yank_str);
            self.update_buff_pos(elt, None);
            self.set_yank_len(n);
        }
    }

    pub fn backward_kill_token(&mut self, t: &TokenExtent)
        requires
            old(self)@.wf(),
            old(self)@.rls is Some,
            t@.inside(old(self)@.active_line().text.len() as int),
            old(self)@.token_back(t@) matches Some(p) ==> p <= old(self)@.active_line().position,
        ensures
            final(self)@ == old(self)@.token_killed_backwards(t@),
            final(self)@.wf(),
    {
        if let Some(p) = self.backward_token(t) {
            let (elt, el) = self.active_edit_line();
            let position = el.position;
            let newv = self.last_command() != Some(ReadlineCmd::BackwardKillToken);
            self.suppress_if_commandline(elt);
            self.kill(elt, p..position, Kill::Prepend, newv);
        }
    }

    pub fn kill_token(&mut self, cmdsub_start: usize, tokens: &Vec<LexedToken>)
        requires
            old(self)@.wf(),
            old(self)@.rls is Some,
            forall|i: int|
                #![trigger tokens@[i]]
                0 <= i < tokens@.len() ==> cmdsub_start + tokens@[i].end
                    <= old(self)@.active_line().text.len(),
        ensures
            final(self)@ == old(self)@.token_killed(cmdsub_start as int, tokens@),
            final(self)@.wf(),
    {
        if let Some(p) = self.forward_token(false, cmdsub_start, tokens) {
            let (elt, el) = self.active_edit_line();
            let position = el.position;
            let newv = self.last_command() != Some(ReadlineCmd::KillToken);
            self.suppress_if_commandline(elt);
            self.kill(elt, position..p, Kill::Append, newv);
        }
    }

    pub fn transpose_chars(&mut self)
        requires
            old(self)@.wf(),
        ensures
            final(self)@ == old(self)@.chars_transposed(),
            final(self)@.wf(),
    {
        let (elt, el) = self.active_edit_line();
        let position = el.position;
        if el.len() < 2 {
            return;
        }
        // If the cursor is at the end, transpose the last two characters of the line.
        if position == el.len() {
            self.update_buff_pos(elt, Some(position - 1));
        }
        // Drag the character before the cursor forward over the character at the cursor, moving the
        // cursor forward as well.
        let el = self.edit_line(elt);
        let pos = el.position;
        if pos > 0 {
            let mut local_cmd = copy_text(&el.text);
            let before = local_cmd[pos - 1];
            let here = local_cmd[pos];
            local_cmd.set(pos, before);
            local_cmd.set(pos - 1, here);
            self.set_command_line_and_position(elt, local_cmd, pos + 1);
        }
    }

    /// Go to the next word, if the cursor is not in one.
    pub fn go_to_word(&mut self)
        requires
            old(self)@.wf(),
        ensures
            final(self)@ == old(self)@.at_word(),
            final(self)@.wf(),
            final(self)@.active_tag() == old(self)@.active_tag(),
            final(self)@.active_line().text == old(self)@.active_line().text,
    {
        let (elt, el) = self.active_edit_line();
        // If we are not in a token, look for one ahead.
        let buff_pos = find_word_begin(&el.text, el.position);
        self.update_buff_pos(elt, Some(buff_pos));
    }

    /// Exchange the token at the cursor with the one before. `t` are the tokens at the next word,
    /// `retry` those at the end of the token before that.
    pub fn transpose_words(&mut self, t: &TokenExtent, retry: &TokenExtent)
        requires
            old(self)@.wf(),
            t@.inside(old(self)@.active_line().text.len() as int),
            retry@.inside(old(self)@.active_line().text.len() as int),
            t@.token.start > t@.previous.start ==> t@.previous.end <= t@.token.start,
            retry@.token.start > retry@.previous.start ==> retry@.previous.end
                <= retry@.token.start,
        ensures
            final(self)@ == old(self)@.words_transposed(t@, retry@),
            final(self)@.wf(),
    {
        self.go_to_word();
        let (elt, el) = self.active_edit_line();
        // In case we didn't find a token at or after the cursor, retry beginning from the previous
        // token.
        let chosen = if t.token.start == el.len() {
            retry
        } else {
            t
        };
        let tok = &chosen.token;
        let prev = &chosen.previous;
        // Make sure we have two tokens.
        if prev.start < prev.end && tok.start < tok.end && tok.start > prev.start {
            // Compose new command line with swapped tokens.
            let new_text = transpose(&el.text, tok, prev);
            // Put cursor right after the second token.
            self.set_command_line_and_position(elt, new_text, tok.end);
        }
    }

    /// The part of the command line that is selected.
    pub fn get_selection(&self) -> (r: Option<Range<usize>>)
        ensures
            opt_extent(r) == self@.selected_range(),
    {
        let n = self.command_line.len();
        match self.selection {
            Some(s) => {
                let start = if s.start < n {
                    s.start
                } else {
                    n
                };
                let end = if s.stop < n {
                    s.stop
                } else {
                    n
                };
                if start == end {
                    None
                } else {
                    Some(start..end)
                }
            },
            None => None,
        }
    }

    fn change_case_in(&mut self, range: Range<usize>, change: CaseChange)
        requires
            old(self)@.wf(),
            inside(extent(range), old(self)@.active_line().text.len() as int),
        ensures
            final(self)@ == old(self)@.range_recased(extent(range), change),
            final(self)@.wf(),
    {
        let (elt, el) = self.active_edit_line();
        let buff_pos = el.position;
        let replacement = recase(&el.text[range.start..range.end], change);
        proof {
            let text = el@.text;
            assert(part(text, extent(range)) =~= text.subrange(
                range.start as int,
                range.end as int,
            ));
        }
        self.replace_substring(elt, range, replacement);
        // Restore the buffer position since replace_substring moves the buffer position ahead of the
        // replaced text. Note: This does not take string length changes into account.
        self.update_buff_pos(elt, Some(buff_pos));
    }

    /// Toggle the case of the character at the cursor.
    pub fn togglecase_char(&mut self)
        requires
            old(self)@.wf(),
        ensures
            final(self)@ == old(self)@.char_toggled(),
            final(self)@.wf(),
    {
        let (_elt, el) = self.active_edit_line();
        let buff_pos = el.position;
        // Check that the cursor is on a character
        if buff_pos != el.len() {
            self.change_case_in(buff_pos..buff_pos + 1, CaseChange::Toggle);
        }
    }

    /// Change the case of the selection.
    pub fn change_case_of_selection(&mut self, change: CaseChange)
        requires
            old(self)@.wf(),
            old(self)@.selection_applies(),
        ensures
            final(self)@ == old(self)@.selection_recased(change),
            final(self)@.wf(),
    {
        // Check that we have an active selection and get the bounds.
        if let Some(selection) = self.get_selection() {
            self.change_case_in(selection, change);
        }
    }

    /// Change the case from the current location to the end of the word.
    pub fn change_case_of_word(&mut self, change: CaseChange, word: &[bool])
        requires
            old(self)@.wf(),
        ensures
            final(self)@ == old(self)@.word_recased(change, word@),
            final(self)@.wf(),
    {
        let (elt, el) = self.active_edit_line();
        let init_pos = el.position;
        self.move_word(elt, MoveWordDir::Right, false, word, false);
        let at_end = self.is_at_end();
        let inclusive = self.cursor_selection_mode == CursorSelectionMode::Inclusive;
        let (_elt, el) = self.active_edit_line();
        let to = if inclusive && at_end {
            el.len()
        } else {
            el.position
        };
        let replacement = recase(&el.text[init_pos..to], change);
        self.replace_substring(elt, init_pos..to, replacement);
        self.update_buff_pos(elt, None);
    }

    pub fn begin_selection(&mut self)
        requires
            old(self)@.wf(),
        ensures
            final(self)@ == old(self)@.selection_begun(),
            final(self)@.wf(),
    {
        let pos = self.command_line.position;
        let target: usize = if self.cursor_selection_mode == CursorSelectionMode::Inclusive {
            1
        } else {
            0
        };
        self.selection = Some(SelectionData { begin: pos, start: pos, stop: pos + target });
    }

    /// Put the cursor at the other end of the selection.
    pub fn swap_selection_start_stop(&mut self)
        requires
            old(self)@.wf(),
            old(self)@.selection matches Some(s) ==> s.begin
                <= old(self)@.active_line().text.len(),
        ensures
            final(self)@ == old(self)@.selection_swapped(),
            final(self)@.wf(),
    {
        let position = self.command_line.position;
        if let Some(s) = self.selection {
            self.selection = Some(
                SelectionData { begin: position, start: position, stop: s.stop },
            );
            let elt = self.active_edit_line_tag();
            self.update_buff_pos(elt, Some(s.begin));
        }
    }

    pub fn kill_selection(&mut self)
        requires
            old(self)@.wf(),
            old(self)@.rls is Some,
            old(self)@.selected_range() matches Some(r) ==> r.start <= r.end,
        ensures
            final(self)@ == old(self)@.selection_killed(),
            final(self)@.wf(),
    {
        let newv = self.last_command() != Some(ReadlineCmd::KillSelection);
        if let Some(selection) = self.get_selection() {
            self.kill(EditableLineTag::Commandline, selection, Kill::Append, newv);
        }
    }

    pub fn insert_line_over(&mut self)
        requires
            old(self)@.wf(),
        ensures
            final(self)@ == old(self)@.line_opened_above(),
            final(self)@.wf(),
    {
        let elt = self.active_edit_line_tag();
        self.beginning_of_line();
        self.insert_char(elt, '\n');
        let (elt, el) = self.active_edit_line();
        let position = el.position;
        self.update_buff_pos(elt, Some(position - 1));
    }

    pub fn insert_line_under(&mut self)
        requires
            old(self)@.wf(),
        ensures
            final(self)@ == old(self)@.line_opened_below(),
            final(self)@.wf(),
    {
        let (elt, el) = self.active_edit_line();
        let position = el.position;
        let end = range_of_line_at_cursor(&el.text, position).end;
        if end != position {
            self.update_buff_pos(elt, Some(end));
        }
        self.insert_char(elt, '\n');
    }

    /// Undo the last edit, or redo the last undone one.
    pub fn undo_or_redo(&mut self, undo: bool, screen: ScreenState)
        requires
            old(self)@.wf(),
        ensures
            final(self)@ == old(self)@.undone_or_redone(undo, screen),
            final(self)@.wf(),
    {
        let elt = self.active_edit_line_tag();
        let ok = if undo {
            self.undo(elt)
        } else {
            self.redo(elt)
        };
        if !ok {
            let n = self.command_line.len();
            self.flash(0..n, screen);
            return;
        }
        self.flags.set(Flag::SuppressAutosuggestion, false);
        if elt == EditableLineTag::Commandline {
            self.clear_pager();
        }
        self.update_buff_pos(elt, None);
    }
}

} // verus!

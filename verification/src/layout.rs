//! What is sent to the screen.

use crate::highlight::{
    copy_colors, recolored, repeated, HighlightRole, HighlightSpec,
};
use crate::suggestion::{combine_command_and_autosuggestion, combined, prefixes};
use crate::text::{
    copy_text, extent, inside, opt_extent, part, push_text, splice, WString,
};
use std::ops::Range;
use vstd::prelude::*;

verus! {

/// Data wrapping up the visual selection.
#[derive(Clone, Copy, PartialEq, Eq, Structural, Debug)]
pub struct SelectionData {
    /// The position of the cursor when selection was initiated.
    pub begin: usize,
    /// The start and stop position of the current selection.
    pub start: usize,
    pub stop: usize,
}

/// A value-type struct representing a layout that can be rendered.
/// The intent is that everything we send to the screen is encapsulated in this struct.
pub struct LayoutData {
    /// Text of the command line.
    pub text: WString,
    /// The colors. This has the same length as 'text'.
    pub colors: Vec<HighlightSpec>,
    /// Position of the cursor in the command line.
    pub position: usize,
    /// The cursor position in the pager search field.
    pub pager_search_field_position: Option<usize>,
    /// Visual selection of the command line, or none if none.
    pub selection: Option<SelectionData>,
    /// String containing the autosuggestion.
    pub autosuggestion: WString,
    /// The matching range of the command line from a history search. If non-empty, then highlight
    /// the range within the text.
    pub history_search_range: Option<Range<usize>>,
    /// The result of evaluating the left, mode and right prompt commands.
    /// That is, this the text of the prompts, not the commands to produce them.
    pub left_prompt_buff: WString,
    pub mode_prompt_buff: WString,
    pub right_prompt_buff: WString,
}

#[verifier::ext_equal]
pub struct LayoutView {
    pub text: Seq<char>,
    pub colors: Seq<HighlightSpec>,
    pub position: int,
    pub search_field_position: Option<usize>,
    pub selection: Option<SelectionData>,
    pub autosuggestion: Seq<char>,
    pub history_search_range: Option<Range<int>>,
    pub left_prompt: Seq<char>,
    pub mode_prompt: Seq<char>,
    pub right_prompt: Seq<char>,
}

impl View for LayoutData {
    type V = LayoutView;

    open spec fn view(&self) -> LayoutView {
        LayoutView {
            text: self.text@,
            colors: self.colors@,
            position: self.position as int,
            search_field_position: self.pager_search_field_position,
            selection: self.selection,
            autosuggestion: self.autosuggestion@,
            history_search_range: opt_extent(self.history_search_range),
            left_prompt: self.left_prompt_buff@,
            mode_prompt: self.mode_prompt_buff@,
            right_prompt: self.right_prompt_buff@,
        }
    }
}

impl LayoutView {
    pub open spec fn blank() -> LayoutView {
        LayoutView {
            text: Seq::empty(),
            colors: Seq::empty(),
            position: 0,
            search_field_position: None,
            selection: None,
            autosuggestion: Seq::empty(),
            history_search_range: None,
            left_prompt: Seq::empty(),
            mode_prompt: Seq::empty(),
            right_prompt: Seq::empty(),
        }
    }
}

pub fn copy_range(r: &Option<Range<usize>>) -> (c: Option<Range<usize>>)
    ensures
        c == *r,
{
    match r {
        Some(r) => Some(r.start..r.end),
        None => None,
    }
}

pub fn range_eq(a: &Option<Range<usize>>, b: &Option<Range<usize>>) -> (r: bool)
    ensures
        r == (opt_extent(*a) == opt_extent(*b)),
{
    match (a, b) {
        (Some(a), Some(b)) => a.start == b.start && a.end == b.end,
        (None, None) => true,
        _ => false,
    }
}

impl LayoutData {
    pub fn new() -> (r: LayoutData)
        ensures
            r@ == LayoutView::blank(),
    {
        LayoutData {
            text: Vec::new(),
            colors: Vec::new(),
            position: 0,
            pager_search_field_position: None,
            selection: None,
            autosuggestion: Vec::new(),
            history_search_range: None,
            left_prompt_buff: Vec::new(),
            mode_prompt_buff: Vec::new(),
            right_prompt_buff: Vec::new(),
        }
    }

    pub fn copy(&self) -> (r: LayoutData)
        ensures
            r@ == self@,
    {
        LayoutData {
            text: copy_text(&self.text),
            colors: copy_colors(&self.colors),
            position: self.position,
            pager_search_field_position: self.pager_search_field_position,
            selection: self.selection,
            autosuggestion: copy_text(&self.autosuggestion),
            history_search_range: copy_range(&self.history_search_range),
            left_prompt_buff: copy_text(&self.left_prompt_buff),
            mode_prompt_buff: copy_text(&self.mode_prompt_buff),
            right_prompt_buff: copy_text(&self.right_prompt_buff),
        }
    }
}

/// Everything that painting depends on, as it was when painting was asked for.
pub struct PaintRequest {
    pub layout: LayoutData,
    /// Do not show what is typed.
    pub in_silent_mode: bool,
    /// The autosuggestion for the line at the cursor, and the range that it continues.
    pub suggestion: Option<(Range<usize>, WString)>,
    /// The autosuggestion flashes.
    pub flash_autosuggestion: bool,
    /// This is the last time that this command line is painted.
    pub is_final_rendering: bool,
}

#[verifier::ext_equal]
pub struct PaintView {
    pub layout: LayoutView,
    pub silent: bool,
    pub suggestion: Option<(Range<int>, Seq<char>)>,
    pub flash: bool,
    pub is_final: bool,
}

impl View for PaintRequest {
    type V = PaintView;

    open spec fn view(&self) -> PaintView {
        PaintView {
            layout: self.layout@,
            silent: self.in_silent_mode,
            suggestion: match self.suggestion {
                Some((range, text)) => Some((extent(range), text@)),
                None => None,
            },
            flash: self.flash_autosuggestion,
            is_final: self.is_final_rendering,
        }
    }
}

impl PaintView {
    pub open spec fn wf(self) -> bool {
        &&& self.layout.colors.len() == self.layout.text.len()
        &&& self.layout.history_search_range matches Some(r) ==> r.start <= r.end
        &&& self.suggestion matches Some((r, text)) ==> {
            &&& inside(r, self.layout.text.len() as int)
            &&& text.len() > 0
            &&& prefixes(true, part(self.layout.text, r), text)
        }
    }

    /// The text that is shown in place of the command line.
    pub open spec fn full_line(self, last_token: Range<int>, obfuscation: char) -> Seq<char> {
        let text = self.layout.text;
        if self.silent {
            Seq::new(text.len(), |i: int| obfuscation)
        } else if self.suggestion is Some {
            combined(text, self.suggestion.unwrap().0, self.suggestion.unwrap().1, last_token)
        } else {
            text
        }
    }

    /// Which part of that text is the suggestion.
    pub open spec fn suggested_range(self) -> Range<int> {
        if !self.silent && self.suggestion is Some {
            let (r, text) = self.suggestion.unwrap();
            Range { start: r.end, end: r.start + text.len() }
        } else {
            Range { start: self.layout.text.len() as int, end: self.layout.text.len() as int }
        }
    }

    /// The color of a character of the command line: the selection is on top of what the history
    /// search found, which is on top of the syntax highlighting.
    pub open spec fn color(self, i: int, explicit_foreground: bool) -> HighlightSpec {
        let own = self.layout.colors[i];
        let searched = match self.layout.history_search_range {
            Some(r) => !self.silent && r.start <= i < r.end,
            None => false,
        };
        let selected = match self.layout.selection {
            Some(s) => s.start <= i < s.stop,
            None => false,
        };
        if selected {
            HighlightSpec::both(HighlightRole::Selection)
        } else if searched {
            HighlightSpec {
                foreground: if explicit_foreground {
                    HighlightRole::SearchMatch
                } else {
                    own.foreground
                },
                background: HighlightRole::SearchMatch,
                ..own
            }
        } else {
            own
        }
    }

    pub open spec fn line_colors(self, explicit_foreground: bool) -> Seq<HighlightSpec> {
        Seq::new(self.layout.colors.len(), |i: int| self.color(i, explicit_foreground))
    }

    pub open spec fn suggestion_color(self) -> HighlightSpec {
        if self.flash {
            HighlightSpec::both(HighlightRole::SearchMatch)
        } else {
            HighlightSpec::fg(HighlightRole::Autosuggestion)
        }
    }

    /// What the screen is given.
    pub open spec fn painted(self, ctx: PaintContextView) -> ScreenView {
        let s = self.suggested_range();
        let at = Range { start: s.start, end: s.start };
        let n = (s.end - s.start) as nat;
        ScreenView {
            left_prompt: self.layout.mode_prompt + self.layout.left_prompt,
            right_prompt: self.layout.right_prompt,
            full_line: self.full_line(ctx.last_token, ctx.obfuscation),
            suggested: s,
            colors: splice(
                self.line_colors(ctx.explicit_foreground),
                at,
                repeated(self.suggestion_color(), n),
            ),
            indents: splice(ctx.indents, at, Seq::new(n, |i: int| 0i32)),
            cursor: self.layout.position,
            search_field_cursor: self.layout.search_field_position,
            is_final: self.is_final,
        }
    }
}

/// What the shell has to say for painting.
pub struct PaintContext {
    /// The extent of the last token of the command line.
    pub last_token: Range<usize>,
    /// The indentation of each character of the command line.
    pub indents: Vec<i32>,
    /// What is shown for each character in silent mode.
    pub obfuscation: char,
    /// The color of search matches has a foreground.
    pub explicit_foreground: bool,
}

#[verifier::ext_equal]
pub struct PaintContextView {
    pub last_token: Range<int>,
    pub indents: Seq<i32>,
    pub obfuscation: char,
    pub explicit_foreground: bool,
}

impl View for PaintContext {
    type V = PaintContextView;

    open spec fn view(&self) -> PaintContextView {
        PaintContextView {
            last_token: extent(self.last_token),
            indents: self.indents@,
            obfuscation: self.obfuscation,
            explicit_foreground: self.explicit_foreground,
        }
    }
}

/// What the screen is given.
pub struct ScreenContents {
    pub left_prompt: WString,
    pub right_prompt: WString,
    /// The command line with the autosuggestion.
    pub full_line: WString,
    pub autosuggested_range: Range<usize>,
    /// The color of each character of the full line.
    pub colors: Vec<HighlightSpec>,
    /// The indentation of each character of the full line.
    pub indents: Vec<i32>,
    pub cursor_position: usize,
    pub pager_search_field_position: Option<usize>,
    pub is_final_rendering: bool,
}

#[verifier::ext_equal]
pub struct ScreenView {
    pub left_prompt: Seq<char>,
    pub right_prompt: Seq<char>,
    pub full_line: Seq<char>,
    pub suggested: Range<int>,
    pub colors: Seq<HighlightSpec>,
    pub indents: Seq<i32>,
    pub cursor: int,
    pub search_field_cursor: Option<usize>,
    pub is_final: bool,
}

impl View for ScreenContents {
    type V = ScreenView;

    open spec fn view(&self) -> ScreenView {
        ScreenView {
            left_prompt: self.left_prompt@,
            right_prompt: self.right_prompt@,
            full_line: self.full_line@,
            suggested: extent(self.autosuggested_range),
            colors: self.colors@,
            indents: self.indents@,
            cursor: self.cursor_position as int,
            search_field_cursor: self.pager_search_field_position,
            is_final: self.is_final_rendering,
        }
    }
}

impl PaintRequest {
    fn compute_line_colors(&self, explicit_foreground: bool) -> (colors: Vec<HighlightSpec>)
        requires
            self@.wf(),
        ensures
            colors@ == self@.line_colors(explicit_foreground),
    {
        let mut colors: Vec<HighlightSpec> = Vec::new();
        let n: usize = self.layout.colors.len();
        let mut i: usize = 0;
        while i < n
            invariant
                n == self.layout.colors@.len(),
                i <= n,
                colors@.len() == i,
                forall|j: int| 0 <= j < i ==> colors@[j] == self@.color(j, explicit_foreground),
            decreases n - i,
        {
            let mut color = self.layout.colors[i];
            // Highlight any history search.
            if !self.in_silent_mode {
                if let Some(range) = &self.layout.history_search_range {
                    if range.start <= i && i < range.end {
                        if explicit_foreground {
                            color.foreground = HighlightRole::SearchMatch;
                        }
                        color.background = HighlightRole::SearchMatch;
                    }
                }
            }
            // Apply any selection.
            if let Some(selection) = self.layout.selection {
                if selection.start <= i && i < selection.stop {
                    color = HighlightSpec::with_both(HighlightRole::Selection);
                }
            }
            colors.push(color);
            i += 1;
        }
        assert(colors@ =~= self@.line_colors(explicit_foreground));
        colors
    }

    /// Compute what the screen is given for this request.
    pub fn paint(&self, ctx: &PaintContext) -> (r: ScreenContents)
        requires
            self@.wf(),
            inside(ctx@.last_token, self@.layout.text.len() as int),
            ctx@.indents.len() == self@.layout.text.len(),
        ensures
            r@ == self@.painted(ctx@),
            r@.colors.len() == r@.full_line.len(),
            r@.indents.len() == r@.full_line.len(),
    {
        let n: usize = self.layout.text.len();
        let mut start: usize = n;
        let mut end: usize = n;
        let full_line = if self.in_silent_mode {
            let mut line: WString = Vec::new();
            let mut i: usize = 0;
            while i < n
                invariant
                    i <= n,
                    line@ =~= Seq::new(i as nat, |i: int| ctx.obfuscation),
                decreases n - i,
            {
                line.push(ctx.obfuscation);
                i += 1;
            }
            line
        } else {
            match &self.suggestion {
                Some((range, text)) => {
                    // Combine the command and autosuggestion into one string.
                    let line = combine_command_and_autosuggestion(
                        &self.layout.text,
                        range.start..range.end,
                        text,
                        ctx.last_token.start..ctx.last_token.end,
                    );
                    proof {
                        crate::suggestion::law_combined_shows_suggestion(
                            self@.layout.text,
                            extent(*range),
                            text@,
                            ctx@.last_token,
                        );
                    }
                    let bound: usize = line.len();
                    assert(range.start + text@.len() <= bound);
                    start = range.end;
                    end = range.start + text.len();
                    line
                },
                None => copy_text(&self.layout.text),
            }
        };
        assert(full_line@ == self@.full_line(ctx@.last_token, ctx.obfuscation));
        assert(full_line@.len() == n + (end - start));
        // Extend our colors with the autosuggestion.
        let colors = self.compute_line_colors(ctx.explicit_foreground);
        let suggestion_color = if self.flash_autosuggestion {
            HighlightSpec::with_both(HighlightRole::SearchMatch)
        } else {
            HighlightSpec::with_fg(HighlightRole::Autosuggestion)
        };
        let colors = recolored(&colors, start, start, suggestion_color, end - start);
        // The autosuggestion always conceptually has an indent of 0.
        let indents = indented(&ctx.indents, start, end - start);
        // Prepend the mode prompt to the left prompt.
        let mut left_prompt = copy_text(&self.layout.mode_prompt_buff);
        push_text(&mut left_prompt, &self.layout.left_prompt_buff);
        ScreenContents {
            left_prompt,
            right_prompt: copy_text(&self.layout.right_prompt_buff),
            full_line,
            autosuggested_range: start..end,
            colors,
            indents,
            cursor_position: self.layout.position,
            pager_search_field_position: self.layout.pager_search_field_position,
            is_final_rendering: self.is_final_rendering,
        }
    }
}

fn indented(indents: &[i32], at: usize, n: usize) -> (r: Vec<i32>)
    requires
        at <= indents@.len(),
    ensures
        r@ == splice(
            indents@,
            Range { start: at as int, end: at as int },
            Seq::new(n as nat, |i: int| 0i32),
        ),
{
    let mut r: Vec<i32> = Vec::new();
    let mut i: usize = 0;
    while i < at
        invariant
            i <= at <= indents@.len(),
            r@ =~= indents@.subrange(0, i as int),
        decreases at - i,
    {
        r.push(indents[i]);
        i += 1;
    }
    let mut k: usize = 0;
    while k < n
        invariant
            k <= n,
            at <= indents@.len(),
            r@ =~= indents@.subrange(0, at as int) + Seq::new(k as nat, |i: int| 0i32),
        decreases n - k,
    {
        r.push(0);
        k += 1;
    }
    let ghost zeros = Seq::new(n as nat, |i: int| 0i32);
    while i < indents.len()
        invariant
            at <= i <= indents@.len(),
            r@ =~= indents@.subrange(0, at as int) + zeros + indents@.subrange(
                at as int,
                i as int,
            ),
        decreases indents@.len() - i,
    {
        r.push(indents[i]);
        i += 1;
    }
    r
}

/// In silent mode nothing of the command line is shown but its length.
pub proof fn law_silent_mode_shows_length_only(
    p: PaintView,
    q: PaintView,
    token: Range<int>,
    other_token: Range<int>,
    obfuscation: char,
)
    requires
        p.silent,
        q.silent,
        p.layout.text.len() == q.layout.text.len(),
    ensures
        p.full_line(token, obfuscation) == q.full_line(other_token, obfuscation),
        p.suggested_range() == q.suggested_range(),
{
    assert(p.full_line(token, obfuscation) =~= q.full_line(other_token, obfuscation));
}

} // verus!

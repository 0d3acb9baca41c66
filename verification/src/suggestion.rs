//! Autosuggestions: the text that continues the line at the cursor.

use crate::completion::{
    applicable, applied, completion_apply_to_command_line, lemma_applied_cursor, Completion,
    CompletionContext, CompletionView, ContextView,
};
use crate::text::{
    extent, inside, lemma_line_end, lemma_line_start, line_at_cursor, line_end, line_range,
    line_start, part,
    range_of_line_at_cursor, splice, spliced, subtext, text_eq, texts, WString,
};
use crate::unicode::{lowercased, to_lowercase, uppercase, whitespace};
use std::ops::Range;
use vstd::prelude::*;

verus! {

/// The characters are the same, possibly up to their case.
pub open spec fn same_char(icase: bool, a: char, b: char) -> bool {
    a == b || (icase && lowercased(a) == lowercased(b))
}

/// `p` is how `v` begins, possibly up to the case of the characters.
pub open spec fn prefixes(icase: bool, p: Seq<char>, v: Seq<char>) -> bool {
    &&& p.len() <= v.len()
    &&& forall|i: int| 0 <= i < p.len() ==> same_char(icase, #[trigger] p[i], v[i])
}

/// Test if the value begins with the proposed prefix, possibly up to the case.
pub fn string_prefixes_string_maybe_case_insensitive(
    icase: bool,
    proposed_prefix: &[char],
    value: &[char],
) -> (r: bool)
    ensures
        r == prefixes(icase, proposed_prefix@, value@),
{
    if proposed_prefix.len() > value.len() {
        return false;
    }
    let mut i: usize = 0;
    while i < proposed_prefix.len()
        invariant
            i <= proposed_prefix@.len() <= value@.len(),
            forall|j: int|
                0 <= j < i ==> same_char(icase, #[trigger] proposed_prefix@[j], value@[j]),
        decreases proposed_prefix@.len() - i,
    {
        let a = proposed_prefix[i];
        let b = value[i];
        if a != b && !(icase && text_eq(&to_lowercase(a), &to_lowercase(b))) {
            assert(!same_char(icase, proposed_prefix@[i as int], value@[i as int]));
            return false;
        }
        i += 1;
    }
    true
}

/// The current autosuggestion. An empty text means that there is none.
pub struct Autosuggestion {
    /// The text to use, as an extension/replacement of the current line.
    pub text: WString,
    /// The range within the commandline that was searched. Always a whole line.
    pub search_string_range: Range<usize>,
    /// Whether the autosuggestion should be case insensitive.
    /// This is true for file-generated autosuggestions, but not for history.
    pub icase: bool,
    /// Whether the autosuggestion is a whole match from history.
    pub is_whole_item_from_history: bool,
}

#[verifier::ext_equal]
pub struct SuggestionView {
    pub text: Seq<char>,
    pub range: Range<int>,
    pub icase: bool,
    pub is_whole: bool,
}

impl View for Autosuggestion {
    type V = SuggestionView;

    open spec fn view(&self) -> SuggestionView {
        SuggestionView {
            text: self.text@,
            range: extent(self.search_string_range),
            icase: self.icase,
            is_whole: self.is_whole_item_from_history,
        }
    }
}

pub open spec fn opt_suggestion(s: Option<Autosuggestion>) -> Option<SuggestionView> {
    match s {
        Some(s) => Some(s@),
        None => None,
    }
}

impl SuggestionView {
    pub open spec fn none() -> SuggestionView {
        SuggestionView {
            text: Seq::empty(),
            range: Range { start: 0, end: 0 },
            icase: false,
            is_whole: false,
        }
    }

    /// The suggestion continues a part of the command line.
    pub open spec fn continues(self, line: Seq<char>) -> bool {
        &&& inside(self.range, line.len() as int)
        &&& prefixes(self.icase, part(line, self.range), self.text)
    }

    pub open spec fn cleared(self) -> SuggestionView {
        SuggestionView { text: Seq::empty(), ..self }
    }
}

impl Autosuggestion {
    pub fn new() -> (r: Autosuggestion)
        ensures
            r@ == SuggestionView::none(),
    {
        Autosuggestion {
            text: Vec::new(),
            search_string_range: 0..0,
            icase: false,
            is_whole_item_from_history: false,
        }
    }

    /// Clear our contents.
    pub fn clear(&mut self)
        ensures
            final(self)@ == old(self)@.cleared(),
    {
        self.text = Vec::new();
    }

    /// Return whether we have empty text.
    pub fn is_empty(&self) -> (r: bool)
        ensures
            r == (self@.text.len() == 0),
    {
        self.text.len() == 0
    }
}

/// The command line as it is shown with a suggestion for the range `r`. Where the two agree up to
/// the case only, a last token in lowercase takes on the case of the suggestion.
pub open spec fn combined(
    cmdline: Seq<char>,
    r: Range<int>,
    suggestion: Seq<char>,
    last_token: Range<int>,
) -> Seq<char> {
    if !prefixes(false, part(cmdline, r), suggestion) && !any_uppercase(part(cmdline, last_token)) {
        splice(cmdline, r, suggestion)
    } else {
        splice(cmdline, Range { start: r.end, end: r.end }, suggestion.skip(r.end - r.start))
    }
}

pub open spec fn any_uppercase(s: Seq<char>) -> bool {
    exists|i: int| 0 <= i < s.len() && uppercase(#[trigger] s[i])
}

fn contains_uppercase(s: &[char]) -> (r: bool)
    ensures
        r == any_uppercase(s@),
{
    let mut i: usize = 0;
    while i < s.len()
        invariant
            i <= s@.len(),
            forall|j: int| 0 <= j < i ==> !uppercase(#[trigger] s@[j]),
        decreases s@.len() - i,
    {
        if s[i].is_uppercase() {
            assert(uppercase(s@[i as int]));
            return true;
        }
        i += 1;
    }
    false
}

/// Given a command line and an autosuggestion, return the string that gets shown to the user.
/// `last_token` is the extent of the last token of the command line.
pub fn combine_command_and_autosuggestion(
    cmdline: &[char],
    line_range: Range<usize>,
    autosuggestion: &[char],
    last_token: Range<usize>,
) -> (r: WString)
    requires
        inside(extent(line_range), cmdline@.len() as int),
        inside(extent(last_token), cmdline@.len() as int),
        autosuggestion@.len() > 0,
        prefixes(true, part(cmdline@, extent(line_range)), autosuggestion@),
    ensures
        r@ == combined(cmdline@, extent(line_range), autosuggestion@, extent(last_token)),
{
    let start = line_range.start;
    let pos = line_range.end;
    let line = &cmdline[start..pos];
    if !string_prefixes_string_maybe_case_insensitive(false, line, autosuggestion) {
        // We have an autosuggestion which is not a prefix of the command line, i.e. a case
        // disagreement. Decide whose case we want to use.
        // Here we do something funny: if the last token of the command line contains any uppercase
        // characters, we use its case. Otherwise we use the case of the autosuggestion.
        let tok = &cmdline[last_token.start..last_token.end];
        if !contains_uppercase(tok) {
            return spliced(cmdline, start, pos, autosuggestion);
        }
    }
    // Use the command line case for its characters, then append the remaining characters in the
    // autosuggestion.
    let rest = subtext(autosuggestion, pos - start, autosuggestion.len());
    assert(rest@ =~= autosuggestion@.skip(pos - start));
    spliced(cmdline, pos, pos, &rest)
}

/// What is shown is the text around the line, and between them the suggestion, in which the
/// characters typed so far may keep their case.
pub proof fn law_combined_shows_suggestion(
    cmdline: Seq<char>,
    r: Range<int>,
    suggestion: Seq<char>,
    last_token: Range<int>,
)
    requires
        inside(r, cmdline.len() as int),
        prefixes(true, part(cmdline, r), suggestion),
    ensures
        ({
            let shown = combined(cmdline, r, suggestion, last_token);
            let mid = shown.subrange(r.start, r.start + suggestion.len());
            &&& shown.len() == cmdline.len() - (r.end - r.start) + suggestion.len()
            &&& shown.take(r.start) == cmdline.take(r.start)
            &&& shown.skip(r.start + suggestion.len()) == cmdline.skip(r.end)
            &&& mid.len() == suggestion.len()
            &&& prefixes(true, mid, suggestion)
            &&& prefixes(false, part(cmdline, r), suggestion) ==> mid == suggestion
        }),
{
    let shown = combined(cmdline, r, suggestion, last_token);
    let mid = shown.subrange(r.start, r.start + suggestion.len());
    let line = part(cmdline, r);
    assert(shown.take(r.start) =~= cmdline.take(r.start));
    assert(shown.skip(r.start + suggestion.len()) =~= cmdline.skip(r.end));
    assert forall|i: int| 0 <= i < mid.len() implies same_char(
        true,
        #[trigger] mid[i],
        suggestion[i],
    ) by {
        if i < line.len() {
            assert(same_char(true, line[i], suggestion[i]));
        }
    }
    if prefixes(false, line, suggestion) {
        assert forall|i: int| 0 <= i < mid.len() implies #[trigger] mid[i] == suggestion[i] by {
            if i < line.len() {
                assert(same_char(false, line[i], suggestion[i]));
            }
        }
        assert(mid =~= suggestion);
    }
}

/// The result of an autosuggestion computation.
pub struct AutosuggestionResult {
    /// The autosuggestion.
    pub autosuggestion: Autosuggestion,
    /// The commandline this result is based off.
    pub command_line: WString,
    /// The list of completions which may need loading.
    pub needs_load: Vec<WString>,
}

#[verifier::ext_equal]
pub struct ResultView {
    pub suggestion: SuggestionView,
    pub command_line: Seq<char>,
    pub needs_load: Seq<Seq<char>>,
}

impl View for AutosuggestionResult {
    type V = ResultView;

    open spec fn view(&self) -> ResultView {
        ResultView {
            suggestion: self.autosuggestion@,
            command_line: self.command_line@,
            needs_load: texts(self.needs_load@),
        }
    }
}

impl ResultView {
    pub open spec fn nothing() -> ResultView {
        ResultView {
            suggestion: SuggestionView::none(),
            command_line: Seq::empty(),
            needs_load: Seq::empty(),
        }
    }
}

impl AutosuggestionResult {
    /// A result for which nothing has to be loaded.
    pub fn new(
        command_line: WString,
        search_string_range: Range<usize>,
        text: WString,
        icase: bool,
        is_whole_item_from_history: bool,
    ) -> (r: AutosuggestionResult)
        ensures
            r@ == (ResultView {
                suggestion: SuggestionView {
                    text: text@,
                    range: extent(search_string_range),
                    icase,
                    is_whole: is_whole_item_from_history,
                },
                command_line: command_line@,
                needs_load: Seq::empty(),
            }),
    {
        let r = AutosuggestionResult {
            autosuggestion: Autosuggestion {
                text,
                search_string_range,
                icase,
                is_whole_item_from_history,
            },
            command_line,
            needs_load: Vec::new(),
        };
        assert(texts(r.needs_load@) =~= Seq::empty());
        r
    }

    fn nothing() -> (r: AutosuggestionResult)
        ensures
            r@ == ResultView::nothing(),
    {
        AutosuggestionResult::new(Vec::new(), 0..0, Vec::new(), false, false)
    }

    /// The line which was searched for.
    pub fn search_string(&self) -> (r: WString)
        requires
            inside(self@.suggestion.range, self@.command_line.len() as int),
        ensures
            r@ == part(self@.command_line, self@.suggestion.range),
    {
        subtext(
            &self.command_line,
            self.autosuggestion.search_string_range.start,
            self.autosuggestion.search_string_range.end,
        )
    }
}

/// An item of the history that has a line which begins with what was typed, and whether it may be
/// suggested: the command exists, its paths are there.
pub struct HistoryCandidate {
    pub text: WString,
    pub valid: bool,
}

#[verifier::ext_equal]
pub struct CandidateView {
    pub text: Seq<char>,
    pub valid: bool,
}

impl View for HistoryCandidate {
    type V = CandidateView;

    open spec fn view(&self) -> CandidateView {
        CandidateView { text: self.text@, valid: self.valid }
    }
}

pub open spec fn candidates(s: Seq<HistoryCandidate>) -> Seq<CandidateView> {
    s.map_values(|c: HistoryCandidate| c@)
}

/// What the shell found for an autosuggestion.
pub struct SuggestionSources {
    /// The work was called off before it began.
    pub cancelled: bool,
    /// Where the process at the cursor begins, if it has any token.
    pub process_start: Option<usize>,
    /// The matching items of the history, newest first, as far as they were looked at.
    pub history: Vec<HistoryCandidate>,
    /// The work was called off after the history was searched.
    pub cancelled_after_history: bool,
    /// The best completion of the line, and what the shell has to say for applying it at the end of
    /// the line.
    pub best: Option<(Completion, CompletionContext)>,
    /// The commands whose completions may need loading.
    pub needs_load: Vec<WString>,
}

#[verifier::ext_equal]
pub struct SourcesView {
    pub cancelled: bool,
    pub process_start: Option<usize>,
    pub history: Seq<CandidateView>,
    pub cancelled_after_history: bool,
    pub best: Option<(CompletionView, ContextView)>,
    pub needs_load: Seq<Seq<char>>,
}

impl View for SuggestionSources {
    type V = SourcesView;

    open spec fn view(&self) -> SourcesView {
        SourcesView {
            cancelled: self.cancelled,
            process_start: self.process_start,
            history: candidates(self.history@),
            cancelled_after_history: self.cancelled_after_history,
            best: match self.best {
                Some((comp, ctx)) => Some((comp@, ctx@)),
                None => None,
            },
            needs_load: texts(self.needs_load@),
        }
    }
}

/// The last line that begins with `prefix` among those that end at or before `end`.
pub open spec fn last_line_with(s: Seq<char>, prefix: Seq<char>, end: int) -> Option<Seq<char>>
    decreases end,
{
    let start = line_start(s, end);
    if end < 0 || end > s.len() || !(0 <= start <= end) {
        None
    } else if prefixes(false, prefix, s.subrange(start, end)) {
        Some(s.subrange(start, end))
    } else if start == 0 {
        None
    } else {
        last_line_with(s, prefix, start - 1)
    }
}

pub open spec fn matched_line(item: Seq<char>, prefix: Seq<char>) -> Option<Seq<char>> {
    last_line_with(item, prefix, item.len() as int)
}

/// The first item of the history that may be suggested.
pub open spec fn first_valid(items: Seq<CandidateView>, i: int) -> Option<CandidateView>
    decreases items.len() - i,
{
    if i < 0 || i >= items.len() {
        None
    } else if items[i].valid {
        Some(items[i])
    } else {
        first_valid(items, i + 1)
    }
}

/// The line at the cursor is one on which the process begins: it neither continues another line nor
/// lies in a quoted string.
pub open spec fn searches_history(line: Seq<char>, cursor: int, process_start: Option<usize>) -> bool {
    let from = match process_start {
        Some(p) => p as int,
        None => cursor,
    };
    line_range(line, from) == line_range(line, cursor)
}

/// Completions are not suggested inside of a line that ends in a space, nor behind a quote.
pub open spec fn may_suggest_completion(line: Seq<char>, cursor: int) -> bool {
    let r = line_range(line, cursor);
    let last = line[r.end - 1];
    let at_end = cursor == r.end;
    &&& at_end || !whitespace(last)
    &&& !(at_end && (last == '\'' || last == '"'))
}

/// The line that a completion applied at `end` gives.
pub open spec fn completed_line(
    comp: CompletionView,
    line: Seq<char>,
    end: int,
    ctx: ContextView,
) -> Seq<char> {
    let a = applied(comp.completion, comp.flags, line, end, true, ctx);
    part(a.line, line_range(a.line, a.cursor))
}

/// The autosuggestion for a command line.
pub open spec fn suggested(line: Seq<char>, cursor: int, src: SourcesView) -> ResultView {
    let r = line_range(line, cursor);
    let found = if searches_history(line, cursor, src.process_start) {
        first_valid(src.history, 0)
    } else {
        None
    };
    if src.cancelled || r.start == r.end {
        ResultView::nothing()
    } else if found is Some {
        let item = found.unwrap().text;
        let text = matched_line(item, part(line, r)).unwrap();
        ResultView {
            suggestion: SuggestionView {
                text,
                range: r,
                icase: false,
                is_whole: text.len() == item.len(),
            },
            command_line: line,
            needs_load: Seq::empty(),
        }
    } else if src.cancelled_after_history || !may_suggest_completion(line, cursor) {
        ResultView::nothing()
    } else {
        ResultView {
            suggestion: SuggestionView {
                text: match src.best {
                    Some((comp, ctx)) => completed_line(comp, line, r.end, ctx),
                    None => Seq::empty(),
                },
                range: r,
                icase: true,
                is_whole: false,
            },
            command_line: line,
            needs_load: src.needs_load,
        }
    }
}

fn find_matched_line(item: &[char], prefix: &[char]) -> (r: Option<WString>)
    ensures
        (match r {
            Some(line) => Some(line@),
            None => None,
        }) == matched_line(item@, prefix@),
{
    let mut end: usize = item.len();
    loop
        invariant
            end <= item@.len(),
            last_line_with(item@, prefix@, end as int) == matched_line(item@, prefix@),
        decreases end,
    {
        proof {
            lemma_line_start(item@, end as int);
        }
        let mut start: usize = end;
        while start > 0 && item[start - 1] != '\n'
            invariant
                start <= end <= item@.len(),
                line_start(item@, start as int) == line_start(item@, end as int),
            decreases start,
        {
            start -= 1;
        }
        if string_prefixes_string_maybe_case_insensitive(false, prefix, &item[start..end]) {
            return Some(subtext(item, start, end));
        }
        if start == 0 {
            return None;
        }
        end = start - 1;
    }
}

/// Determine the autosuggestion for a command line, from what was found for it.
///
/// A valid item of the history is preferred over a completion, and only a single line of it is
/// suggested.
pub fn get_autosuggestion_performer(
    command_line: WString,
    cursor_pos: usize,
    sources: SuggestionSources,
) -> (r: AutosuggestionResult)
    requires
        cursor_pos <= command_line@.len(),
        sources.process_start matches Some(p) ==> p <= command_line@.len(),
        sources@.best matches Some((comp, ctx)) ==> applicable(
            comp.flags,
            command_line@,
            line_end(command_line@, cursor_pos as int),
            ctx,
        ),
        searches_history(command_line@, cursor_pos as int, sources@.process_start) ==> forall|i: int|
            0 <= i < sources@.history.len() ==> matched_line(
                (#[trigger] sources@.history[i]).text,
                part(command_line@, line_range(command_line@, cursor_pos as int)),
            ) is Some,
    ensures
        r@ == suggested(command_line@, cursor_pos as int, sources@),
{
    if sources.cancelled {
        return AutosuggestionResult::nothing();
    }
    // Let's make sure we aren't using the empty string.
    let range = range_of_line_at_cursor(&command_line, cursor_pos);
    if range.start == range.end {
        return AutosuggestionResult::nothing();
    }
    let last_char = command_line[range.end - 1];
    // Search history for a matching item unless this line is not a continuation line or quoted.
    let from = match sources.process_start {
        Some(p) => p,
        None => cursor_pos,
    };
    let process_line = range_of_line_at_cursor(&command_line, from);
    if process_line.start == range.start && process_line.end == range.end {
        let search_string = subtext(&command_line, range.start, range.end);
        let ghost items = sources@.history;
        let mut i: usize = 0;
        while i < sources.history.len()
            invariant
                i <= sources.history@.len(),
                items == candidates(sources.history@),
                items == sources@.history,
                cursor_pos <= command_line@.len(),
                extent(range) == line_range(command_line@, cursor_pos as int),
                range.start < range.end,
                searches_history(command_line@, cursor_pos as int, sources@.process_start),
                !sources.cancelled,
                search_string@ == part(command_line@, extent(range)),
                first_valid(items, i as int) == first_valid(items, 0),
                forall|i: int|
                    0 <= i < items.len() ==> matched_line(
                        (#[trigger] items[i]).text,
                        search_string@,
                    ) is Some,
            decreases sources.history@.len() - i,
        {
            let item = &sources.history[i];
            assert(items[i as int] == item@);
            if item.valid {
                // Suggest only a single line each time.
                let line = find_matched_line(&item.text, &search_string).unwrap();
                let is_whole = line.len() == item.text.len();
                // History items are case-sensitive.
                return AutosuggestionResult::new(command_line, range, line, false, is_whole);
            }
            i += 1;
        }
    }
    // Maybe cancel here.
    if sources.cancelled_after_history {
        return AutosuggestionResult::nothing();
    }
    // Here we do something a little funny. If the line ends with a space, and the cursor is not at
    // the end, don't use completion autosuggestions. It ends up being pretty weird seeing stuff get
    // spammed on the right while you go back to edit a line
    proof {
        lemma_line_end(command_line@, cursor_pos as int);
    }
    let cursor_at_end = cursor_pos == command_line.len() || command_line[cursor_pos] == '\n';
    if !cursor_at_end && last_char.is_whitespace() {
        return AutosuggestionResult::nothing();
    }
    // On the other hand, if the line ends with a quote, don't go dumping stuff after the quote.
    if (last_char == '\'' || last_char == '"') && cursor_at_end {
        return AutosuggestionResult::nothing();
    }
    // Try normal completions.
    let suggestion = match &sources.best {
        Some((comp, ctx)) => {
            let mut would_be_cursor = range.end;
            proof {
                lemma_applied_cursor(
                    comp.completion@,
                    comp.flags,
                    command_line@,
                    range.end as int,
                    true,
                    ctx@,
                );
            }
            let full_line = completion_apply_to_command_line(
                &comp.completion,
                comp.flags,
                &command_line,
                &mut would_be_cursor,
                true,
                ctx,
            );
            line_at_cursor(&full_line, would_be_cursor)
        },
        None => Vec::new(),
    };
    // Normal completions are case-insensitive.
    let mut result = AutosuggestionResult::new(command_line, range, suggestion, true, false);
    result.needs_load = sources.needs_load;
    result
}

/// A suggestion from the history continues the line at the cursor, in the same case, and is a
/// single line.
pub proof fn law_history_suggestion_continues_line(
    line: Seq<char>,
    cursor: int,
    src: SourcesView,
)
    requires
        0 <= cursor <= line.len(),
        forall|i: int|
            0 <= i < src.history.len() ==> matched_line(
                (#[trigger] src.history[i]).text,
                part(line, line_range(line, cursor)),
            ) is Some,
    ensures
        ({
            let s = suggested(line, cursor, src).suggestion;
            s.text.len() > 0 && !s.icase ==> s.continues(line) && !s.text.contains('\n')
        }),
{
    let r = line_range(line, cursor);
    lemma_line_start(line, cursor);
    lemma_line_end(line, cursor);
    if searches_history(line, cursor, src.process_start) {
        lemma_first_valid(src.history, 0);
        if let Some(c) = first_valid(src.history, 0) {
            let k = choose|k: int| 0 <= k < src.history.len() && src.history[k] == c;
            assert(matched_line(src.history[k].text, part(line, r)) is Some);
            lemma_last_line_with(c.text, part(line, r), c.text.len() as int);
        }
    }
}

proof fn lemma_first_valid(items: Seq<CandidateView>, i: int)
    requires
        0 <= i <= items.len(),
    ensures
        first_valid(items, i) matches Some(c) ==> items.contains(c) && c.valid,
    decreases items.len() - i,
{
    if i < items.len() {
        if items[i].valid {
            assert(items.contains(items[i]));
        } else {
            lemma_first_valid(items, i + 1);
        }
    }
}

proof fn lemma_last_line_with(s: Seq<char>, prefix: Seq<char>, end: int)
    requires
        0 <= end <= s.len(),
    ensures
        last_line_with(s, prefix, end) matches Some(line) ==> {
            &&& prefixes(false, prefix, line)
            &&& !line.contains('\n')
        },
    decreases end,
{
    lemma_line_start(s, end);
    let start = line_start(s, end);
    if !prefixes(false, prefix, s.subrange(start, end)) && start > 0 {
        lemma_last_line_with(s, prefix, start - 1);
    }
}

} // verus!

//! What executing, cancelling and exiting promise.

use crate::abbreviation::ReplacementView;
use crate::abbreviation_laws::law_abbreviation_is_replaced;
use crate::action::{ActionView, SyntaxTest};
use crate::command::ReadlineCmd;
use crate::data::{CursorEndMode, DataView, EditableLineTag, LoopView};
use crate::edit::{lemma_edited, lemma_moved};
use crate::edit_laws::{law_line_is_edited, lemma_edit_is_quiet};
use crate::event::{ReaderView, TerminalState};
use crate::finish::trimmed;
use crate::line::LineView;
use crate::readline::SurroundingsView;
use crate::suggestion_laws::{bounds_line, law_line_bounds};
use crate::text::{backslashed, backslashes_before, line_end, line_start};
use crate::unicode::whitespace;
use std::ops::Range;
use vstd::prelude::*;

verus! {

/// Something is asked for that was not asked for before.
pub open spec fn asks_for(d: DataView, next: DataView, a: ActionView) -> bool {
    exists|i: int| d.actions.len() <= i < next.actions.len() && #[trigger] next.actions[i] == a
}

/// Nothing is put into the history that was not asked for before.
pub open spec fn leaves_history(d: DataView, next: DataView) -> bool {
    &&& d.actions.len() <= next.actions.len()
    &&& forall|i: int|
        d.actions.len() <= i < next.actions.len() ==> !(#[trigger] next.actions[i] is AddToHistory)
}

/// The outcome of Enter that a test of the syntax of the command line has.
pub open spec fn has_outcome(d: DataView, next: DataView, test: SyntaxTest) -> bool {
    let text = d.command_line.text;
    let pos = d.command_line.position;
    match test {
        // More is to come: a newline goes in at the cursor.
        SyntaxTest::Incomplete => {
            &&& next.command_line.text == text.take(pos) + seq!['\n'] + text.skip(pos)
            &&& next.command_line.position == pos + 1
            &&& next.rls == d.rls
            &&& next.actions == d.actions
        },
        // It stays for the user to mend.
        SyntaxTest::Erroneous => {
            &&& next.command_line == d.command_line
            &&& next.rls == d.rls
            &&& leaves_history(d, next)
            &&& asks_for(d, next, ActionView::FirePostError(text))
            &&& asks_for(d, next, ActionView::ResetAbandoningLine)
        },
        // It runs.
        SyntaxTest::Valid => {
            &&& next.command_line.text == text
            &&& next.rls is Some
            &&& next.rls->0.finished
            &&& !d.conf.in_silent_mode && trimmed(text).len() > 0 ==> asks_for(
                d,
                next,
                ActionView::AddToHistory(trimmed(text)),
            )
            &&& d.conf.in_silent_mode || trimmed(text).len() == 0 ==> leaves_history(d, next)
            &&& d.end_mode == CursorEndMode::Exclusive ==> next.command_line.position == text.len()
            &&& next.command_line.pending_position == Some(pos as usize)
        },
    }
}

proof fn lemma_concluded(d: DataView, test: SyntaxTest)
    requires
        0 <= d.command_line.position <= d.command_line.text.len(),
        d.command_line.colors.len() == d.command_line.text.len(),
    ensures
        has_outcome(d, d.execution_concluded(test), test),
{
    let next = d.execution_concluded(test);
    let elt = EditableLineTag::Commandline;
    let n = d.actions.len() as int;
    let text = d.command_line.text;
    match test {
        SyntaxTest::Incomplete => {
            let pos = d.command_line.position;
            let at = Range { start: pos, end: pos };
            lemma_edited(d, elt, at, seq!['\n'], !d.search.active());
            law_line_is_edited(d.command_line, at, seq!['\n'], !d.search.active());
            reveal(DataView::edited);
        },
        SyntaxTest::Erroneous => {
            assert(next.actions[n] == ActionView::FirePostError(text));
            assert(next.actions[n + 1] == ActionView::ResetAbandoningLine);
        },
        SyntaxTest::Valid => {
            let added = d.added_to_history();
            let noted = DataView {
                rls: Some(LoopView { finished: true, ..added.rls.unwrap() }),
                command_line: LineView {
                    pending_position: Some(d.command_line.position as usize),
                    ..d.command_line
                },
                ..added
            };
            lemma_moved(noted, elt, Some(text.len() as int));
            assert(next == noted.moved(elt, Some(text.len() as int)));
            if !d.conf.in_silent_mode {
                assert(next.actions[n] == ActionView::RemoveEphemeralItems);
                if trimmed(text).len() > 0 {
                    assert(next.actions[n + 1] == ActionView::AddToHistory(trimmed(text)));
                }
            }
        },
    }
}

/// Where no abbreviation was expanded, Enter has the outcome of the test that was made before it: the
/// command runs only if that said it is valid, an incomplete one gets a newline at the cursor, and one
/// with an error stays. Only one that runs goes into the history.
pub proof fn law_enter_has_outcome_of_test(d: DataView, test: SyntaxTest, retest: SyntaxTest)
    requires
        d.wf(),
        d.rls is Some,
        !d.rls->0.finished,
    ensures
        ({
            let next = d.execution_expanded(test, None, retest);
            &&& has_outcome(d, next, test)
            &&& next.rls->0.finished <==> test == SyntaxTest::Valid
            &&& test != SyntaxTest::Valid ==> leaves_history(d, next)
        }),
{
    lemma_concluded(d, test);
}

/// Where an abbreviation was expanded, Enter has the outcome of the test of the command line with the
/// expansion in it; or of the first one, where the syntax is not checked.
pub proof fn law_enter_tests_expansion(
    d: DataView,
    test: SyntaxTest,
    r: ReplacementView,
    retest: SyntaxTest,
)
    requires
        d.wf(),
        d.rls is Some,
        !d.rls->0.finished,
        r.applies(d.command_line.text.len() as int),
        d.end_mode == CursorEndMode::Exclusive,
        d.command_line.text.len() - (r.range.end - r.range.start) + r.text.len() <= isize::MAX,
    ensures
        ({
            let next = d.execution_expanded(test, Some(r), retest);
            let counts = if d.conf.syntax_check_ok {
                retest
            } else {
                test
            };
            let text = d.command_line.text;
            let full = text.take(r.range.start) + r.text + text.skip(r.range.end);
            &&& next.rls->0.finished <==> counts == SyntaxTest::Valid
            &&& counts != SyntaxTest::Incomplete ==> next.command_line.text == full
            &&& counts == SyntaxTest::Incomplete ==> exists|pos: int|
                next.command_line.text == #[trigger] full.take(pos) + seq!['\n'] + full.skip(pos)
                    && (r.cursor is Some ==> pos == r.cursor->0)
            &&& counts == SyntaxTest::Valid && !d.conf.in_silent_mode && trimmed(full).len() > 0
                ==> asks_for(d, next, ActionView::AddToHistory(trimmed(full)))
            &&& counts != SyntaxTest::Valid ==> leaves_history(d, next)
            &&& counts == SyntaxTest::Erroneous && d.conf.syntax_check_ok ==> asks_for(
                d,
                next,
                ActionView::ReportSyntaxErrors(full),
            )
        }),
{
    let next = d.execution_expanded(test, Some(r), retest);
    let counts = if d.conf.syntax_check_ok {
        retest
    } else {
        test
    };
    let text = d.command_line.text;
    let full = text.take(r.range.start) + r.text + text.skip(r.range.end);
    let put = d.abbreviation_applied(r);
    law_abbreviation_is_replaced(d, r);
    let elt = EditableLineTag::Commandline;
    lemma_edit_is_quiet(d, r.range, r.text, false);
    lemma_edited(d, elt, r.range, r.text, false);
    law_line_is_edited(d.command_line, r.range, r.text, false);
    lemma_moved(d.replaced(elt, r.range, r.text), elt, r.cursor);
    assert(put.actions == d.actions);
    let shown = put.highlighting();
    assert(d.actions.len() <= shown.actions.len());
    assert(forall|i: int|
        d.actions.len() <= i < shown.actions.len() ==> #[trigger] shown.actions[i] is Highlight);
    let base = if d.conf.syntax_check_ok && retest == SyntaxTest::Erroneous {
        shown.syntax_errors_reported()
    } else {
        shown
    };
    assert(next == base.execution_concluded(counts));
    assert(base.command_line == put.command_line);
    if d.conf.syntax_check_ok && retest == SyntaxTest::Erroneous {
        assert(base.actions[shown.actions.len() as int] == ActionView::ReportSyntaxErrors(full));
    }
    lemma_concluded(base, counts);
    if d.conf.syntax_check_ok && retest == SyntaxTest::Erroneous {
        assert(next.actions[shown.actions.len() as int] == ActionView::ReportSyntaxErrors(full));
    }
}

/// A newline typed here would be escaped: an odd number of backslashes stands before it.
pub open spec fn escapes_newline(text: Seq<char>, pos: int) -> bool {
    exists|from: int| #[trigger] odd_backslashes(text, from, pos)
}

/// From there to the other position there are backslashes only, an odd number, and none before.
pub open spec fn odd_backslashes(text: Seq<char>, from: int, to: int) -> bool {
    &&& 0 <= from < to <= text.len()
    &&& (to - from) % 2 == 1
    &&& forall|i: int| from <= i < to ==> #[trigger] text[i] == '\\'
    &&& from > 0 ==> text[from - 1] != '\\'
}

/// The backslashes before a position are those that stand there without a gap.
pub proof fn law_backslashes(s: Seq<char>, pos: int)
    requires
        0 <= pos <= s.len(),
    ensures
        ({
            let n = backslashes_before(s, pos);
            &&& n <= pos
            &&& forall|i: int| pos - n <= i < pos ==> #[trigger] s[i] == '\\'
            &&& n < pos ==> s[pos - n - 1] != '\\'
        }),
    decreases pos,
{
    if pos > 0 && s[pos - 1] == '\\' {
        law_backslashes(s, pos - 1);
    }
}

/// A character is escaped if an odd number of backslashes stands before it.
pub proof fn law_backslashed(s: Seq<char>, pos: int)
    requires
        0 <= pos <= s.len(),
    ensures
        backslashed(s, pos) <==> escapes_newline(s, pos),
{
    law_backslashes(s, pos);
    let n = backslashes_before(s, pos);
    if n % 2 == 1 {
        assert(odd_backslashes(s, pos - n, pos));
    }
    if escapes_newline(s, pos) {
        let from = choose|from: int| #[trigger] odd_backslashes(s, from, pos);
        if from < pos - n {
            assert(s[pos - n - 1] == '\\');
        }
        if from > pos - n {
            assert(s[from - 1] == '\\');
        }
    }
}

/// Enter behind a backslash goes on with the command on a new line, whatever the syntax is: at the
/// cursor, if it is at the end or before whitespace, or else at the end. A backslash at the end of a
/// comment does not count.
pub proof fn law_enter_continues_behind_backslash(
    reader: ReaderView,
    env: SurroundingsView,
    t: TerminalState,
)
    requires
        reader.data.wf(),
        !reader.data.navigating(),
    ensures
        ({
            let d = reader.data;
            let text = d.command_line.text;
            let pos = d.command_line.position;
            let n = text.len() as int;
            let here = escapes_newline(text, pos) && if pos == n {
                !env.ends_in_comment
            } else {
                whitespace(text[pos])
            };
            let at_end = pos < n && escapes_newline(text, n) && !env.ends_in_comment;
            let next = reader.commanded(ReadlineCmd::Execute, env, t).data;
            let at = if here {
                pos
            } else {
                n
            };
            here || at_end ==> {
                &&& next.command_line.text == text.take(at) + seq!['\n'] + text.skip(at)
                &&& next.command_line.position == at + 1
                &&& next.rls == d.rls
                &&& next.actions == d.actions
            }
        }),
{
    reveal(DataView::control_command);
    reveal(DataView::edited);
    let d = reader.data;
    let text = d.command_line.text;
    let pos = d.command_line.position;
    law_backslashed(text, pos);
    law_backslashed(text, text.len() as int);
    let base = DataView { autosuggestion: d.autosuggestion.cleared(), ..d }.pager_cleared();
    assert(base.command_line == d.command_line);
    assert(base.actions == d.actions);
    match base.continuation(env.ends_in_comment) {
        Some(at) => {
            let there = d.command_line.moved_to(at);
            law_line_is_edited(
                there,
                Range { start: at, end: at },
                seq!['\n'],
                !base.search.active(),
            );
        },
        None => {},
    }
}

/// Enter runs a valid command, shows the errors in an erroneous one and leaves it, and goes on with an
/// incomplete one, if no backslash escapes the newline and no abbreviation may be expanded first. The
/// syntax only counts where it is checked.
pub proof fn law_enter_without_abbreviations(
    reader: ReaderView,
    env: SurroundingsView,
    t: TerminalState,
)
    requires
        reader.data.wf(),
        reader.data.rls is Some,
        !reader.data.rls->0.finished,
        !reader.data.navigating(),
        !escapes_newline(reader.data.command_line.text, reader.data.command_line.position),
        !escapes_newline(
            reader.data.command_line.text,
            reader.data.command_line.text.len() as int,
        ),
        !reader.data.conf.expand_abbrev_ok,
    ensures
        ({
            let d = reader.data;
            let next = reader.commanded(ReadlineCmd::Execute, env, t).data;
            let counts = if d.conf.syntax_check_ok {
                env.syntax
            } else {
                SyntaxTest::Valid
            };
            &&& has_outcome(d, next, counts)
            &&& next.rls->0.finished <==> counts == SyntaxTest::Valid
            &&& counts == SyntaxTest::Erroneous ==> asks_for(
                d,
                next,
                ActionView::ReportSyntaxErrors(d.command_line.text),
            )
        }),
{
    let d = reader.data;
    let next = reader.commanded(ReadlineCmd::Execute, env, t).data;
    let counts = if d.conf.syntax_check_ok {
        env.syntax
    } else {
        SyntaxTest::Valid
    };
    let base = DataView { autosuggestion: d.autosuggestion.cleared(), ..d }.pager_cleared();
    lemma_enter(reader, env, t);
    if counts == SyntaxTest::Erroneous {
        let n = d.actions.len() as int;
        assert(next == base.syntax_errors_reported().execution_failed());
        let m = base.syntax_errors_reported().actions.len() as int;
        assert(next.actions[n] == ActionView::ReportSyntaxErrors(d.command_line.text));
        assert(next.actions[m] == ActionView::FirePostError(d.command_line.text));
        assert(next.actions[m + 1] == ActionView::ResetAbandoningLine);
    } else {
        lemma_concluded(base, counts);
    }
}

/// What Enter does where no backslash escapes the newline.
proof fn lemma_enter(reader: ReaderView, env: SurroundingsView, t: TerminalState)
    requires
        reader.data.wf(),
        !reader.data.navigating(),
        !escapes_newline(reader.data.command_line.text, reader.data.command_line.position),
        !escapes_newline(
            reader.data.command_line.text,
            reader.data.command_line.text.len() as int,
        ),
    ensures
        ({
            let d = reader.data;
            let base = DataView { autosuggestion: d.autosuggestion.cleared(), ..d }.pager_cleared();
            &&& reader.commanded(ReadlineCmd::Execute, env, t).data == base.execution_expanding(
                env.syntax,
            )
            &&& base.command_line == d.command_line
            &&& base.actions == d.actions
            &&& base.rls == d.rls
            &&& base.conf == d.conf
            &&& base.end_mode == d.end_mode
            &&& base.active_tag() == EditableLineTag::Commandline
        }),
{
    reveal(DataView::control_command);
    reveal(DataView::edited);
    let d = reader.data;
    law_backslashed(d.command_line.text, d.command_line.position);
    law_backslashed(d.command_line.text, d.command_line.text.len() as int);
}

/// Where abbreviations may be expanded, Enter first asks for the one at the cursor to be expanded, if
/// there is no error in the syntax, and keeps what the test said. Nothing has run by then.
pub proof fn law_enter_expands_first(reader: ReaderView, env: SurroundingsView, t: TerminalState)
    requires
        reader.data.wf(),
        !reader.data.navigating(),
        !escapes_newline(reader.data.command_line.text, reader.data.command_line.position),
        !escapes_newline(
            reader.data.command_line.text,
            reader.data.command_line.text.len() as int,
        ),
        reader.data.conf.expand_abbrev_ok,
    ensures
        ({
            let d = reader.data;
            let next = reader.commanded(ReadlineCmd::Execute, env, t).data;
            let checked = if d.conf.syntax_check_ok {
                env.syntax
            } else {
                SyntaxTest::Valid
            };
            &&& next.command_line == d.command_line
            &&& next.rls == d.rls
            &&& leaves_history(d, next)
            &&& checked != SyntaxTest::Erroneous ==> next.actions == d.actions.push(
                ActionView::ExpandAbbreviation {
                    cursor: d.command_line.position as usize,
                    execution: Some(checked),
                },
            )
            &&& checked == SyntaxTest::Erroneous ==> asks_for(
                d,
                next,
                ActionView::FirePostError(d.command_line.text),
            )
        }),
{
    lemma_enter(reader, env, t);
    let d = reader.data;
    let base = DataView { autosuggestion: d.autosuggestion.cleared(), ..d }.pager_cleared();
    let next = reader.commanded(ReadlineCmd::Execute, env, t).data;
    if d.conf.syntax_check_ok && env.syntax == SyntaxTest::Erroneous {
        let m = base.syntax_errors_reported().actions.len() as int;
        assert(next.actions[m] == ActionView::FirePostError(d.command_line.text));
    }
}

/// Enter in the list of completions or of the history takes what is there into the command line and
/// runs nothing. Where nothing is selected in the history, the text that was looked for replaces the
/// line of the cursor; where nothing is selected among completions, it is inserted at the cursor.
pub proof fn law_enter_in_pager(reader: ReaderView, env: SurroundingsView, t: TerminalState)
    requires
        reader.data.wf(),
        reader.data.navigating(),
    ensures
        ({
            let d = reader.data;
            let next = reader.commanded(ReadlineCmd::Execute, env, t).data;
            let text = d.command_line.text;
            let pos = d.command_line.position;
            let field = d.pager.search_field.text;
            let sought = d.history_pager is Some && d.pager.selected_idx is None;
            &&& sought ==> exists|a: int, b: int| #[trigger]
                bounds_line(text, pos, a, b) && next.command_line.text == text.take(a) + field
                    + text.skip(b)
            &&& !sought && d.pager.selected is None ==> next.command_line.text == text.take(pos)
                + field + text.skip(pos)
            &&& !sought && d.pager.selected is Some ==> next.command_line == d.command_line
            &&& next.rls == d.rls
            &&& next.pager.completions.len() == 0
            &&& next.pager.selected_idx is None
            &&& !next.pager.search_field_shown
            &&& next.pager.search_field.text.len() == 0
            &&& next.history_pager is None
            &&& next.transient_edit is None
        }),
{
    reveal(DataView::control_command);
    reveal(DataView::edited);
    let d = reader.data;
    let text = d.command_line.text;
    let pos = d.command_line.position;
    let field = d.pager.search_field.text;
    let next = reader.commanded(ReadlineCmd::Execute, env, t).data;
    assert(next == d.pager_executed());
    assert(field.take(0) + Seq::empty() + field.skip(field.len() as int) =~= Seq::<char>::empty());
    if d.history_pager is Some && d.pager.selected_idx is None {
        law_line_bounds(text, pos);
        let a = line_start(text, pos);
        let b = line_end(text, pos);
        let full = text.take(a) + field + text.skip(b);
        let whole = Range { start: 0, end: text.len() as int };
        law_line_is_edited(d.command_line, whole, full, false);
        assert(bounds_line(text, pos, a, b));
        assert(text.take(0) + full + text.skip(text.len() as int) =~= full);
    } else {
        law_line_is_edited(
            d.command_line,
            Range { start: pos, end: pos },
            field,
            !d.search.active(),
        );
    }
}

} // verus!

//! What the commands that jump to a character promise.

use crate::action::ActionView;
use crate::bracket_laws::{belong_together, law_matching_brackets_belong_together};
use crate::command::ReadlineCmd;
use crate::cursor::{closing_brackets, closing_of, opening_of};
use crate::command_laws::{
    law_jump_till_matching_bracket_command, law_jump_to_matching_bracket_command,
    law_repeat_jump_command, law_reverse_repeat_jump_command,
};
use crate::data::{DataView, JumpDirection, JumpPrecision};
use crate::edit::lemma_moved;
use crate::event::{ReaderView, TerminalState};
use crate::motion::{bracket_partner, first_target_from, jump_landing, last_target_before};
use crate::motion_laws::{has_moved, lemma_has_moved};
use crate::readline::{jump_direction, jump_precision, SurroundingsView};
use vstd::prelude::*;

verus! {

/// The first of some characters from a position on is there.
pub open spec fn is_first_from(s: Seq<char>, targets: Seq<char>, from: int, i: int) -> bool {
    &&& from <= i < s.len()
    &&& targets.contains(s[i])
    &&& forall|j: int| from <= j < i ==> !targets.contains(#[trigger] s[j])
}

/// The last of some characters before a position is there.
pub open spec fn is_last_before(s: Seq<char>, targets: Seq<char>, to: int, i: int) -> bool {
    &&& 0 <= i < to
    &&& targets.contains(s[i])
    &&& forall|j: int| i < j < to ==> !targets.contains(#[trigger] s[j])
}

proof fn lemma_first_from(s: Seq<char>, targets: Seq<char>, from: int)
    requires
        0 <= from,
    ensures
        ({
            let found = first_target_from(s, targets, from);
            &&& forall|i: int| #[trigger] is_first_from(s, targets, from, i) ==> found == Some(i)
            &&& found matches Some(i) ==> is_first_from(s, targets, from, i)
            &&& found is None ==> forall|j: int|
                from <= j < s.len() ==> !targets.contains(#[trigger] s[j])
        }),
    decreases s.len() - from,
{
    if from < s.len() && !targets.contains(s[from]) {
        lemma_first_from(s, targets, from + 1);
        assert forall|i: int| #[trigger] is_first_from(
            s,
            targets,
            from,
            i,
        ) implies first_target_from(s, targets, from) == Some(i) by {
            assert(is_first_from(s, targets, from + 1, i));
        }
    }
}

proof fn lemma_last_before(s: Seq<char>, targets: Seq<char>, to: int)
    requires
        0 <= to <= s.len(),
    ensures
        ({
            let found = last_target_before(s, targets, to);
            &&& forall|i: int| #[trigger] is_last_before(s, targets, to, i) ==> found == Some(i)
            &&& found matches Some(i) ==> is_last_before(s, targets, to, i)
            &&& found is None ==> forall|j: int| 0 <= j < to ==> !targets.contains(#[trigger] s[j])
        }),
    decreases to,
{
    if to > 0 && !targets.contains(s[to - 1]) {
        lemma_last_before(s, targets, to - 1);
        assert forall|i: int| #[trigger] is_last_before(
            s,
            targets,
            to,
            i,
        ) implies last_target_before(s, targets, to) == Some(i) by {
            assert(is_last_before(s, targets, to - 1, i));
        }
    }
}

/// The position next to a target, on the side that the cursor comes from, or the target itself. At the
/// end of the text there is none behind the target.
pub open spec fn beside(i: int, n: int, forward: bool, till: bool) -> int {
    if !till {
        i
    } else if forward {
        i - 1
    } else if i + 1 < n {
        i + 1
    } else {
        i
    }
}

/// Where a jump begins to look: at the next character, or, if it goes on from one that stopped short
/// of its target, at the one behind that.
pub open spec fn looks_from(pos: int, n: int, forward: bool, over: bool) -> int {
    if forward {
        if over && pos + 2 < n {
            pos + 2
        } else {
            pos + 1
        }
    } else {
        if over && pos > 0 {
            pos - 1
        } else {
            pos
        }
    }
}

proof fn lemma_landing(
    s: Seq<char>,
    pos: int,
    direction: JumpDirection,
    precision: JumpPrecision,
    targets: Seq<char>,
    skip: bool,
    from: int,
)
    requires
        0 <= pos <= s.len(),
        from == looks_from(
            pos,
            s.len() as int,
            direction == JumpDirection::Forward,
            precision == JumpPrecision::Till && skip,
        ),
    ensures
        ({
            let found = jump_landing(s, pos, direction, precision, targets, skip);
            let n = s.len() as int;
            let till = precision == JumpPrecision::Till;
            let forward = direction == JumpDirection::Forward;
            &&& found matches Some(p) ==> 0 <= p < n
            &&& forward ==> {
                &&& forall|i: int| #[trigger]
                    is_first_from(s, targets, from, i) ==> found == Some(
                        beside(i, n, true, till),
                    )
                &&& (forall|i: int| from <= i < n ==> !targets.contains(#[trigger] s[i]))
                    ==> found is None
            }
            &&& !forward ==> {
                &&& forall|i: int| #[trigger]
                    is_last_before(s, targets, from, i) ==> found == Some(
                        beside(i, n, false, till),
                    )
                &&& (forall|i: int| 0 <= i < from ==> !targets.contains(#[trigger] s[i]))
                    ==> found is None
            }
        }),
{
    if direction == JumpDirection::Forward {
        lemma_first_from(s, targets, from);
    } else {
        lemma_last_before(s, targets, from);
    }
}

/// What a jump to one of some characters came to that looked from a position on, and whether it found
/// any.
pub open spec fn has_jumped(
    d: DataView,
    next: DataView,
    forward: bool,
    till: bool,
    from: int,
    targets: Seq<char>,
) -> bool {
    let s = d.active_line().text;
    let n = s.len() as int;
    let found = ActionView::FunctionStatus(true);
    &&& forward ==> {
        &&& forall|i: int| #[trigger]
            is_first_from(s, targets, from, i) ==> has_moved(d, next, beside(i, n, true, till))
                && next.actions == d.actions.push(found)
        &&& (forall|i: int| from <= i < n ==> !targets.contains(#[trigger] s[i]))
            ==> next.active_line() == d.active_line() && next.actions == d.actions.push(
            ActionView::FunctionStatus(false),
        )
    }
    &&& !forward ==> {
        &&& forall|i: int| #[trigger]
            is_last_before(s, targets, from, i) ==> has_moved(d, next, beside(i, n, false, till))
                && next.actions == d.actions.push(found)
        &&& (forall|i: int| 0 <= i < from ==> !targets.contains(#[trigger] s[i]))
            ==> next.active_line() == d.active_line() && next.actions == d.actions.push(
            ActionView::FunctionStatus(false),
        )
    }
}

proof fn lemma_jumped(
    d: DataView,
    direction: JumpDirection,
    precision: JumpPrecision,
    targets: Seq<char>,
    skip: bool,
    from: int,
)
    requires
        d.wf(),
        from == looks_from(
            d.active_line().position,
            d.active_line().text.len() as int,
            direction == JumpDirection::Forward,
            precision == JumpPrecision::Till && skip,
        ),
    ensures
        has_jumped(
            d,
            d.jumped(direction, precision, d.active_tag(), targets, skip).queued(
                ActionView::FunctionStatus(
                    d.jump_target_pos(direction, precision, d.active_tag(), targets, skip) is Some,
                ),
            ),
            direction == JumpDirection::Forward,
            precision == JumpPrecision::Till,
            from,
            targets,
        ),
{
    let line = d.active_line();
    lemma_landing(line.text, line.position, direction, precision, targets, skip, from);
    match jump_landing(line.text, line.position, direction, precision, targets, skip) {
        Some(p) => {
            lemma_has_moved(d, p);
        },
        None => {},
    }
    let next = d.jumped(direction, precision, d.active_tag(), targets, skip).queued(
        ActionView::FunctionStatus(
            d.jump_target_pos(direction, precision, d.active_tag(), targets, skip) is Some,
        ),
    );
    let n = line.text.len() as int;
    let till = precision == JumpPrecision::Till;
    let forward = direction == JumpDirection::Forward;
    let found = jump_landing(line.text, line.position, direction, precision, targets, skip);
    assert forall|i: int| forward && #[trigger] is_first_from(
        line.text,
        targets,
        from,
        i,
    ) implies has_moved(d, next, beside(i, n, true, till)) by {
        assert(found == Some(beside(i, n, true, till)));
    }
    assert forall|i: int| !forward && #[trigger] is_last_before(
        line.text,
        targets,
        from,
        i,
    ) implies has_moved(d, next, beside(i, n, false, till)) by {
        assert(found == Some(beside(i, n, false, till)));
    }
}

/// What is remembered of a jump has no part in it.
proof fn lemma_same_jump(
    d: DataView,
    next: DataView,
    target: Option<char>,
    precision: JumpPrecision,
    first: JumpDirection,
    then: JumpDirection,
    forward: bool,
    till: bool,
    from: int,
    targets: Seq<char>,
)
    requires
        has_jumped(
            DataView {
                jump_target: target,
                jump_precision: precision,
                jump_direction: first,
                ..d
            },
            next,
            forward,
            till,
            from,
            targets,
        ),
    ensures
        has_jumped(d, DataView { jump_direction: then, ..next }, forward, till, from, targets),
{
    let noted = DataView {
        jump_target: target,
        jump_precision: precision,
        jump_direction: first,
        ..d
    };
    let same = DataView { jump_direction: then, ..next };
    assert(noted.active_line() == d.active_line());
    assert(next.active_line() == same.active_line());
    assert forall|to: int| has_moved(noted, next, to) implies #[trigger] has_moved(d, same, to) by {}
    let s = d.active_line().text;
    let n = s.len() as int;
    assert forall|i: int| forward && #[trigger] is_first_from(s, targets, from, i) implies has_moved(
        d,
        same,
        beside(i, n, true, till),
    ) by {
        assert(has_moved(noted, next, beside(i, n, true, till)));
    }
    assert forall|i: int| !forward && #[trigger] is_last_before(
        s,
        targets,
        from,
        i,
    ) implies has_moved(d, same, beside(i, n, false, till)) by {
        assert(has_moved(noted, next, beside(i, n, false, till)));
    }
}

/// A jump goes to the nearest such character before or behind the cursor, or stops short of it, says
/// whether there was one, and is remembered.
pub proof fn law_jump(
    reader: ReaderView,
    c: ReadlineCmd,
    env: SurroundingsView,
    t: TerminalState,
)
    requires
        reader.data.wf(),
        c == ReadlineCmd::ForwardJump || c == ReadlineCmd::BackwardJump || c
            == ReadlineCmd::ForwardJumpTill || c == ReadlineCmd::BackwardJumpTill,
        env.jump_target is Some,
    ensures
        ({
            let d = reader.data;
            let next = reader.commanded(c, env, t).data;
            let n = d.active_line().text.len() as int;
            let pos = d.active_line().position;
            let forward = c == ReadlineCmd::ForwardJump || c == ReadlineCmd::ForwardJumpTill;
            let till = c == ReadlineCmd::ForwardJumpTill || c == ReadlineCmd::BackwardJumpTill;
            &&& forall|from: int|
                from == looks_from(pos, n, forward, false) ==> #[trigger] has_jumped(
                    d,
                    next,
                    forward,
                    till,
                    from,
                    seq![env.jump_target->0],
                )
            &&& next.jump_target == env.jump_target
            &&& next.jump_direction == if forward {
                JumpDirection::Forward
            } else {
                JumpDirection::Backward
            }
            &&& next.jump_precision == if till {
                JumpPrecision::Till
            } else {
                JumpPrecision::To
            }
        }),
{
    lemma_jump_commands(reader, c, env, t);
    let d = reader.data;
    let direction = jump_direction(c);
    let precision = jump_precision(c);
    let target = env.jump_target->0;
    let noted = d.jump_remembered(direction, precision, target);
    let from = looks_from(
        d.active_line().position,
        d.active_line().text.len() as int,
        direction == JumpDirection::Forward,
        false,
    );
    lemma_jumped(noted, direction, precision, seq![target], false, from);
    let found = noted.jump_target_pos(direction, precision, d.active_tag(), seq![target], false);
    let next = noted.jumped(direction, precision, d.active_tag(), seq![target], false).queued(
        ActionView::FunctionStatus(found is Some),
    );
    lemma_same_jump(
        d,
        next,
        env.jump_target,
        precision,
        direction,
        direction,
        direction == JumpDirection::Forward,
        precision == JumpPrecision::Till,
        from,
        seq![target],
    );
    match found {
        Some(p) => {
            lemma_moved(noted, d.active_tag(), Some(p));
        },
        None => {},
    }
    assert(DataView { jump_direction: direction, ..next } == next);
}

proof fn lemma_jump_commands(
    reader: ReaderView,
    c: ReadlineCmd,
    env: SurroundingsView,
    t: TerminalState,
)
    requires
        c == ReadlineCmd::ForwardJump || c == ReadlineCmd::BackwardJump || c
            == ReadlineCmd::ForwardJumpTill || c == ReadlineCmd::BackwardJumpTill,
        env.jump_target is Some,
    ensures
        reader.commanded(c, env, t).data == reader.data.jump_reported(
            jump_direction(c),
            jump_precision(c),
            env.jump_target->0,
            false,
        ),
{
    reveal(DataView::cursor_command);
}

/// Repeating a jump looks for the same character again, behind the one that it stopped short of, the
/// same way or the other. What is remembered stays. Without a jump there is nothing to repeat.
pub proof fn law_jump_is_repeated(
    reader: ReaderView,
    c: ReadlineCmd,
    env: SurroundingsView,
    t: TerminalState,
)
    requires
        reader.data.wf(),
        c == ReadlineCmd::RepeatJump || c == ReadlineCmd::ReverseRepeatJump,
    ensures
        ({
            let d = reader.data;
            let next = reader.commanded(c, env, t).data;
            let n = d.active_line().text.len() as int;
            let pos = d.active_line().position;
            let till = d.jump_precision == JumpPrecision::Till;
            let forward = (d.jump_direction == JumpDirection::Forward) == (c
                == ReadlineCmd::RepeatJump);
            &&& d.jump_target matches Some(target) ==> forall|from: int|
                from == looks_from(pos, n, forward, till) ==> #[trigger] has_jumped(
                    d,
                    next,
                    forward,
                    till,
                    from,
                    seq![target],
                )
            &&& d.jump_target is None ==> next.active_line() == d.active_line() && next.actions
                == d.actions.push(ActionView::FunctionStatus(false))
            &&& next.jump_target == d.jump_target
            &&& next.jump_direction == d.jump_direction
            &&& next.jump_precision == d.jump_precision
        }),
{
    law_repeat_jump_command(reader, env, t);
    law_reverse_repeat_jump_command(reader, env, t);
    let d = reader.data;
    let forward = (d.jump_direction == JumpDirection::Forward) == (c == ReadlineCmd::RepeatJump);
    let direction = if forward {
        JumpDirection::Forward
    } else {
        JumpDirection::Backward
    };
    match d.jump_target {
        Some(target) => {
            let noted = d.jump_remembered(direction, d.jump_precision, target);
            let from = looks_from(
                d.active_line().position,
                d.active_line().text.len() as int,
                forward,
                d.jump_precision == JumpPrecision::Till,
            );
            lemma_jumped(noted, direction, d.jump_precision, seq![target], true, from);
            let found = noted.jump_target_pos(
                direction,
                d.jump_precision,
                d.active_tag(),
                seq![target],
                true,
            );
            let next = noted.jumped(
                direction,
                d.jump_precision,
                d.active_tag(),
                seq![target],
                true,
            ).queued(ActionView::FunctionStatus(found is Some));
            lemma_same_jump(
                d,
                next,
                d.jump_target,
                d.jump_precision,
                direction,
                d.jump_direction,
                forward,
                d.jump_precision == JumpPrecision::Till,
                from,
                seq![target],
            );
            match found {
                Some(p) => {
                    lemma_moved(noted, d.active_tag(), Some(p));
                },
                None => {},
            }
        },
        None => {},
    }
}

/// One of the three kinds of brackets.
pub open spec fn are_brackets(l: char, r: char) -> bool {
    (l == '(' && r == ')') || (l == '[' && r == ']') || (l == '{' && r == '}')
}

/// An opening or closing bracket of some kind is there.
pub open spec fn is_bracket_at(s: Seq<char>, i: int) -> bool {
    0 <= i < s.len() && (s[i] == '(' || s[i] == ')' || s[i] == '[' || s[i] == ']' || s[i] == '{'
        || s[i] == '}')
}

/// From a bracket at the cursor, the cursor jumps to the bracket that belongs to it. Where there is no
/// bracket at the cursor, it jumps to the next closing one.
#[verifier::spinoff_prover]
pub proof fn law_jump_to_matching_bracket(
    reader: ReaderView,
    env: SurroundingsView,
    t: TerminalState,
    l: char,
    r: char,
    to: int,
)
    requires
        reader.data.wf(),
        are_brackets(l, r),
    ensures
        ({
            let d = reader.data;
            let s = d.active_line().text;
            let pos = d.active_line().position;
            let next = reader.commanded(ReadlineCmd::JumpToMatchingBracket, env, t).data;
            &&& belong_together(s, l, r, pos, to) || belong_together(s, l, r, to, pos)
                ==> has_moved(d, next, to)
            &&& !is_bracket_at(s, pos) ==> has_jumped(
                d,
                next,
                true,
                false,
                pos + 1,
                seq![')', ']', '}'],
            )
        }),
{
    law_jump_to_matching_bracket_command(reader, env, t);
    law_jump_till_matching_bracket_command(reader, env, t);
    let d = reader.data;
    let s = d.active_line().text;
    let pos = d.active_line().position;
    if is_bracket_at(s, pos) {
        let a = opening_of(s[pos]);
        let b = closing_of(s[pos]);
        law_matching_brackets_belong_together(s, l, r, pos, to);
        match bracket_partner(s, a, b, pos, 0) {
            Some(p) => {
                law_matching_brackets_belong_together(s, a, b, pos, p);
                lemma_has_moved(d, p);
            },
            None => {},
        }
    } else {
        lemma_jumped(
            d,
            JumpDirection::Forward,
            JumpPrecision::To,
            closing_brackets(),
            false,
            pos + 1,
        );
    }
}

/// The jump that stops short of the bracket it goes to begins at a bracket next to the cursor too, an
/// opening one before it or a closing one behind it.
pub proof fn law_jump_till_matching_bracket(
    reader: ReaderView,
    env: SurroundingsView,
    t: TerminalState,
    l: char,
    r: char,
    to: int,
)
    requires
        reader.data.wf(),
        are_brackets(l, r),
    ensures
        ({
            let d = reader.data;
            let s = d.active_line().text;
            let pos = d.active_line().position;
            let next = reader.commanded(ReadlineCmd::JumpTillMatchingBracket, env, t).data;
            &&& belong_together(s, l, r, pos, to) ==> has_moved(d, next, to - 1)
            &&& belong_together(s, l, r, to, pos) ==> has_moved(d, next, to + 1)
            &&& !is_bracket_at(s, pos) && belong_together(s, l, r, pos - 1, to) ==> has_moved(
                d,
                next,
                to - 1,
            )
            &&& !is_bracket_at(s, pos) && !(pos > 0 && (s[pos - 1] == '(' || s[pos - 1] == '['
                || s[pos - 1] == '{')) && belong_together(s, l, r, to, pos + 1) ==> has_moved(
                d,
                next,
                to + 1,
            )
        }),
{
    law_jump_to_matching_bracket_command(reader, env, t);
    law_jump_till_matching_bracket_command(reader, env, t);
    let d = reader.data;
    let s = d.active_line().text;
    let pos = d.active_line().position;
    law_matching_brackets_belong_together(s, l, r, pos, to);
    law_matching_brackets_belong_together(s, l, r, pos - 1, to);
    law_matching_brackets_belong_together(s, l, r, pos + 1, to);
    if 0 <= to < s.len() {
        lemma_has_moved(d, to + 1);
        if to > 0 {
            lemma_has_moved(d, to - 1);
        }
    }
}

} // verus!

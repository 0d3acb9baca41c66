//! Reading scripts.

use crate::host::stdin_fileno;
use crate::text::{subtext, WString};
use vstd::prelude::*;

verus! {

/// A byte order mark.
pub const BYTE_ORDER_MARK: char = '\u{feff}';

/// The outcome of an attempt to read some of a script.
#[derive(Clone, Copy, PartialEq, Eq, Structural, Debug)]
pub enum ReadOutcome {
    /// There is nothing left.
    EndOfFile,
    /// Something was read.
    Data,
    /// A signal interrupted the read.
    Interrupted,
    /// Nothing can be read yet. An attempt was made to have reads wait.
    WouldBlock { made_blocking: bool },
    Failed,
}

/// How reading a script goes on.
#[derive(Clone, Copy, PartialEq, Eq, Structural, Debug)]
pub enum ReadStep {
    More,
    Done,
    /// Report the error.
    Abort,
}

/// Whether to read interactively: from standard input, if that is a terminal.
pub fn reads_interactively(fd: i32, stdin_is_tty: bool) -> (r: bool)
    ensures
        r == (fd == 0 && stdin_is_tty),
{
    fd == stdin_fileno() && stdin_is_tty
}

/// Whether to refuse to read, since the file is a directory. This can be triggered spuriously for
/// standard input, so we don't do it there.
pub fn refuses_directory(fd: i32, is_dir: bool) -> (r: bool)
    ensures
        r == (fd != 0 && is_dir),
{
    fd != stdin_fileno() && is_dir
}

/// Decide how to go on after an attempt to read.
pub fn after_read(outcome: ReadOutcome) -> (r: ReadStep)
    ensures
        r == match outcome {
            ReadOutcome::EndOfFile => ReadStep::Done,
            ReadOutcome::Data | ReadOutcome::Interrupted => ReadStep::More,
            ReadOutcome::WouldBlock { made_blocking } => if made_blocking {
                ReadStep::More
            } else {
                ReadStep::Abort
            },
            ReadOutcome::Failed => ReadStep::Abort,
        },
{
    match outcome {
        ReadOutcome::EndOfFile => ReadStep::Done,
        ReadOutcome::Data | ReadOutcome::Interrupted => ReadStep::More,
        ReadOutcome::WouldBlock { made_blocking } => {
            if made_blocking {
                // We succeeded in making the fd blocking, keep going.
                ReadStep::More
            } else {
                ReadStep::Abort
            }
        },
        ReadOutcome::Failed => ReadStep::Abort,
    }
}

/// The script without a byte order mark at its beginning.
pub open spec fn without_mark(s: Seq<char>) -> Seq<char> {
    if s.len() > 0 && s[0] == BYTE_ORDER_MARK {
        s.skip(1)
    } else {
        s
    }
}

/// Swallow a byte order mark.
pub fn swallow_mark(s: WString) -> (r: WString)
    ensures
        r@ == without_mark(s@),
{
    if s.len() > 0 && s[0] == BYTE_ORDER_MARK {
        let r = subtext(&s, 1, s.len());
        assert(r@ =~= s@.skip(1));
        r
    } else {
        s
    }
}

} // verus!

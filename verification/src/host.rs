//! Numbers that the C library fixes.

use vstd::prelude::*;

verus! {

/// The file descriptor of standard input.
///
/// Reads `libc::STDIN_FILENO`, which is 0 on every platform that has it.
#[verifier::external_body]
pub(crate) fn stdin_fileno() -> (fd: i32)
    ensures
        fd == 0,
{
    libc::STDIN_FILENO
}

/// The signal that the interrupt key sends.
///
/// Reads `libc::SIGINT`, which is 2 on every platform that has it.
#[verifier::external_body]
pub(crate) fn sigint() -> (signal: i32)
    ensures
        signal == 2,
{
    libc::SIGINT
}

} // verus!

//! Coming to own the terminal.

use vstd::prelude::*;

verus! {

/// How often we try to stop ourselves before giving up.
pub const MAX_ATTEMPTS: usize = 4096;

/// What to do at the first look at who owns the terminal.
#[derive(Clone, Copy, PartialEq, Eq, Structural, Debug)]
pub enum FirstLook {
    /// We own it. This is the common case.
    Owned,
    /// The terminal is assigned to our process but not to its group: make a group of our own.
    ClaimGroup,
    /// Somebody else owns it: wait until our parent has given us control of it.
    Wait,
}

/// What to do in one round of waiting for the terminal.
#[derive(Clone, Copy, PartialEq, Eq, Structural, Debug)]
pub enum TtyRound {
    /// We own it now.
    Owned,
    /// There is no terminal, and we can do without.
    DoWithout,
    /// There is no terminal for an interactive shell: exit.
    NoTty,
    /// Somebody else owns it: check that we are not orphaned, and stop ourselves.
    Contend,
}

/// Whether we own the terminal, given the process group that owns it.
pub fn look_at_owner(owner: i32, shell_pgid: i32, pid: i32) -> (r: FirstLook)
    ensures
        r == if owner == shell_pgid {
            FirstLook::Owned
        } else if owner == pid {
            FirstLook::ClaimGroup
        } else {
            FirstLook::Wait
        },
{
    if owner == shell_pgid {
        return FirstLook::Owned;
    }
    // In some strange cases the tty may be come preassigned to our pid, but not its pgroup.
    // In that case we simply attempt to claim our own pgroup.
    if owner == pid {
        return FirstLook::ClaimGroup;
    }
    FirstLook::Wait
}

/// Decide how to go on while waiting for the terminal. `no_tty` is whether asking for the owner
/// failed because there is no terminal.
pub fn judge_owner(owner: i32, no_tty: bool, shell_pgid: i32, is_interactive: bool) -> (r: TtyRound)
    ensures
        r == if owner == -1 && no_tty {
            if is_interactive {
                TtyRound::NoTty
            } else {
                TtyRound::DoWithout
            }
        } else if owner == shell_pgid {
            TtyRound::Owned
        } else {
            TtyRound::Contend
        },
{
    if owner == -1 && no_tty {
        if !is_interactive {
            // It's OK if we're not able to take control of the terminal. We handle
            // the fallout from this in a few other places.
            return TtyRound::DoWithout;
        }
        // No TTY, cannot be interactive?
        return TtyRound::NoTty;
    }
    if owner == shell_pgid {
        TtyRound::Owned
    } else {
        TtyRound::Contend
    }
}

/// Whether to find out in this round if the leader of our process group is gone.
pub fn probes_group_leader(loop_count: usize) -> (r: bool)
    ensures
        r == (loop_count % 64 == 0),
{
    loop_count % 64 == 0
}

/// Whether to find out in this round if reading from the terminal fails. This may block.
pub fn probes_tty(loop_count: usize, leader_is_gone: bool) -> (r: bool)
    ensures
        r == (!(loop_count % 64 == 0 && leader_is_gone) && loop_count % 128 == 0),
{
    !(loop_count % 64 == 0 && leader_is_gone) && loop_count % 128 == 0
}

/// Return true if we believe ourselves to be orphaned. `loop_count` is how many times we've tried to
/// stop ourselves; what the probes found counts only in the rounds in which they are made.
pub fn check_for_orphaned_process(
    loop_count: usize,
    leader_is_gone: bool,
    tty_read_fails: bool,
) -> (r: bool)
    ensures
        r == ((loop_count % 64 == 0 && leader_is_gone) || (loop_count % 128 == 0 && tty_read_fails)
            || loop_count > MAX_ATTEMPTS),
{
    let mut we_think_we_are_orphaned = probes_group_leader(loop_count) && leader_is_gone;
    if probes_tty(loop_count, leader_is_gone) && tty_read_fails {
        we_think_we_are_orphaned = true;
    }
    // Just give up if we've done it a lot times.
    if loop_count > MAX_ATTEMPTS {
        we_think_we_are_orphaned = true;
    }
    we_think_we_are_orphaned
}

/// Whether the shell makes a process group of its own and takes the terminal: if it has no valid
/// group, or is interactive in another one.
pub fn takes_own_group(shell_pgid: i32, shell_pid: i32, is_interactive: bool) -> (r: bool)
    ensures
        r == (shell_pgid == 0 || (is_interactive && shell_pgid != shell_pid)),
{
    shell_pgid == 0 || (is_interactive && shell_pgid != shell_pid)
}

/// Whether the modes that the terminal was found in are restored on leaving: only if we own it.
pub fn restores_startup_modes(is_interactive: bool, owner: i32, pgid: i32) -> (r: bool)
    ensures
        r == (is_interactive && owner == pgid),
{
    is_interactive && owner == pgid
}

/// What is done with the terminal when the shell exits.
#[derive(Clone, Copy, PartialEq, Eq, Structural, Debug)]
pub enum TtyRelease {
    /// Restore the modes that the terminal was found in.
    RestoreModes,
    /// Have the terminal leave the protocols that we use.
    DeactivateProtocols,
    /// Give the terminal back to the process group that had it.
    RestoreForegroundGroup,
}

/// What is to be done with the terminal on exit, in this order. The modes are restored before the
/// process group, otherwise we would not think we own the terminal.
pub fn reader_deinit(
    restore_foreground_pgroup: bool,
    is_interactive: bool,
    owner: i32,
    pgid: i32,
) -> (r: Vec<TtyRelease>)
    ensures
        r@ == (if is_interactive && owner == pgid {
            seq![TtyRelease::RestoreModes]
        } else {
            seq![]
        }) + seq![TtyRelease::DeactivateProtocols] + (if restore_foreground_pgroup {
            seq![TtyRelease::RestoreForegroundGroup]
        } else {
            seq![]
        }),
{
    let mut r: Vec<TtyRelease> = Vec::new();
    if restores_startup_modes(is_interactive, owner, pgid) {
        r.push(TtyRelease::RestoreModes);
    }
    r.push(TtyRelease::DeactivateProtocols);
    if restore_foreground_pgroup {
        r.push(TtyRelease::RestoreForegroundGroup);
    }
    r
}

/// Whether a failure to set the modes before reading is reported: not if there is no terminal and
/// none is needed.
pub fn reports_mode_failure(no_tty: bool, is_interactive: bool) -> (r: bool)
    ensures
        r == (!no_tty || is_interactive),
{
    !no_tty || is_interactive
}

} // verus!

//! Filling a history that is still empty.

use crate::text::{wide, WString};
use vstd::prelude::*;

verus! {

/// What a history is filled from.
#[derive(Clone, Copy, PartialEq, Eq, Structural, Debug)]
pub enum ImportStep {
    /// The place where the history was kept before.
    ConfigPath,
    /// The history of bash.
    Bash,
    Done,
}

/// What to try next, given what the history is like by now and what was tried last. The old place
/// comes first. The history of bash is for the default history alone.
pub open spec fn import_after(
    last: Option<ImportStep>,
    is_empty: bool,
    is_default: bool,
) -> ImportStep {
    if is_empty && last is None {
        ImportStep::ConfigPath
    } else if is_empty && is_default && last == Some(ImportStep::ConfigPath) {
        ImportStep::Bash
    } else {
        ImportStep::Done
    }
}

/// Decide what to import next.
pub fn import_history_if_necessary(
    last: Option<ImportStep>,
    is_empty: bool,
    is_default: bool,
) -> (r: ImportStep)
    ensures
        r == import_after(last, is_empty, is_default),
{
    if !is_empty {
        return ImportStep::Done;
    }
    match last {
        None => ImportStep::ConfigPath,
        Some(ImportStep::ConfigPath) => {
            if is_default {
                ImportStep::Bash
            } else {
                ImportStep::Done
            }
        },
        _ => ImportStep::Done,
    }
}

/// The file that bash keeps its history in. We make an effort to respect what its variable says;
/// without it, it is the usual one.
pub fn bash_history_path(histfile: Option<WString>) -> (r: WString)
    ensures
        r@ == match histfile {
            Some(path) => path@,
            None => "~/.bash_history"@,
        },
{
    match histfile {
        Some(path) => path,
        None => wide("~/.bash_history"),
    }
}

/// A history that holds something is left alone, and one that stays empty is not filled for ever.
pub proof fn law_import_ends(last: Option<ImportStep>, is_default: bool)
    ensures
        import_after(last, false, is_default) == ImportStep::Done,
        import_after(Some(ImportStep::Bash), true, is_default) == ImportStep::Done,
        import_after(Some(ImportStep::Done), true, is_default) == ImportStep::Done,
{
}

} // verus!

//! Colors of characters, as roles.

use vstd::prelude::*;

verus! {

/// What a color stands for.
#[derive(Clone, Copy, PartialEq, Eq, Structural, Debug)]
pub enum HighlightRole {
    Normal,
    Autosuggestion,
    SearchMatch,
    Selection,
    /// Any of the roles that syntax highlighting gives out, by number.
    Other(u16),
}

#[derive(Clone, Copy, PartialEq, Eq, Structural, Debug)]
pub struct HighlightSpec {
    pub foreground: HighlightRole,
    pub background: HighlightRole,
    pub valid_path: bool,
    pub force_underline: bool,
}

pub open spec fn plain() -> HighlightSpec {
    HighlightSpec {
        foreground: HighlightRole::Normal,
        background: HighlightRole::Normal,
        valid_path: false,
        force_underline: false,
    }
}

impl HighlightSpec {
    pub open spec fn both(role: HighlightRole) -> HighlightSpec {
        HighlightSpec { foreground: role, background: role, ..plain() }
    }

    pub open spec fn fg(role: HighlightRole) -> HighlightSpec {
        HighlightSpec { foreground: role, ..plain() }
    }

    /// The role in foreground and background.
    pub fn with_both(role: HighlightRole) -> (r: HighlightSpec)
        ensures
            r == HighlightSpec::both(role),
    {
        HighlightSpec { foreground: role, background: role, valid_path: false, force_underline: false }
    }

    /// The role in the foreground.
    pub fn with_fg(role: HighlightRole) -> (r: HighlightSpec)
        ensures
            r == HighlightSpec::fg(role),
    {
        HighlightSpec {
            foreground: role,
            background: HighlightRole::Normal,
            valid_path: false,
            force_underline: false,
        }
    }
}

/// `n` times the same color.
pub open spec fn repeated(color: HighlightSpec, n: nat) -> Seq<HighlightSpec> {
    Seq::new(n, |i: int| color)
}

pub fn copy_colors(s: &[HighlightSpec]) -> (r: Vec<HighlightSpec>)
    ensures
        r@ == s@,
{
    let mut r: Vec<HighlightSpec> = Vec::new();
    let mut i: usize = 0;
    while i < s.len()
        invariant
            i <= s@.len(),
            r@ == s@.subrange(0, i as int),
        decreases s@.len() - i,
    {
        r.push(s[i]);
        i += 1;
    }
    assert(s@.subrange(0, i as int) =~= s@);
    r
}

pub fn colors_eq(a: &[HighlightSpec], b: &[HighlightSpec]) -> (r: bool)
    ensures
        r == (a@ == b@),
{
    if a.len() != b.len() {
        return false;
    }
    let mut i: usize = 0;
    while i < a.len()
        invariant
            a@.len() == b@.len(),
            i <= a@.len(),
            forall|j: int| 0 <= j < i ==> a@[j] == b@[j],
        decreases a@.len() - i,
    {
        if a[i] != b[i] {
            return false;
        }
        i += 1;
    }
    assert(a@ =~= b@);
    true
}

/// The colors with those from `from` to `to` replaced by `n` times `color`.
pub fn recolored(
    s: &[HighlightSpec],
    from: usize,
    to: usize,
    color: HighlightSpec,
    n: usize,
) -> (r: Vec<HighlightSpec>)
    requires
        from <= to <= s@.len(),
    ensures
        r@ == s@.subrange(0, from as int) + repeated(color, n as nat) + s@.subrange(
            to as int,
            s@.len() as int,
        ),
{
    let mut r = copy_colors(&s[0..from]);
    let mut i: usize = 0;
    while i < n
        invariant
            i <= n,
            from <= s@.len(),
            r@ =~= s@.subrange(0, from as int) + repeated(color, i as nat),
        decreases n - i,
    {
        r.push(color);
        i += 1;
    }
    let mut j: usize = to;
    while j < s.len()
        invariant
            from <= to <= j <= s@.len(),
            r@ =~= s@.subrange(0, from as int) + repeated(color, n as nat) + s@.subrange(
                to as int,
                j as int,
            ),
        decreases s@.len() - j,
    {
        r.push(s[j]);
        j += 1;
    }
    r
}

} // verus!

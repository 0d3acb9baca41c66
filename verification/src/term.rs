//! The modes of the terminal: those that the shell works in, and those that programs run in.

use vstd::prelude::*;

verus! {

/// The settings of a terminal that the shell cares about.
#[derive(Clone, Copy, PartialEq, Eq, Structural, Debug)]
pub struct TermModes {
    /// The input modes.
    pub iflag: u32,
    /// The output modes.
    pub oflag: u32,
    /// The local modes.
    pub lflag: u32,
    /// How many characters a read waits for.
    pub vmin: u8,
    /// How long a read waits.
    pub vtime: u8,
    /// The character that suspends a program.
    pub vsusp: u8,
    /// The character that quits a program.
    pub vquit: u8,
}

/// The bits of the modes, which differ from system to system.
#[derive(Clone, Copy, PartialEq, Eq, Structural, Debug)]
pub struct ModeBits {
    pub icrnl: u32,
    pub inlcr: u32,
    pub ixon: u32,
    pub ixoff: u32,
    pub opost: u32,
    pub onlcr: u32,
    pub icanon: u32,
    pub echo: u32,
    pub iexten: u32,
    /// The character that stands for no character.
    pub disabling_char: u8,
}

impl ModeBits {
    /// There are such bits, `iexten` perhaps excepted, and those of one kind of modes do not
    /// overlap.
    pub open spec fn distinct(self) -> bool {
        &&& self.icrnl != 0
        &&& self.inlcr != 0
        &&& self.ixon != 0
        &&& self.ixoff != 0
        &&& self.opost != 0
        &&& self.onlcr != 0
        &&& self.icanon != 0
        &&& self.echo != 0
        &&& self.icrnl & self.inlcr == 0
        &&& self.icrnl & self.ixon == 0
        &&& self.icrnl & self.ixoff == 0
        &&& self.inlcr & self.ixon == 0
        &&& self.inlcr & self.ixoff == 0
        &&& self.ixon & self.ixoff == 0
        &&& self.opost & self.onlcr == 0
        &&& self.icanon & self.echo == 0
        &&& self.icanon & self.iexten == 0
        &&& self.echo & self.iexten == 0
    }
}

/// The bits of the modes on this system.
///
/// Reads `libc::ICRNL`, `INLCR`, `IXON`, `IXOFF`, `OPOST`, `ONLCR`, `ICANON`, `ECHO`, `IEXTEN` and
/// `_POSIX_VDISABLE`. What they are differs between systems, so that nothing more is said than that
/// none of the bits is missing but for `IEXTEN` on some systems, and that those of the input modes,
/// of the output modes and of the local modes are bits of their own.
#[verifier::external_body]
fn mode_bits() -> (r: ModeBits)
    ensures
        r.distinct(),
{
    ModeBits {
        icrnl: libc::ICRNL as u32,
        inlcr: libc::INLCR as u32,
        ixon: libc::IXON as u32,
        ixoff: libc::IXOFF as u32,
        opost: libc::OPOST as u32,
        onlcr: libc::ONLCR as u32,
        icanon: libc::ICANON as u32,
        echo: libc::ECHO as u32,
        iexten: libc::IEXTEN as u32,
        disabling_char: libc::_POSIX_VDISABLE as u8,
    }
}

impl TermModes {
    /// The modes that the shell reads in: characters come one by one and as they are typed.
    pub open spec fn fixed(self, b: ModeBits) -> TermModes {
        TermModes {
            iflag: self.iflag & !b.icrnl & !b.inlcr,
            oflag: self.oflag | b.opost | b.onlcr,
            lflag: self.lflag & !b.icanon & !b.echo & !b.iexten,
            vmin: 1,
            vtime: 0,
            vsusp: b.disabling_char,
            vquit: b.disabling_char,
        }
    }

    /// The modes that programs run in: nothing that would break what they write or do not show.
    pub open spec fn fixed_for_programs(self, b: ModeBits) -> TermModes {
        TermModes {
            iflag: (self.iflag | b.icrnl) & !b.inlcr,
            oflag: self.oflag | b.opost | b.onlcr,
            lflag: self.lflag | b.icanon | b.iexten | b.echo,
            ..self
        }
    }

    pub open spec fn without_flow_control(self, b: ModeBits) -> TermModes {
        TermModes { iflag: self.iflag & !b.ixon & !b.ixoff, ..self }
    }

    /// A bit of the input modes set as it is in `other`.
    pub open spec fn with_bit_of(self, other: TermModes, bit: u32) -> TermModes {
        TermModes {
            iflag: if other.iflag & bit != 0 {
                self.iflag | bit
            } else {
                self.iflag & !bit
            },
            ..self
        }
    }
}

/// Restore terminal settings we care about, to prevent a broken shell.
pub fn term_fix_modes(modes: &mut TermModes, bits: &ModeBits)
    ensures
        *final(modes) == old(modes).fixed(*bits),
{
    modes.iflag = modes.iflag & !bits.icrnl;  // disable mapping CR (\cM) to NL (\cJ)
    modes.iflag = modes.iflag & !bits.inlcr;  // disable mapping NL (\cJ) to CR (\cM)
    modes.lflag = modes.lflag & !bits.icanon;  // turn off canonical mode
    modes.lflag = modes.lflag & !bits.echo;  // turn off echo mode
    modes.lflag = modes.lflag & !bits.iexten;  // turn off handling of discard and lnext characters
    // Turn on "implementation-defined post processing" - this often changes how line breaks work.
    modes.oflag = modes.oflag | bits.opost;
    // "Translate newline to carriage return-newline" - without you see staircase output.
    modes.oflag = modes.oflag | bits.onlcr;
    modes.vmin = 1;
    modes.vtime = 0;
    // Prefer to disable control functions by the character that stands for none.
    // This permits separately binding nul (typically control-space).
    // We ignore these anyway, so there is no need to sacrifice a character.
    modes.vsusp = bits.disabling_char;
    modes.vquit = bits.disabling_char;
}

/// Restore the settings without which the output of programs is broken.
pub fn term_fix_external_modes(modes: &mut TermModes, bits: &ModeBits)
    ensures
        *final(modes) == old(modes).fixed_for_programs(*bits),
{
    // Turning off post processing breaks output (staircase effect), we don't allow it.
    modes.oflag = modes.oflag | bits.opost;
    modes.oflag = modes.oflag | bits.onlcr;
    // These cause other ridiculous behaviors like input not being shown.
    modes.lflag = modes.lflag | bits.icanon;
    modes.lflag = modes.lflag | bits.iexten;
    modes.lflag = modes.lflag | bits.echo;
    modes.iflag = modes.iflag | bits.icrnl;
    modes.iflag = modes.iflag & !bits.inlcr;
}

/// The modes in use.
#[derive(Clone, Copy, PartialEq, Eq, Structural, Debug)]
pub struct TtyModes {
    /// The modes that we use to execute programs.
    pub external: TermModes,
    /// The modes that the shell works in.
    pub shell: TermModes,
    pub bits: ModeBits,
}

/// The modes to begin with, given those that the terminal was found in. Flow control is off.
pub fn reader_init(startup: TermModes) -> (r: TtyModes)
    ensures
        r.bits.distinct(),
        r.external == startup.fixed_for_programs(r.bits).without_flow_control(r.bits),
        r.shell == r.external.fixed(r.bits),
{
    let bits = mode_bits();
    // Set the mode used for program execution, initialized to the current mode.
    let mut external = startup;
    term_fix_external_modes(&mut external, &bits);
    // Disable flow control by default.
    external.iflag = external.iflag & !bits.ixon;
    external.iflag = external.iflag & !bits.ixoff;
    // Set the mode used for the terminal, initialized to the current mode.
    let mut shell = external;
    term_fix_modes(&mut shell, &bits);
    TtyModes { external, shell, bits }
}

fn copy_bit(to: &mut TermModes, from: &TermModes, bit: u32)
    ensures
        *final(to) == old(to).with_bit_of(*from, bit),
{
    if from.iflag & bit != 0 {
        to.iflag = to.iflag | bit;
    } else {
        to.iflag = to.iflag & !bit;
    }
}

/// Use the (potentially changed) modes of the terminal from now on.
pub fn term_copy_modes(modes: &mut TtyModes, current: TermModes)
    ensures
        ({
            let external = current.fixed_for_programs(old(modes).bits);
            *final(modes) == (TtyModes {
                external,
                shell: old(modes).shell.with_bit_of(external, old(modes).bits.ixon).with_bit_of(
                    external,
                    old(modes).bits.ixoff,
                ),
                bits: old(modes).bits,
            })
        }),
{
    let bits = modes.bits;
    let mut external = current;
    // We still want to fix most egregious breakage.
    // E.g. turned off post processing is *not* something that should be set globally,
    // and 99% triggered by a crashed program.
    term_fix_external_modes(&mut external, &bits);
    // Copy flow control settings to shell modes.
    let mut shell = modes.shell;
    copy_bit(&mut shell, &external, bits.ixon);
    copy_bit(&mut shell, &external, bits.ixoff);
    modes.external = external;
    modes.shell = shell;
}

/// Fixing modes that were fixed already changes nothing.
pub proof fn law_fixing_is_idempotent(m: TermModes, b: ModeBits)
    ensures
        m.fixed(b).fixed(b) == m.fixed(b),
        m.fixed_for_programs(b).fixed_for_programs(b) == m.fixed_for_programs(b),
{
    let (i, o, l) = (m.iflag, m.oflag, m.lflag);
    let (c, n) = (b.icrnl, b.inlcr);
    let (p, r) = (b.opost, b.onlcr);
    let (k, e, x) = (b.icanon, b.echo, b.iexten);
    assert((i & !c & !n) & !c & !n == i & !c & !n) by (bit_vector);
    assert((o | p | r) | p | r == o | p | r) by (bit_vector);
    assert((l & !k & !e & !x) & !k & !e & !x == l & !k & !e & !x) by (bit_vector);
    assert((((i | c) & !n) | c) & !n == (i | c) & !n) by (bit_vector);
    assert((l | k | x | e) | k | x | e == l | k | x | e) by (bit_vector);
}

/// Whatever the modes were: the shell gets what is typed at once, unechoed and with carriage returns
/// as they are; programs get whole lines, echoed, with carriage returns turned into newlines.
pub proof fn law_fixed_modes(m: TermModes, b: ModeBits)
    requires
        b.distinct(),
    ensures
        m.fixed(b).lflag & b.icanon == 0,
        m.fixed(b).lflag & b.echo == 0,
        m.fixed(b).lflag & b.iexten == 0,
        m.fixed(b).iflag & b.icrnl == 0,
        m.fixed(b).iflag & b.inlcr == 0,
        m.fixed_for_programs(b).lflag & b.icanon == b.icanon,
        m.fixed_for_programs(b).lflag & b.echo == b.echo,
        m.fixed_for_programs(b).lflag & b.iexten == b.iexten,
        m.fixed_for_programs(b).iflag & b.icrnl == b.icrnl,
        m.fixed_for_programs(b).iflag & b.inlcr == 0,
        m.fixed(b).oflag & b.opost == b.opost,
        m.fixed(b).oflag & b.onlcr == b.onlcr,
        m.fixed_for_programs(b).oflag & b.opost == b.opost,
        m.fixed_for_programs(b).oflag & b.onlcr == b.onlcr,
{
    let (i, o, l) = (m.iflag, m.oflag, m.lflag);
    let (c, n) = (b.icrnl, b.inlcr);
    let (p, r) = (b.opost, b.onlcr);
    let (k, e, x) = (b.icanon, b.echo, b.iexten);
    assert((l & !k & !e & !x) & k == 0 && (l & !k & !e & !x) & e == 0 && (l & !k & !e & !x) & x == 0)
        by (bit_vector);
    assert((i & !c & !n) & c == 0 && (i & !c & !n) & n == 0) by (bit_vector);
    assert((l | k | x | e) & k == k && (l | k | x | e) & e == e && (l | k | x | e) & x == x)
        by (bit_vector);
    assert(((i | c) & !n) & c == c && ((i | c) & !n) & n == 0) by (bit_vector)
        requires
            c & n == 0,
    ;
    assert((o | p | r) & p == p && (o | p | r) & r == r) by (bit_vector);
}

/// Neither programs nor the shell begin with flow control, and taking it away changes no other of
/// the input modes.
pub proof fn law_flow_control_is_off(m: TermModes, b: ModeBits)
    requires
        b.distinct(),
    ensures
        ({
            let external = m.fixed_for_programs(b).without_flow_control(b);
            &&& external.iflag & b.ixon == 0
            &&& external.iflag & b.ixoff == 0
            &&& external.iflag & b.icrnl == b.icrnl
            &&& external.iflag & b.inlcr == 0
            &&& external.fixed(b).iflag & b.ixon == 0
            &&& external.fixed(b).iflag & b.ixoff == 0
        }),
{
    let (i, c, n, x, f) = (m.iflag, b.icrnl, b.inlcr, b.ixon, b.ixoff);
    let e = (i | c) & !n & !x & !f;
    assert(((i | c) & !n & !x & !f) & x == 0 && ((i | c) & !n & !x & !f) & f == 0) by (bit_vector);
    assert(((i | c) & !n & !x & !f) & c == c && ((i | c) & !n & !x & !f) & n == 0) by (bit_vector)
        requires
            c & n == 0,
            c & x == 0,
            c & f == 0,
    ;
    assert(e & x == 0 ==> (e & !c & !n) & x == 0) by (bit_vector);
    assert(e & f == 0 ==> (e & !c & !n) & f == 0) by (bit_vector);
}

/// Once the modes were copied, the shell has the flow control that programs have.
pub proof fn law_flow_control_is_copied(shell: TermModes, external: TermModes, b: ModeBits)
    requires
        b.distinct(),
    ensures
        ({
            let copied = shell.with_bit_of(external, b.ixon).with_bit_of(external, b.ixoff);
            &&& (copied.iflag & b.ixon != 0) == (external.iflag & b.ixon != 0)
            &&& (copied.iflag & b.ixoff != 0) == (external.iflag & b.ixoff != 0)
        }),
{
    let (s, e) = (shell.iflag, external.iflag);
    let (n, f) = (b.ixon, b.ixoff);
    assert(e & n != 0 ==> n != 0) by (bit_vector);
    assert(e & f != 0 ==> f != 0) by (bit_vector);
    assert(n & f == 0 ==> ((s | n) | f) & n == n && ((s | n) & !f) & n == n && ((s & !n) | f) & n
        == 0 && ((s & !n) & !f) & n == 0) by (bit_vector);
    assert(((s | n) | f) & f == f && ((s | n) & !f) & f == 0 && ((s & !n) | f) & f == f && ((s & !n)
        & !f) & f == 0) by (bit_vector);
}

} // verus!

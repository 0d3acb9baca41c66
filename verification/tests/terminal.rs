use fish_reader::term::{
    reader_init, term_copy_modes, term_fix_external_modes, term_fix_modes, ModeBits, TermModes,
};
use fish_reader::tty::{
    check_for_orphaned_process, judge_owner, look_at_owner, probes_group_leader, probes_tty,
    reader_deinit, reports_mode_failure, takes_own_group, FirstLook, TtyRelease, TtyRound,
};

fn bits() -> ModeBits {
    ModeBits {
        icrnl: 1,
        inlcr: 2,
        ixon: 4,
        ixoff: 8,
        opost: 1,
        onlcr: 2,
        icanon: 1,
        echo: 2,
        iexten: 4,
        disabling_char: 255,
    }
}

fn modes(iflag: u32, oflag: u32, lflag: u32) -> TermModes {
    TermModes { iflag, oflag, lflag, vmin: 9, vtime: 9, vsusp: 26, vquit: 28 }
}

#[test]
fn shell_modes_are_fixed() {
    let mut m = modes(0b11111, 0b1000, 0b11111);
    term_fix_modes(&mut m, &bits());
    assert_eq!(
        m,
        TermModes {
            iflag: 0b11100,
            oflag: 0b1011,
            lflag: 0b11000,
            vmin: 1,
            vtime: 0,
            vsusp: 255,
            vquit: 255,
        }
    );
    let once = m;
    term_fix_modes(&mut m, &bits());
    assert_eq!(m, once);
}

#[test]
fn program_modes_are_fixed() {
    let mut m = modes(0b10010, 0, 0b1000);
    term_fix_external_modes(&mut m, &bits());
    assert_eq!(m, modes(0b10001, 0b11, 0b1111));
}

#[test]
fn initial_modes_have_no_flow_control() {
    let startup = modes(u32::MAX, 0, 0);
    let r = reader_init(startup);
    assert_eq!(r.bits.ixon, libc::IXON);
    assert_eq!(r.bits.ixoff, libc::IXOFF);
    assert_eq!(r.bits.icrnl, libc::ICRNL);
    assert_eq!(r.bits.inlcr, libc::INLCR);
    assert_eq!(r.bits.opost, libc::OPOST);
    assert_eq!(r.bits.onlcr, libc::ONLCR);
    assert_eq!(r.bits.icanon, libc::ICANON);
    assert_eq!(r.bits.echo, libc::ECHO);
    assert_eq!(r.bits.iexten, libc::IEXTEN);
    assert_eq!(r.bits.disabling_char, libc::_POSIX_VDISABLE);
    assert_eq!(r.external.iflag & (libc::IXON | libc::IXOFF | libc::INLCR), 0);
    assert_eq!(r.external.iflag & libc::ICRNL, libc::ICRNL);
    assert_eq!(r.external.lflag, libc::ICANON | libc::ECHO | libc::IEXTEN);
    assert_eq!(r.external.oflag, libc::OPOST | libc::ONLCR);
    assert_eq!(r.external.vsusp, 26);
    assert_eq!(r.shell.lflag, 0);
    assert_eq!(r.shell.vmin, 1);
    assert_eq!(r.shell.iflag & libc::ICRNL, 0);
}

#[test]
fn flow_control_is_copied_to_the_shell() {
    let mut r = reader_init(modes(0, 0, 0));
    term_copy_modes(&mut r, modes(libc::IXON, 0, 0));
    assert_eq!(r.shell.iflag & libc::IXON, libc::IXON);
    assert_eq!(r.shell.iflag & libc::IXOFF, 0);
    assert_eq!(r.external.lflag & libc::ECHO, libc::ECHO);
    term_copy_modes(&mut r, modes(libc::IXOFF, 0, 0));
    assert_eq!(r.shell.iflag & libc::IXON, 0);
    assert_eq!(r.shell.iflag & libc::IXOFF, libc::IXOFF);
}

#[test]
fn owning_the_terminal() {
    assert_eq!(look_at_owner(7, 7, 9), FirstLook::Owned);
    assert_eq!(look_at_owner(9, 7, 9), FirstLook::ClaimGroup);
    assert_eq!(look_at_owner(8, 7, 9), FirstLook::Wait);
    assert_eq!(judge_owner(-1, true, 7, false), TtyRound::DoWithout);
    assert_eq!(judge_owner(-1, true, 7, true), TtyRound::NoTty);
    assert_eq!(judge_owner(-1, false, 7, true), TtyRound::Contend);
    assert_eq!(judge_owner(7, false, 7, true), TtyRound::Owned);
    assert_eq!(judge_owner(8, false, 7, true), TtyRound::Contend);
}

#[test]
fn orphans_are_recognized() {
    assert!(probes_group_leader(0));
    assert!(probes_group_leader(64));
    assert!(!probes_group_leader(65));
    assert!(probes_tty(128, false));
    assert!(!probes_tty(128, true));
    assert!(!probes_tty(64, false));
    assert!(check_for_orphaned_process(64, true, false));
    assert!(!check_for_orphaned_process(65, true, false));
    assert!(check_for_orphaned_process(128, false, true));
    assert!(!check_for_orphaned_process(64, false, true));
    assert!(!check_for_orphaned_process(4096, false, false));
    assert!(check_for_orphaned_process(4097, false, false));
}

#[test]
fn process_groups() {
    assert!(takes_own_group(0, 5, false));
    assert!(takes_own_group(4, 5, true));
    assert!(!takes_own_group(5, 5, true));
    assert!(!takes_own_group(4, 5, false));
    assert!(reports_mode_failure(false, false));
    assert!(reports_mode_failure(true, true));
    assert!(!reports_mode_failure(true, false));
}

#[test]
fn releasing_the_terminal() {
    assert_eq!(
        reader_deinit(true, true, 3, 3),
        vec![
            TtyRelease::RestoreModes,
            TtyRelease::DeactivateProtocols,
            TtyRelease::RestoreForegroundGroup
        ]
    );
    assert_eq!(reader_deinit(false, false, 3, 3), vec![TtyRelease::DeactivateProtocols]);
    assert_eq!(reader_deinit(false, true, 4, 3), vec![TtyRelease::DeactivateProtocols]);
}

#[test]
fn flow_control_is_taken_away_alone() {
    let r = reader_init(modes(u32::MAX, u32::MAX, u32::MAX));
    assert_eq!(r.external.iflag, !(libc::INLCR | libc::IXON | libc::IXOFF));
    assert_eq!(r.shell.iflag, !(libc::INLCR | libc::ICRNL | libc::IXON | libc::IXOFF));
    assert_eq!(r.shell.oflag, u32::MAX);
    assert_eq!(r.shell.lflag, !(libc::ICANON | libc::ECHO | libc::IEXTEN));
}

use pty_shell::terminal::{make_raw, restore_termios, TermAttrs};
use pty_shell::winsize::{from_fd, Winsize};

#[test]
fn mode_constants_match_the_platform() {
    assert_eq!(pty_shell::terminal::ECHO, rustix::termios::LocalModes::ECHO.bits());
    assert_eq!(pty_shell::terminal::ICANON, rustix::termios::LocalModes::ICANON.bits());
    assert_eq!(pty_shell::terminal::IEXTEN, rustix::termios::LocalModes::IEXTEN.bits());
    assert_eq!(pty_shell::terminal::ISIG, rustix::termios::LocalModes::ISIG.bits());
    assert_eq!(pty_shell::terminal::BRKINT, rustix::termios::InputModes::BRKINT.bits());
    assert_eq!(pty_shell::terminal::ICRNL, rustix::termios::InputModes::ICRNL.bits());
    assert_eq!(pty_shell::terminal::INPCK, rustix::termios::InputModes::INPCK.bits());
    assert_eq!(pty_shell::terminal::ISTRIP, rustix::termios::InputModes::ISTRIP.bits());
    assert_eq!(pty_shell::terminal::IXON, rustix::termios::InputModes::IXON.bits());
    assert_eq!(pty_shell::terminal::CSIZE, rustix::termios::ControlModes::CSIZE.bits());
    assert_eq!(pty_shell::terminal::CS8, rustix::termios::ControlModes::CS8.bits());
    assert_eq!(pty_shell::terminal::PARENB, rustix::termios::ControlModes::PARENB.bits());
    assert_eq!(pty_shell::terminal::OPOST, rustix::termios::OutputModes::OPOST.bits());
}

#[test]
fn make_raw_disables_processing() {
    let cooked = TermAttrs {
        input_modes: 0xffff_ffff,
        output_modes: 0xffff_ffff,
        control_modes: 0xffff_ffff,
        local_modes: 0xffff_ffff,
        vmin: 0,
        vtime: 10,
    };
    let raw = make_raw(&cooked);
    assert_eq!(raw.local_modes & pty_shell::terminal::ECHO, 0);
    assert_eq!(raw.local_modes & pty_shell::terminal::ICANON, 0);
    assert_eq!(raw.local_modes & pty_shell::terminal::IEXTEN, 0);
    assert_eq!(raw.local_modes & pty_shell::terminal::ISIG, 0);
    assert_eq!(raw.input_modes & pty_shell::terminal::IXON, 0);
    assert_eq!(raw.input_modes & pty_shell::terminal::ICRNL, 0);
    assert_eq!(raw.output_modes & pty_shell::terminal::OPOST, 0);
    assert_eq!(raw.control_modes & pty_shell::terminal::CSIZE, pty_shell::terminal::CS8);
    assert_eq!(raw.control_modes & pty_shell::terminal::PARENB, 0);
    assert_eq!(raw.vmin, 1);
    assert_eq!(raw.vtime, 0);
}

#[test]
fn make_raw_exact_words() {
    let cooked = TermAttrs {
        input_modes: 0o2446,
        output_modes: 0o5,
        control_modes: 0o2477,
        local_modes: 0o105073,
        vmin: 16,
        vtime: 3,
    };
    let raw = make_raw(&cooked);
    assert_eq!(raw.input_modes, 0o2446 & !(0o2 | 0o400 | 0o20 | 0o40 | 0o2000));
    assert_eq!(raw.output_modes, 0o5 & !0o1);
    assert_eq!(raw.control_modes, (0o2477 & !(0o60 | 0o400)) | 0o60);
    assert_eq!(raw.local_modes, 0o105073 & !(0o10 | 0o2 | 0o100000 | 0o1));
    assert_eq!(raw.vmin, 1);
    assert_eq!(raw.vtime, 0);
}

#[test]
fn restore_without_snapshot_is_a_noop() {
    let r = restore_termios(&None);
    assert!(r.is_ok());
}

#[test]
fn winsize_round_trip() {
    let fd = rustix::pty::openpt(rustix::pty::OpenptFlags::RDWR | rustix::pty::OpenptFlags::NOCTTY)
        .unwrap();
    let sizes = vec![(24u16, 80u16, 0u16, 0u16), (42, 161, 808, 606), (1, 1, 1, 1), (500, 315, 9999, 7777)];
    for (rows, cols, xp, yp) in sizes {
        let w = Winsize { ws_row: rows, ws_col: cols, ws_xpixel: xp, ws_ypixel: yp };
        pty_shell::winsize::set(&fd, &w).unwrap();
        let q = from_fd(&fd).unwrap();
        assert_eq!(q, w);
    }
}

#[test]
fn winsize_default_is_zeroed() {
    let w = Winsize::default();
    assert_eq!(w, Winsize { ws_row: 0, ws_col: 0, ws_xpixel: 0, ws_ypixel: 0 });
}

#[test]
fn stdin_query_failures_are_io_errors() {
    // Under the test harness standard input is rarely a terminal; when the
    // query does fail, the error must be of the descriptor class.
    match pty_shell::winsize::query_stdin() {
        Ok(_) => {}
        Err(e) => {
            assert!(e.is_io());
            assert!(!e.is_terminal());
            assert!(!e.is_pty());
        }
    }
}

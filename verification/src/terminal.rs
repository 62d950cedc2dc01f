use vstd::prelude::*;
use crate::error::Error;
use crate::fdio::errno_code;
use crate::winsize;

verus! {

/// The terminal attribute record of the rustix crate (the OS termios
/// structure). Opaque here: it is captured once as the restoration snapshot
/// and handed back unchanged at exit; the mode words the library reasons
/// about are copied out into `TermAttrs`.
#[verifier::external_type_specification]
#[verifier::external_body]
pub struct ExTermios(rustix::termios::Termios);

/// disable signal-generating characters (local mode word)
pub const ISIG: u32 = 0o000001;
/// canonical, line-buffered input (local mode word)
pub const ICANON: u32 = 0o000002;
/// echo of input characters (local mode word)
pub const ECHO: u32 = 0o000010;
/// extended input processing (local mode word)
pub const IEXTEN: u32 = 0o100000;

/// break-condition signalling (input mode word)
pub const BRKINT: u32 = 0o000002;
/// parity checking (input mode word)
pub const INPCK: u32 = 0o000020;
/// stripping of the high bit (input mode word)
pub const ISTRIP: u32 = 0o000040;
/// carriage-return to newline mapping (input mode word)
pub const ICRNL: u32 = 0o000400;
/// start/stop flow control (input mode word)
pub const IXON: u32 = 0o002000;

/// the character-size bits (control mode word)
pub const CSIZE: u32 = 0o000060;
/// eight-bit characters (control mode word)
pub const CS8: u32 = 0o000060;
/// parity generation (control mode word)
pub const PARENB: u32 = 0o000400;

/// output post-processing (output mode word)
pub const OPOST: u32 = 0o000001;

/// The mode words and read-control codes of a terminal attribute record, as
/// plain integers: what raw-mode entry reads and rewrites.
#[derive(PartialEq, Eq, Structural, Clone, Copy, Debug)]
pub struct TermAttrs {
    /// how input bytes are translated
    pub input_modes: u32,
    /// how output bytes are post-processed
    pub output_modes: u32,
    /// character size and parity
    pub control_modes: u32,
    /// echo, canonical mode, signal characters
    pub local_modes: u32,
    /// least bytes that satisfy a read
    pub vmin: u8,
    /// read timeout, in tenths of a second
    pub vtime: u8,
}

/// The raw-mode image of the given attributes: echo, canonical input,
/// extended processing and signal characters off; input translation off;
/// eight-bit characters without parity; output post-processing off; reads
/// blocking, satisfied by a single byte.
pub fn make_raw(m: &TermAttrs) -> (r: TermAttrs)
    ensures
        r.local_modes == m.local_modes & !(ECHO | ICANON | IEXTEN | ISIG),
        r.input_modes == m.input_modes & !(BRKINT | ICRNL | INPCK | ISTRIP | IXON),
        r.control_modes == (m.control_modes & !(CSIZE | PARENB)) | CS8,
        r.output_modes == m.output_modes & !OPOST,
        r.vmin == 1,
        r.vtime == 0,
{
    TermAttrs {
        input_modes: m.input_modes & !(BRKINT | ICRNL | INPCK | ISTRIP | IXON),
        output_modes: m.output_modes & !OPOST,
        control_modes: (m.control_modes & !(CSIZE | PARENB)) | CS8,
        local_modes: m.local_modes & !(ECHO | ICANON | IEXTEN | ISIG),
        vmin: 1,
        vtime: 0,
    }
}

/// Relies on rustix::termios::tcgetattr and rustix::stdio::stdin: reads the
/// current attributes of the real standard input.
#[verifier::external_body]
fn stdin_attrs() -> Result<rustix::termios::Termios, rustix::io::Errno> {
    rustix::termios::tcgetattr(rustix::stdio::stdin())
}

/// Relies on the public fields of rustix::termios::Termios: copies the four
/// mode words and the two read-control codes out as plain integers.
#[verifier::external_body]
fn attrs_modes(t: &rustix::termios::Termios) -> TermAttrs {
    TermAttrs {
        input_modes: t.input_modes.bits(),
        output_modes: t.output_modes.bits(),
        control_modes: t.control_modes.bits(),
        local_modes: t.local_modes.bits(),
        vmin: t.special_codes[rustix::termios::SpecialCodeIndex::VMIN],
        vtime: t.special_codes[rustix::termios::SpecialCodeIndex::VTIME],
    }
}

/// Relies on rustix::termios::tcsetattr and rustix::stdio::stdin: writes
/// attributes to the real standard input, taking the mode words and
/// read-control codes from `m` and every other field from `base`.
#[verifier::external_body]
fn stdin_set_modes(base: &rustix::termios::Termios, m: &TermAttrs) -> Result<(), rustix::io::Errno> {
    let mut t = base.clone();
    t.input_modes = rustix::termios::InputModes::from_bits_retain(m.input_modes);
    t.output_modes = rustix::termios::OutputModes::from_bits_retain(m.output_modes);
    t.control_modes = rustix::termios::ControlModes::from_bits_retain(m.control_modes);
    t.local_modes = rustix::termios::LocalModes::from_bits_retain(m.local_modes);
    t.special_codes[rustix::termios::SpecialCodeIndex::VMIN] = m.vmin;
    t.special_codes[rustix::termios::SpecialCodeIndex::VTIME] = m.vtime;
    rustix::termios::tcsetattr(rustix::stdio::stdin(), rustix::termios::OptionalActions::Now, &t)
}

/// Relies on rustix::termios::tcsetattr and rustix::stdio::stdin: reapplies
/// a previously captured attribute snapshot unchanged.
#[verifier::external_body]
fn stdin_restore_attrs(t: &rustix::termios::Termios) -> Result<(), rustix::io::Errno> {
    rustix::termios::tcsetattr(rustix::stdio::stdin(), rustix::termios::OptionalActions::Now, t)
}

/// Captures the current attributes of the real standard input: the snapshot
/// the exit-time restoration reapplies. A caller that must survive abrupt
/// termination captures here, stores the snapshot in its process-wide state,
/// and only then enters raw mode, so no window exists in which the terminal
/// is raw and the snapshot unstored.
pub fn capture_termios() -> (r: Result<rustix::termios::Termios, Error>)
    ensures
        r matches Err(e) ==> e is Terminal,
{
    match stdin_attrs() {
        Ok(t) => Ok(t),
        Err(e) => Err(Error::Terminal(errno_code(e))),
    }
}

/// Switches the real standard input into raw mode, starting from the given
/// snapshot of its attributes.
pub fn enter_raw_mode(snapshot: &rustix::termios::Termios) -> (r: Result<(), Error>)
    ensures
        r matches Err(e) ==> e is Terminal,
{
    let modes = attrs_modes(snapshot);
    let raw = make_raw(&modes);
    match stdin_set_modes(snapshot, &raw) {
        Ok(()) => Ok(()),
        Err(e) => Err(Error::Terminal(errno_code(e))),
    }
}

/// Captures the attributes of the real standard input, switches it into raw
/// mode, and copies its window size onto the pty master, in one call.
/// Returns the captured snapshot, which the exit-time restoration takes; the
/// caller must keep it for the life of the process. A caller that must store
/// the snapshot before any raw mode is applied uses `capture_termios` and
/// `enter_raw_mode` separately instead. A window-size copy failure is best
/// effort and not fatal, as the rest of the session does not depend on it.
pub fn setup_terminal(master: &rustix::fd::OwnedFd) -> (r: Result<rustix::termios::Termios, Error>)
    ensures
        r matches Err(e) ==> e is Terminal,
{
    let snapshot = capture_termios()?;
    enter_raw_mode(&snapshot)?;
    if let Ok(w) = winsize::query_stdin() {
        let _ = winsize::set(master, &w);
    }
    Ok(snapshot)
}

/// The exit-time restoration of the terminal: reapplies the captured
/// snapshot to the real standard input. When no snapshot was ever captured
/// it does nothing and succeeds.
pub fn restore_termios(snapshot: &Option<rustix::termios::Termios>) -> (r: Result<(), Error>)
    ensures
        snapshot is None ==> r is Ok,
        r matches Err(e) ==> e is Terminal,
{
    match snapshot {
        None => Ok(()),
        Some(t) => match stdin_restore_attrs(t) {
            Ok(()) => Ok(()),
            Err(e) => Err(Error::Terminal(errno_code(e))),
        },
    }
}

} // verus!

use vstd::prelude::*;
use crate::error::Error;
use crate::fdio::errno_code;

verus! {

/// The window size of a terminal: rows and columns in characters, and the
/// size in pixels where the terminal reports one.
#[derive(PartialEq, Eq, Structural, Clone, Copy, Debug)]
pub struct Winsize {
    /// rows, in characters
    pub ws_row: u16,
    /// columns, in characters
    pub ws_col: u16,
    /// horizontal size, pixels
    pub ws_xpixel: u16,
    /// vertical size, pixels
    pub ws_ypixel: u16,
}

impl Default for Winsize {
    /// All four fields zero, as the size must be before a query call fills it.
    fn default() -> (r: Self)
        ensures
            r.ws_row == 0 && r.ws_col == 0 && r.ws_xpixel == 0 && r.ws_ypixel == 0,
    {
        Winsize { ws_row: 0, ws_col: 0, ws_xpixel: 0, ws_ypixel: 0 }
    }
}

/// Relies on rustix::termios::tcgetwinsize: issues the get-window-size
/// control call on the descriptor and returns what the terminal reported.
#[verifier::external_body]
fn winsize_get(fd: &rustix::fd::OwnedFd) -> Result<Winsize, rustix::io::Errno> {
    match rustix::termios::tcgetwinsize(fd) {
        Ok(w) => Ok(Winsize {
            ws_row: w.ws_row,
            ws_col: w.ws_col,
            ws_xpixel: w.ws_xpixel,
            ws_ypixel: w.ws_ypixel,
        }),
        Err(e) => Err(e),
    }
}

/// Relies on rustix::termios::tcsetwinsize: issues the set-window-size
/// control call on the descriptor.
#[verifier::external_body]
fn winsize_put(fd: &rustix::fd::OwnedFd, w: &Winsize) -> Result<(), rustix::io::Errno> {
    rustix::termios::tcsetwinsize(fd, rustix::termios::Winsize {
        ws_row: w.ws_row,
        ws_col: w.ws_col,
        ws_xpixel: w.ws_xpixel,
        ws_ypixel: w.ws_ypixel,
    })
}

/// Relies on rustix::termios::tcgetwinsize and rustix::stdio::stdin: issues
/// the get-window-size control call on the real standard input.
#[verifier::external_body]
fn winsize_get_stdin() -> Result<Winsize, rustix::io::Errno> {
    match rustix::termios::tcgetwinsize(rustix::stdio::stdin()) {
        Ok(w) => Ok(Winsize {
            ws_row: w.ws_row,
            ws_col: w.ws_col,
            ws_xpixel: w.ws_xpixel,
            ws_ypixel: w.ws_ypixel,
        }),
        Err(e) => Err(e),
    }
}

/// Queries the window size of the terminal behind the descriptor. The size
/// comes from the terminal itself, so only the error class is pinned down.
pub fn from_fd(fd: &rustix::fd::OwnedFd) -> (r: Result<Winsize, Error>)
    ensures
        r matches Err(e) ==> e is Io,
{
    match winsize_get(fd) {
        Ok(w) => Ok(w),
        Err(e) => Err(Error::Io(errno_code(e))),
    }
}

/// Queries the window size of the real standard input.
pub fn query_stdin() -> (r: Result<Winsize, Error>)
    ensures
        r matches Err(e) ==> e is Io,
{
    match winsize_get_stdin() {
        Ok(w) => Ok(w),
        Err(e) => Err(Error::Io(errno_code(e))),
    }
}

/// Applies the window size to the terminal behind the descriptor. Best
/// effort: the caller may treat a failure as non-fatal.
pub fn set(fd: &rustix::fd::OwnedFd, w: &Winsize) -> (r: Result<(), Error>)
    ensures
        r matches Err(e) ==> e is Io,
{
    match winsize_put(fd, w) {
        Ok(()) => Ok(()),
        Err(e) => Err(Error::Io(errno_code(e))),
    }
}

} // verus!

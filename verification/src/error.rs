use vstd::prelude::*;

verus! {

/// The error type of the pty crate's fork constructor: why a pty could not
/// be allocated or the process could not be forked. Opaque here; it is kept
/// so a caller can report it.
#[verifier::external_type_specification]
#[verifier::external_body]
pub struct ExForkError(pty::fork::ForkError);

/// What can go wrong in this library, by the stage it belongs to.
#[derive(Clone, Copy, Debug)]
pub enum Error {
    /// Pseudo-terminal allocation or process fork failed; fatal to session
    /// creation.
    Pty(pty::fork::ForkError),
    /// Reading or writing the terminal attributes failed (the OS errno);
    /// fatal to proxy setup.
    Terminal(i32),
    /// A descriptor read, write or window-size control call failed (the OS
    /// errno); fatal only to the flow it happened in.
    Io(i32),
}

impl Error {
    /// True of the errors that abort session creation.
    pub fn is_pty(&self) -> (r: bool)
        ensures
            r == (self is Pty),
    {
        matches!(self, Error::Pty(_))
    }

    /// True of the errors that abort proxy setup.
    pub fn is_terminal(&self) -> (r: bool)
        ensures
            r == (self is Terminal),
    {
        matches!(self, Error::Terminal(_))
    }

    /// True of the errors of the relay flows.
    pub fn is_io(&self) -> (r: bool)
        ensures
            r == (self is Io),
    {
        matches!(self, Error::Io(_))
    }
}

} // verus!

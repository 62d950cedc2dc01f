use vstd::prelude::*;
use crate::winsize::Winsize;

verus! {

/// The observer capability set of a proxy session: the engine reports every
/// input chunk, every output chunk, every applied window size and the one
/// shutdown to it. Every member defaults to a no-op, so an implementor
/// overrides only what it records. Chunks are borrowed for the duration of
/// the call; an observer copies what it keeps.
pub trait PtyHandler {
    /// A chunk read from the real standard input, in read order.
    fn input(&mut self, _data: &[u8]) {
    }

    /// A chunk read from the pty master, in read order; never empty.
    fn output(&mut self, _data: &[u8]) {
    }

    /// The window size just applied to the pty master after a resize signal.
    fn resize(&mut self, _size: &Winsize) {
    }

    /// The session is over; called exactly once, when the child's output
    /// stream closes.
    fn shutdown(&mut self) {
    }
}

/// The default observer: every member keeps its no-op default.
pub struct NoopHandler;

impl PtyHandler for NoopHandler {
}

} // verus!

use vstd::prelude::*;

verus! {

/// The owned-descriptor type of the rustix crate (an owned file descriptor
/// that is closed on drop). Opaque here: the library only hands it to the
/// terminal control calls.
#[verifier::external_type_specification]
#[verifier::external_body]
pub struct ExOwnedFd(rustix::fd::OwnedFd);

/// rustix's error value: a saved OS errno code.
#[verifier::external_type_specification]
#[verifier::external_body]
pub struct ExErrno(rustix::io::Errno);

/// Relies on rustix::io::Errno::raw_os_error: returns the raw OS errno code
/// held by the error value.
#[verifier::external_body]
pub(crate) fn errno_code(e: rustix::io::Errno) -> i32 {
    e.raw_os_error()
}

} // verus!

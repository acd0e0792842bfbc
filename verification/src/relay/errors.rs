//! Error kinds of the relay.

use vstd::prelude::*;

verus! {

/// The errno value with which the kernel reports that an operation
/// would block.
pub const EWOULDBLOCK_ERRNO: i32 = 11;

/// Error type for the relay's forwarding paths.
#[derive(Debug, Copy, Clone, PartialEq, Eq, Hash, Structural)]
pub enum RelayError {
    /// The operation would block.
    WouldBlock,
    /// An endpoint is missing one of its pipe file descriptors.
    MissingFileDescriptor,
    /// A foreign value did not fit the expected type.
    TypeError,
    /// Catch-all carrying the errno, returned instead of panicking.
    Unknown(i32),
}

impl RelayError {
    /// Classify the errno observed after a failed splice call.
    pub fn from_errno(errno: i32) -> (r: RelayError)
        ensures
            errno == EWOULDBLOCK_ERRNO ==> r == RelayError::WouldBlock,
            errno != EWOULDBLOCK_ERRNO ==> r == RelayError::Unknown(errno),
    {
        if errno == EWOULDBLOCK_ERRNO {
            RelayError::WouldBlock
        } else {
            RelayError::Unknown(errno)
        }
    }
}

} // verus!

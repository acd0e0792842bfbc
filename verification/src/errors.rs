//! Error kinds reported by the library. Every error is fatal for the
//! session that produced it; there is no retry.

use vstd::prelude::*;

verus! {

/// Error kinds of the client library.
#[derive(Debug, Clone, Copy, PartialEq, Eq, Structural)]
pub enum PortalError {
    /// A value that was required is absent.
    NoneError,
    /// The provided path has no usable leaf file name.
    BadFileName,
    /// The download destination is not a directory.
    BadDirectory,
    /// The receiver's verify callback refused the transfer.
    Cancelled,
    /// The received byte count does not match the declared file size.
    Incomplete,
    /// An underlying cryptographic primitive failed.
    CryptoError,
    /// A buffer had the wrong mutability for the requested operation.
    Mutability,
    /// The provided storage is too small for the incoming frame.
    BufferTooSmall,
    /// A connection could not be registered with the relay.
    BadRegistration,
    /// The session was used out of order.
    BadState,
    /// No peer was matched or confirmed on the relay.
    NoPeer,
    /// Protocol framing, deserialization, or an unexpected envelope.
    BadMsg,
    /// The peer's key-confirmation value did not match the expected one.
    PeerKeyMismatch,
    /// The AEAD reported an encryption failure.
    EncryptError,
    /// The AEAD rejected a ciphertext or tag.
    DecryptError,
    /// Socket or file input/output failed.
    IOError,
    /// An operation was interrupted.
    Interrupted,
    /// An operation would block.
    WouldBlock,
    /// A value could not be serialized.
    SerializeError,
}

} // verus!

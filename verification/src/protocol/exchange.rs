//! The two fixed-size payloads exchanged during the handshake.

use vstd::prelude::*;

verus! {

/// Number of bytes in a key-exchange payload: a compressed Edwards25519
/// group element plus a one-byte side tag.
pub const KEY_EXCHANGE_SIZE: usize = 33;

/// Number of bytes in a key-confirmation payload.
pub const CONFIRM_SIZE: usize = 42;

/// A data format exchanged by each peer to derive the shared session
/// key.
#[derive(Debug, PartialEq, Eq)]
pub struct PortalKeyExchange(pub Vec<u8>);

/// A data format exchanged by each peer to confirm that they have each
/// derived the same key.
#[derive(Debug, PartialEq, Eq)]
pub struct PortalConfirmation(pub Vec<u8>);

impl PortalKeyExchange {
    /// The payload has its fixed wire size.
    pub open spec fn wf(&self) -> bool {
        self.0@.len() == KEY_EXCHANGE_SIZE
    }

    /// Wrap a 33-byte key-exchange payload.
    pub fn new(data: Vec<u8>) -> (r: PortalKeyExchange)
        requires
            data@.len() == KEY_EXCHANGE_SIZE,
        ensures
            r.wf(),
            r.0@ == data@,
    {
        PortalKeyExchange(data)
    }
}

impl PortalConfirmation {
    /// The payload has its fixed wire size.
    pub open spec fn wf(&self) -> bool {
        self.0@.len() == CONFIRM_SIZE
    }

    /// Wrap a 42-byte key-confirmation payload.
    pub fn new(data: Vec<u8>) -> (r: PortalConfirmation)
        requires
            data@.len() == CONFIRM_SIZE,
        ensures
            r.wf(),
            r.0@ == data@,
    {
        PortalConfirmation(data)
    }
}

} // verus!

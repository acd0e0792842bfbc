//! The byte-stream abstraction the protocol runs over.
//!
//! A session needs nothing from its transport but blocking reads and
//! writes of byte strings. Callers hand the library any type that
//! implements [`Stream`]; the program around the library implements it
//! over a TCP socket, tests implement it over in-memory buffers. The
//! trait's methods carry no contracts: the library checks what it needs
//! of every value a stream hands back.

use vstd::prelude::*;
use crate::errors::PortalError;

verus! {

/// A reliable, ordered, blocking byte stream.
pub trait Stream {
    /// Read exactly `n` bytes. Implementations should block until `n`
    /// bytes arrive and report any shortfall or transport failure as an
    /// error.
    fn read_exact_bytes(&mut self, n: usize) -> Result<Vec<u8>, PortalError>;

    /// Write all of `data`, blocking until the transport has taken it.
    fn write_all_bytes(&mut self, data: &[u8]) -> Result<(), PortalError>;
}

/// Read exactly `n` bytes from the stream; a stream that returns any
/// other count is reported as an I/O failure.
pub fn read_exact<S: Stream>(stream: &mut S, n: usize) -> (r: Result<Vec<u8>, PortalError>)
    ensures
        r matches Ok(v) ==> v@.len() == n,
{
    match stream.read_exact_bytes(n) {
        Ok(v) => {
            if v.len() == n {
                Ok(v)
            } else {
                Err(PortalError::IOError)
            }
        },
        Err(e) => Err(e),
    }
}

} // verus!

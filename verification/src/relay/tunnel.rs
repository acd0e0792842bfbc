//! The decisions of one forwarding tunnel.
//!
//! A tunnel moves bytes from a source socket through a kernel pipe to
//! a destination socket. The reactor alternates two splice calls —
//! source into pipe, pipe into destination — and hands each result to
//! the tunnel, which decides whether to keep going, yield until the
//! next readiness event, tear the direction down, or abort. The pipe
//! acts as a bounded queue: when the destination blocks, the pipe
//! fills, the source-side splice blocks in turn, and the source is
//! stalled naturally.

use vstd::prelude::*;
use crate::relay::errors::RelayError;

verus! {

/// What to do after draining the pipe towards the destination.
#[derive(Debug, Copy, Clone, PartialEq, Eq, Structural)]
pub enum DrainStep {
    /// The pipe is empty and its write end closed: this direction is
    /// finished and the endpoint can be torn down.
    Done,
    /// The destination cannot take more: return to the reactor and
    /// wait for the next readiness event.
    Yield,
    /// Bytes moved; keep draining.
    Continue,
}

/// Abstraction around a TCP splice using an intermediary kernel pipe:
/// the state that outlives one readiness event.
#[derive(Debug, PartialEq, Eq, Structural)]
pub struct Tunnel {
    /// Whether the source socket has reported end-of-stream.
    pub source_finished: bool,
}

impl Tunnel {
    /// A tunnel whose source is still open.
    pub fn new() -> (r: Tunnel)
        ensures
            !r.source_finished,
    {
        Tunnel { source_finished: false }
    }

    /// Decide on the outcome of buffering data from the source into
    /// the pipe. Returns whether the pipe's write end must now be
    /// closed — the only signal of end-of-stream a splice reader gets —
    /// and the result to propagate. A would-block outcome counts as
    /// zero bytes buffered: the pipe may be full while the destination
    /// can still drain it.
    pub fn buffer_source(&mut self, rx: Result<usize, RelayError>) -> (r: (
        bool,
        Result<usize, RelayError>,
    ))
        ensures
            final(self).source_finished == (old(self).source_finished || rx == Ok::<
                usize,
                RelayError,
            >(0)),
            r.0 == (rx == Ok::<usize, RelayError>(0)),
            rx == Ok::<usize, RelayError>(0) ==> r.1 == Ok::<usize, RelayError>(0),
            rx == Err::<usize, RelayError>(RelayError::WouldBlock) ==> r.1 == Ok::<
                usize,
                RelayError,
            >(0),
            (rx matches Ok(n) && n > 0) ==> r.1 == rx,
            (rx matches Err(e) && e != RelayError::WouldBlock) ==> r.1 == rx,
    {
        match rx {
            // Done reading: the write end of the pipe must be closed so
            // that future drains can see end-of-stream.
            Ok(0usize) => {
                self.source_finished = true;
                (true, Ok(0))
            },
            // Would block: nothing buffered on this pass.
            Err(RelayError::WouldBlock) => (false, Ok(0)),
            // All other errors or byte counts propagate.
            other => (false, other),
        }
    }

    /// Decide on the outcome of draining the pipe into the
    /// destination: an empty pipe with a closed write end finishes the
    /// direction, a blocked destination yields to the reactor, moved
    /// bytes call for another round, and any other error is fatal.
    pub fn drain_to_destination(tx: Result<usize, RelayError>) -> (r: Result<
        DrainStep,
        RelayError,
    >)
        ensures
            tx == Ok::<usize, RelayError>(0) ==> r == Ok::<DrainStep, RelayError>(DrainStep::Done),
            tx == Err::<usize, RelayError>(RelayError::WouldBlock) ==> r == Ok::<
                DrainStep,
                RelayError,
            >(DrainStep::Yield),
            (tx matches Ok(n) && n > 0) ==> r == Ok::<DrainStep, RelayError>(DrainStep::Continue),
            (tx matches Err(e) && e != RelayError::WouldBlock) ==> r == Err::<
                DrainStep,
                RelayError,
            >(tx->Err_0),
    {
        match tx {
            Ok(0usize) => Ok(DrainStep::Done),
            Err(RelayError::WouldBlock) => Ok(DrainStep::Yield),
            Err(e) => Err(e),
            Ok(_) => Ok(DrainStep::Continue),
        }
    }
}

} // verus!

//! The rendezvous relay's decision logic.
//!
//! The relay pairs two TCP connections that announce the same
//! identifier and then splices bytes between them through a kernel
//! pipe per direction. Everything the relay *decides* — which
//! connection to pend, drop, pair or close, when to reap a stale
//! sender, and how to react to each splice result — lives here and is
//! verified. The surrounding reactor performs the socket, pipe and
//! splice calls and feeds their outcomes back in.

pub mod broker;
pub mod errors;
pub mod tunnel;

pub use broker::ConnectionBroker;
pub use broker::PendingSender;
pub use broker::RegisterAction;
pub use errors::RelayError;
pub use tunnel::DrainStep;
pub use tunnel::Tunnel;

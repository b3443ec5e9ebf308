//! The native core of an HTTP/1.x application server: connection slots,
//! the interest-set rules of the readiness poller, the update queue, the
//! response channels and the HTTP/1 protocol state machine.
//!
//! The readiness poller, the sockets and the host-language callback are
//! driven by the embedding program; this crate decides what they are asked
//! to do.

pub mod token;
pub mod interest;
pub mod buffer;
pub mod transport;
pub mod channel;
pub mod responders;
pub mod head;
pub mod switch;
pub mod http1;
pub mod protocol;
pub mod client;
pub mod server;

//! Verified core of a filesystem-socket serving stack.
//!
//! A process accepts connections on a local socket addressed by a filesystem
//! path and serves one request/response exchange per connection.  On platforms
//! whose asynchronous runtime polls such listeners natively, accepting is a
//! plain suspension point; on platforms where the listener only offers a
//! blocking `accept`, a dedicated thread forwards accept results through a
//! bounded FIFO to the asynchronous consumer.  This crate verifies the logic
//! of that stack: the bounded FIFO and its backpressure, the bridge thread's
//! stopping rules, the consumer's serving decisions, and the stale-socket
//! cleanup decision.  The I/O itself (binding, accepting, HTTP framing) lives
//! in the unverified shell around this crate.

pub mod bridge;
pub mod channel;
pub mod hygiene;
pub mod listener;
pub mod serve;

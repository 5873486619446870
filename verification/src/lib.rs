//! A verified core for a peer-to-peer handshake and message-dispatch
//! protocol: a connector that validates a remote full node before any
//! other traffic is accepted, and a dispatcher that filters an inbound
//! message stream down to the kinds a caller cares about.

pub mod codec;
pub mod dispatch;
pub mod protocol;
pub mod session;

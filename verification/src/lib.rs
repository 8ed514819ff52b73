//! Packet-lifecycle core of an interchain-account controller.
//!
//! The controller sends batches of transactions to a remote chain over an
//! ordered channel and keeps track of what became of them: it counts the
//! acknowledgements that come back, closes the channel when a packet times
//! out, turns away inbound packets, and encodes outgoing batches in the
//! binary form that the remote chain executes.

pub mod ibc;
pub mod ibc_module;
pub mod state;
pub mod types;

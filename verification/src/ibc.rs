//! The handlers for the packets of the ordered channel.

pub mod relay;
pub mod types;

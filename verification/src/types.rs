//! Records that the controller keeps, the errors it reports and the
//! responses it hands back.

pub mod abi;
pub mod error;
pub mod evm_msg;
pub mod response;
pub mod state;

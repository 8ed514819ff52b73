//! Why a handler fails.

use cosmwasm_std::StdError;
use vstd::prelude::*;

verus! {

/// `cosmwasm_std::StdError`, the error that the decoder of `cosmwasm_std`
/// reports. The controller passes it on and never looks inside.
#[verifier::external_type_specification]
#[verifier::external_body]
pub struct ExStdError(cosmwasm_std::StdError);

/// The record that a handler asked the store for and did not find.
#[derive(Clone, Copy, Debug, PartialEq, Eq, Structural)]
pub enum StoreError {
    /// No channel state has been saved.
    ChannelStateNotFound,
    /// No callback counter has been saved.
    CallbackCounterNotFound,
    /// No contract state has been saved.
    ContractStateNotFound,
}

/// The failure of a handler. A handler that fails leaves every record as it
/// found it.
#[derive(Debug)]
pub enum ContractError {
    /// The acknowledgement is no envelope: it is neither a result nor an
    /// error. The decoder's own report is inside.
    Decode(StdError),
    /// The store lacks a record that the handler needs.
    Store(StoreError),
}

} // verus!

//! The responses that the handlers hand back to the host: they carry
//! nothing.

use cosmwasm_std::{IbcBasicResponse, IbcReceiveResponse};
use vstd::prelude::*;

verus! {

/// `cosmwasm_std::Empty`, which stands for "no custom message".
#[verifier::external_type_specification]
#[verifier::external_body]
pub struct ExEmpty(cosmwasm_std::Empty);

/// `cosmwasm_std::Never`, an error type without values.
#[verifier::external_type_specification]
#[verifier::external_body]
pub struct ExNever(cosmwasm_std::Never);

/// `cosmwasm_std::IbcBasicResponse`, the answer to an acknowledgement or a
/// timeout.
#[verifier::external_type_specification]
#[verifier::external_body]
#[verifier::reject_recursive_types(T)]
pub struct ExIbcBasicResponse<T>(cosmwasm_std::IbcBasicResponse<T>);

/// `cosmwasm_std::IbcReceiveResponse`, the answer to an inbound packet.
#[verifier::external_type_specification]
#[verifier::external_body]
#[verifier::reject_recursive_types(T)]
pub struct ExIbcReceiveResponse<T>(cosmwasm_std::IbcReceiveResponse<T>);

/// How much an `IbcBasicResponse` carries: its messages, attributes and
/// events, counted together.
pub uninterp spec fn basic_response_len(response: IbcBasicResponse) -> nat;

/// How much an `IbcReceiveResponse` carries: the bytes of its
/// acknowledgement and its messages, attributes and events, counted
/// together.
pub uninterp spec fn receive_response_len(response: IbcReceiveResponse) -> nat;

/// `IbcBasicResponse::default()`. Not verified: the contract says that the
/// response it makes has no message, no attribute and no event.
#[verifier::external_body]
pub(crate) fn empty_basic_response() -> (response: IbcBasicResponse)
    ensures
        basic_response_len(response) == 0,
{
    IbcBasicResponse::default()
}

/// `IbcReceiveResponse::default()`. Not verified: the contract says that the
/// response it makes has an acknowledgement of no bytes, no message, no
/// attribute and no event.
#[verifier::external_body]
pub(crate) fn empty_receive_response() -> (response: IbcReceiveResponse)
    ensures
        receive_response_len(response) == 0,
{
    IbcReceiveResponse::default()
}

} // verus!

//! The acknowledgement envelope and its decoding.

use cosmwasm_std::{StdAck, StdError};
use vstd::prelude::*;

verus! {

/// What the remote chain answers to a packet. The controller tells the two
/// cases apart and looks no further.
#[derive(Debug, PartialEq, Eq)]
pub enum AcknowledgementData {
    /// The transactions were executed. The bytes are the remote chain's
    /// response.
    Result(Vec<u8>),
    /// The transactions failed. The text is the remote chain's message.
    Error(String),
}

/// An acknowledgement envelope as a mathematical value.
pub enum AckView {
    Result(Seq<u8>),
    Error(Seq<char>),
}

impl View for AcknowledgementData {
    type V = AckView;

    open spec fn view(&self) -> AckView {
        match *self {
            AcknowledgementData::Result(data) => AckView::Result(data@),
            AcknowledgementData::Error(message) => AckView::Error(message@),
        }
    }
}

/// The envelope that the bytes of an acknowledgement stand for, or `None`
/// where they stand for none. This is what `cosmwasm_std::from_json` makes
/// of them when asked for a `cosmwasm_std::StdAck`: the JSON object
/// `{"result": ..}` with the response in base64, or `{"error": ..}` with the
/// message.
pub uninterp spec fn decoded_ack(payload: Seq<u8>) -> Option<AckView>;

/// `cosmwasm_std::from_json` for a `cosmwasm_std::StdAck`. Not verified: the
/// contract says that the outcome is a function of the bytes alone, named
/// `decoded_ack`, and nothing about which bytes decode.
#[verifier::external_body]
pub(crate) fn decode_ack(payload: &[u8]) -> (decoded: Result<AcknowledgementData, StdError>)
    ensures
        match decoded {
            Ok(ack) => decoded_ack(payload@) == Some(ack@),
            Err(_) => decoded_ack(payload@) is None,
        },
{
    match cosmwasm_std::from_json::<StdAck>(payload) {
        Ok(StdAck::Success(data)) => Ok(AcknowledgementData::Result(data.into())),
        Ok(StdAck::Error(message)) => Ok(AcknowledgementData::Error(message)),
        Err(error) => Err(error),
    }
}

} // verus!

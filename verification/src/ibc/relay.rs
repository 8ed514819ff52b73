//! What the controller does when a packet is acknowledged, times out or
//! arrives.

use crate::ibc::types::{decode_ack, decoded_ack, AckView, AcknowledgementData};
use crate::types::error::{ContractError, StoreError};
use crate::types::response::{
    basic_response_len, empty_basic_response, empty_receive_response, receive_response_len,
};
use crate::types::state::{ChannelStatus, Store, StoreModel};
use cosmwasm_std::{IbcBasicResponse, IbcReceiveResponse, Never, StdError};
use vstd::prelude::*;

verus! {

/// The store after an acknowledged result has been counted: the tally has one
/// success more, if there is a tally.
pub open spec fn after_success(store: StoreModel) -> StoreModel {
    match store.callback_counter {
        Some(tally) => StoreModel { callback_counter: Some(tally.with_success()), ..store },
        None => store,
    }
}

/// The store after an acknowledged error has been counted: the tally has one
/// error more, if there is a tally.
pub open spec fn after_error(store: StoreModel) -> StoreModel {
    match store.callback_counter {
        Some(tally) => StoreModel { callback_counter: Some(tally.with_error()), ..store },
        None => store,
    }
}

/// The store after an acknowledgement whose bytes decoded to `decoded`. Bytes
/// that do not decode change nothing.
pub open spec fn after_ack(store: StoreModel, decoded: Option<AckView>) -> StoreModel {
    match decoded {
        Some(AckView::Result(_)) => after_success(store),
        Some(AckView::Error(_)) => after_error(store),
        None => store,
    }
}

/// The store after a timeout: the channel is closed, if there is a channel.
pub open spec fn after_timeout(store: StoreModel) -> StoreModel {
    match store.channel_state {
        Some(_) => StoreModel { channel_state: Some(ChannelStatus::Closed), ..store },
        None => store,
    }
}

/// Handles the timeout of a packet. Whichever packet it was, the channel is
/// closed: on an ordered channel one lost packet ends the channel. Fails only
/// where no channel state has been saved.
pub fn ibc_packet_timeout(store: &mut Store) -> (outcome: Result<
    IbcBasicResponse,
    ContractError,
>)
    ensures
        final(store)@ == after_timeout(old(store)@),
        outcome is Err ==> *final(store) == *old(store),
        match old(store).channel_state {
            Some(_) => outcome matches Ok(response) && basic_response_len(response) == 0,
            None => outcome == Err::<IbcBasicResponse, ContractError>(
                ContractError::Store(StoreError::ChannelStateNotFound),
            ),
        },
{
    let mut channel_state = match store.load_channel_state() {
        Ok(state) => state,
        Err(error) => {
            return Err(error);
        },
    };
    channel_state.close();
    store.save_channel_state(channel_state);
    Ok(empty_basic_response())
}

/// Counts a packet whose transactions were executed on the remote chain.
/// Fails only where no callback counter has been saved.
pub fn success(store: &mut Store) -> (outcome: Result<IbcBasicResponse, ContractError>)
    requires
        old(store).callback_counter matches Some(counter) ==> counter.success_count < u64::MAX,
    ensures
        final(store)@ == after_success(old(store)@),
        outcome is Err ==> *final(store) == *old(store),
        match old(store).callback_counter {
            Some(_) => outcome matches Ok(response) && basic_response_len(response) == 0,
            None => outcome == Err::<IbcBasicResponse, ContractError>(
                ContractError::Store(StoreError::CallbackCounterNotFound),
            ),
        },
{
    let mut counter = match store.load_callback_counter() {
        Ok(counter) => counter,
        Err(error) => {
            return Err(error);
        },
    };
    counter.record_success();
    store.save_callback_counter(counter);
    Ok(empty_basic_response())
}

/// Counts a packet whose transactions failed on the remote chain. Fails only
/// where no callback counter has been saved.
pub fn error(store: &mut Store) -> (outcome: Result<IbcBasicResponse, ContractError>)
    requires
        old(store).callback_counter matches Some(counter) ==> counter.error_count < u64::MAX,
    ensures
        final(store)@ == after_error(old(store)@),
        outcome is Err ==> *final(store) == *old(store),
        match old(store).callback_counter {
            Some(_) => outcome matches Ok(response) && basic_response_len(response) == 0,
            None => outcome == Err::<IbcBasicResponse, ContractError>(
                ContractError::Store(StoreError::CallbackCounterNotFound),
            ),
        },
{
    let mut counter = match store.load_callback_counter() {
        Ok(counter) => counter,
        Err(error) => {
            return Err(error);
        },
    };
    counter.record_error();
    store.save_callback_counter(counter);
    Ok(empty_basic_response())
}

/// Routes a decoded acknowledgement, given as the decoder's outcome: a result
/// counts as a success, an error as an error, and neither is looked into. An
/// acknowledgement that did not decode is reported with the decoder's error
/// and counts as nothing. Of the rest, the handler fails only where no
/// callback counter has been saved.
pub fn route_acknowledgement(
    store: &mut Store,
    decoded: Result<AcknowledgementData, StdError>,
) -> (outcome: Result<IbcBasicResponse, ContractError>)
    requires
        match decoded {
            Ok(AcknowledgementData::Result(_)) => old(store).callback_counter matches Some(
                counter,
            ) ==> counter.success_count < u64::MAX,
            Ok(AcknowledgementData::Error(_)) => old(store).callback_counter matches Some(
                counter,
            ) ==> counter.error_count < u64::MAX,
            Err(_) => true,
        },
    ensures
        match decoded {
            Ok(ack) => {
                &&& final(store)@ == after_ack(old(store)@, Some(ack@))
                &&& outcome is Err ==> *final(store) == *old(store)
                &&& match old(store).callback_counter {
                    Some(_) => outcome matches Ok(response) && basic_response_len(response) == 0,
                    None => outcome == Err::<IbcBasicResponse, ContractError>(
                        ContractError::Store(StoreError::CallbackCounterNotFound),
                    ),
                }
            },
            Err(error) => {
                &&& *final(store) == *old(store)
                &&& outcome == Err::<IbcBasicResponse, ContractError>(
                    ContractError::Decode(error),
                )
            },
        },
{
    match decoded {
        Ok(AcknowledgementData::Result(_)) => success(store),
        Ok(AcknowledgementData::Error(_)) => error(store),
        Err(error) => Err(ContractError::Decode(error)),
    }
}

/// Handles the acknowledgement of a packet, given as the bytes that came
/// back. The bytes are decoded to an envelope, and the envelope is routed as
/// `route_acknowledgement` says. Bytes that are no envelope make the handler
/// fail with `ContractError::Decode`, and nothing is counted.
///
/// Which count grows is known only once the bytes are decoded, so the
/// counter, if there is one, has to have room in both.
pub fn ibc_packet_ack(store: &mut Store, payload: &[u8]) -> (outcome: Result<
    IbcBasicResponse,
    ContractError,
>)
    requires
        old(store).has_room(),
    ensures
        final(store)@ == after_ack(old(store)@, decoded_ack(payload@)),
        outcome is Err ==> *final(store) == *old(store),
        match decoded_ack(payload@) {
            Some(_) => match old(store).callback_counter {
                Some(_) => outcome matches Ok(response) && basic_response_len(response) == 0,
                None => outcome == Err::<IbcBasicResponse, ContractError>(
                    ContractError::Store(StoreError::CallbackCounterNotFound),
                ),
            },
            None => outcome matches Err(ContractError::Decode(_)),
        },
{
    route_acknowledgement(store, decode_ack(payload))
}

/// Handles a packet that arrives. A controller receives none, so the packet
/// is turned away without a trace: the handler touches no record and answers
/// with an empty response. It never fails, and it does not abort either: a
/// host that delivers such a packet gets an answer that says nothing.
pub fn ibc_packet_receive(store: &mut Store) -> (outcome: Result<IbcReceiveResponse, Never>)
    ensures
        *final(store) == *old(store),
        outcome matches Ok(response) && receive_response_len(response) == 0,
{
    Ok(empty_receive_response())
}

/// What the host can report to the controller about a packet.
pub enum PacketEvent {
    /// An acknowledgement came back, and its bytes decoded to this.
    Acknowledgement(Option<AckView>),
    /// A packet that was sent timed out.
    Timeout,
    /// A packet arrived.
    Receive,
}

/// The store after the handler for `event` has run.
pub open spec fn after_event(store: StoreModel, event: PacketEvent) -> StoreModel {
    match event {
        PacketEvent::Acknowledgement(decoded) => after_ack(store, decoded),
        PacketEvent::Timeout => after_timeout(store),
        PacketEvent::Receive => store,
    }
}

/// The store after the handlers for `events` have run, one after the other.
pub open spec fn after_events(store: StoreModel, events: Seq<PacketEvent>) -> StoreModel
    decreases events.len(),
{
    if events.len() == 0 {
        store
    } else {
        after_event(after_events(store, events.drop_last()), events.last())
    }
}

/// How many of `events` are acknowledgements that decoded to a result.
pub open spec fn results_among(events: Seq<PacketEvent>) -> nat
    decreases events.len(),
{
    if events.len() == 0 {
        0
    } else {
        results_among(events.drop_last()) + match events.last() {
            PacketEvent::Acknowledgement(Some(AckView::Result(_))) => 1nat,
            _ => 0nat,
        }
    }
}

/// How many of `events` are acknowledgements that decoded to an error.
pub open spec fn errors_among(events: Seq<PacketEvent>) -> nat
    decreases events.len(),
{
    if events.len() == 0 {
        0
    } else {
        errors_among(events.drop_last()) + match events.last() {
            PacketEvent::Acknowledgement(Some(AckView::Error(_))) => 1nat,
            _ => 0nat,
        }
    }
}

/// The tally grows by exactly the acknowledgements that decoded: each of them
/// adds one to the count of its kind and nothing to the other, and no other
/// event changes either count. So after any events the two counts together
/// have grown by the number of acknowledgements that were routed.
pub proof fn lemma_tally_counts_routed_acknowledgements(store: StoreModel, events: Seq<PacketEvent>)
    requires
        store.callback_counter is Some,
    ensures
        after_events(store, events).callback_counter matches Some(tally) && {
            let before = store.callback_counter->Some_0;
            &&& tally.successes == before.successes + results_among(events)
            &&& tally.errors == before.errors + errors_among(events)
            &&& tally.total() == before.total() + results_among(events) + errors_among(events)
        },
    decreases events.len(),
{
    if events.len() > 0 {
        lemma_tally_counts_routed_acknowledgements(store, events.drop_last());
    }
}

/// A closed channel stays closed, whatever events follow and in whatever
/// order: no handler opens a channel.
pub proof fn lemma_closed_channel_stays_closed(store: StoreModel, events: Seq<PacketEvent>)
    requires
        store.channel_state == Some(ChannelStatus::Closed),
    ensures
        after_events(store, events).channel_state == Some(ChannelStatus::Closed),
    decreases events.len(),
{
    if events.len() > 0 {
        lemma_closed_channel_stays_closed(store, events.drop_last());
    }
}

/// Once a timeout is among the events, the channel is closed after them, if
/// the store holds a channel state at all.
pub proof fn lemma_timeout_closes_for_good(store: StoreModel, events: Seq<PacketEvent>, at: int)
    requires
        store.channel_state is Some,
        0 <= at < events.len(),
        events[at] is Timeout,
    ensures
        after_events(store, events).channel_state == Some(ChannelStatus::Closed),
    decreases events.len(),
{
    if at == events.len() - 1 {
        lemma_channel_state_stays(store, events.drop_last());
    } else {
        lemma_timeout_closes_for_good(store, events.drop_last(), at);
    }
}

/// No event removes the channel state from the store.
pub proof fn lemma_channel_state_stays(store: StoreModel, events: Seq<PacketEvent>)
    requires
        store.channel_state is Some,
    ensures
        after_events(store, events).channel_state is Some,
    decreases events.len(),
{
    if events.len() > 0 {
        lemma_channel_state_stays(store, events.drop_last());
    }
}

} // verus!

//! What the controller does when a packet times out or arrives.

use crate::state::StateStore;
use crate::types::error::{ContractError, StoreError};
use crate::types::response::{
    basic_response_len, empty_basic_response, empty_receive_response, receive_response_len,
};
use crate::types::state::ChannelStatus;
use cosmwasm_std::{IbcBasicResponse, IbcReceiveResponse, Never};
use vstd::prelude::*;

verus! {

/// The place of the record after a timeout: the channel is closed, if there
/// is a record.
pub open spec fn after_timeout(store: StateStore) -> StateStore {
    match store.state {
        Some(state) => StateStore { state: Some(state.closed()) },
        None => store,
    }
}

/// Handles the timeout of a packet. Whichever packet it was, the channel is
/// closed: on an ordered channel one lost packet ends the channel. Fails only
/// where no record has been saved.
pub fn ibc_packet_timeout(store: &mut StateStore) -> (outcome: Result<
    IbcBasicResponse,
    ContractError,
>)
    ensures
        *final(store) == after_timeout(*old(store)),
        match old(store).state {
            Some(_) => outcome matches Ok(response) && basic_response_len(response) == 0,
            None => outcome == Err::<IbcBasicResponse, ContractError>(
                ContractError::Store(StoreError::ContractStateNotFound),
            ),
        },
{
    let mut contract_state = match store.load() {
        Ok(state) => state,
        Err(error) => {
            return Err(error);
        },
    };
    contract_state.channel_state = ChannelStatus::Closed;
    store.save(contract_state);
    Ok(empty_basic_response())
}

/// Handles a packet that arrives. A controller receives none, so the packet
/// is turned away without a trace: the handler touches no record and answers
/// with an empty response. It never fails, and it does not abort either: a
/// host that delivers such a packet gets an answer that says nothing.
pub fn ibc_packet_receive(store: &mut StateStore) -> (outcome: Result<IbcReceiveResponse, Never>)
    ensures
        *final(store) == *old(store),
        outcome matches Ok(response) && receive_response_len(response) == 0,
{
    Ok(empty_receive_response())
}

/// The place of the record after `timeouts` timeouts.
pub open spec fn after_timeouts(store: StateStore, timeouts: nat) -> StateStore
    decreases timeouts,
{
    if timeouts == 0 {
        store
    } else {
        after_timeout(after_timeouts(store, (timeouts - 1) as nat))
    }
}

/// One timeout closes the channel and no further timeout opens it: after any
/// number of timeouts but none, the record is the one that the first timeout
/// left.
pub proof fn lemma_timeouts_close_once(store: StateStore, timeouts: nat)
    requires
        timeouts > 0,
    ensures
        after_timeouts(store, timeouts) == after_timeout(store),
    decreases timeouts,
{
    if timeouts > 1 {
        lemma_timeouts_close_once(store, (timeouts - 1) as nat);
    } else {
        assert(after_timeouts(store, 0) == store);
    }
}

} // verus!

//! The persisted records: the state of the channel and the tally of
//! acknowledgements.

use crate::types::error::{ContractError, StoreError};
use vstd::prelude::*;

verus! {

/// Whether packets may still be sent over the channel.
#[derive(Clone, Copy, Debug, PartialEq, Eq, Structural)]
pub enum ChannelStatus {
    /// The handshake has completed and no packet has timed out.
    Open,
    /// A packet has timed out. The channel stays closed for good: only a new
    /// handshake, which makes a new channel, brings an open one.
    Closed,
}

/// The record kept about the ordered channel.
#[derive(Clone, Copy, Debug, PartialEq, Eq, Structural)]
pub struct ChannelState {
    pub status: ChannelStatus,
}

impl ChannelState {
    /// The record with the channel closed.
    pub open spec fn closed(self) -> ChannelState {
        ChannelState { status: ChannelStatus::Closed, ..self }
    }

    /// The record of a channel whose handshake has just completed.
    pub fn new() -> (state: ChannelState)
        ensures
            state.status == ChannelStatus::Open,
    {
        ChannelState { status: ChannelStatus::Open }
    }

    /// Closes the channel. Closing a closed channel changes nothing.
    pub fn close(&mut self)
        ensures
            *final(self) == old(self).closed(),
            final(self).status == ChannelStatus::Closed,
    {
        self.status = ChannelStatus::Closed;
    }

    /// Closing is idempotent: closing a second time gives what closing once
    /// gave.
    pub proof fn lemma_close_is_idempotent(self)
        ensures
            self.closed().closed() == self.closed(),
            self.closed().status == ChannelStatus::Closed,
    {
    }

    /// The current status, for whoever has to refuse a send on a closed
    /// channel.
    pub fn status(&self) -> (status: ChannelStatus)
        ensures
            status == self.status,
    {
        self.status
    }
}

/// What a callback counter has counted, as numbers without an upper limit.
pub struct Tally {
    /// Acknowledgements that reported a result.
    pub successes: nat,
    /// Acknowledgements that reported an error.
    pub errors: nat,
}

impl Tally {
    /// All acknowledgements counted so far.
    pub open spec fn total(self) -> nat {
        self.successes + self.errors
    }

    /// The tally after one more result.
    pub open spec fn with_success(self) -> Tally {
        Tally { successes: self.successes + 1, errors: self.errors }
    }

    /// The tally after one more error.
    pub open spec fn with_error(self) -> Tally {
        Tally { successes: self.successes, errors: self.errors + 1 }
    }
}

/// The record that counts the acknowledgements received for the packets
/// sent over the channel.
#[derive(Clone, Copy, Debug, PartialEq, Eq, Structural)]
pub struct CallbackCounter {
    /// Acknowledgements that reported a result.
    pub success_count: u64,
    /// Acknowledgements that reported an error.
    pub error_count: u64,
}

impl View for CallbackCounter {
    type V = Tally;

    open spec fn view(&self) -> Tally {
        Tally { successes: self.success_count as nat, errors: self.error_count as nat }
    }
}

impl CallbackCounter {
    /// Whether either count can still grow by one.
    pub open spec fn has_room(self) -> bool {
        self.success_count < u64::MAX && self.error_count < u64::MAX
    }

    /// The counter of a controller that has received nothing yet.
    pub fn new() -> (counter: CallbackCounter)
        ensures
            counter.success_count == 0,
            counter.error_count == 0,
    {
        CallbackCounter { success_count: 0, error_count: 0 }
    }

    /// Counts one acknowledged result.
    pub fn record_success(&mut self)
        requires
            old(self).success_count < u64::MAX,
        ensures
            final(self)@ == old(self)@.with_success(),
    {
        self.success_count = self.success_count + 1;
    }

    /// Counts one acknowledged error.
    pub fn record_error(&mut self)
        requires
            old(self).error_count < u64::MAX,
        ensures
            final(self)@ == old(self)@.with_error(),
    {
        self.error_count = self.error_count + 1;
    }
}

/// What a store holds, with each count as a number without an upper limit.
pub struct StoreModel {
    /// The status of the channel, if a channel state has been saved.
    pub channel_state: Option<ChannelStatus>,
    /// The tally, if a callback counter has been saved.
    pub callback_counter: Option<Tally>,
}

/// The two records of the controller, each of which may be absent until it
/// has been saved once. A handler reads the record it needs, changes it in
/// memory and saves it, or fails and leaves the store as it was.
#[derive(Clone, Copy, Debug, PartialEq, Eq, Structural)]
pub struct Store {
    pub channel_state: Option<ChannelState>,
    pub callback_counter: Option<CallbackCounter>,
}

impl View for Store {
    type V = StoreModel;

    open spec fn view(&self) -> StoreModel {
        StoreModel {
            channel_state: match self.channel_state {
                Some(state) => Some(state.status),
                None => None,
            },
            callback_counter: match self.callback_counter {
                Some(counter) => Some(counter@),
                None => None,
            },
        }
    }
}

impl Store {
    /// Whether the saved counter, if there is one, can count one more
    /// acknowledgement of either kind.
    pub open spec fn has_room(self) -> bool {
        self.callback_counter matches Some(counter) ==> counter.has_room()
    }

    /// A store in which nothing has been saved.
    pub fn new() -> (store: Store)
        ensures
            store.channel_state is None,
            store.callback_counter is None,
    {
        Store { channel_state: None, callback_counter: None }
    }

    /// Reads the channel state.
    pub fn load_channel_state(&self) -> (loaded: Result<ChannelState, ContractError>)
        ensures
            match self.channel_state {
                Some(state) => loaded == Ok::<ChannelState, ContractError>(state),
                None => loaded == Err::<ChannelState, ContractError>(
                    ContractError::Store(StoreError::ChannelStateNotFound),
                ),
            },
    {
        match self.channel_state {
            Some(state) => Ok(state),
            None => Err(ContractError::Store(StoreError::ChannelStateNotFound)),
        }
    }

    /// Writes the channel state over the one that was there, if any.
    pub fn save_channel_state(&mut self, state: ChannelState)
        ensures
            final(self).channel_state == Some(state),
            final(self).callback_counter == old(self).callback_counter,
    {
        self.channel_state = Some(state);
    }

    /// Reads the callback counter.
    pub fn load_callback_counter(&self) -> (loaded: Result<CallbackCounter, ContractError>)
        ensures
            match self.callback_counter {
                Some(counter) => loaded == Ok::<CallbackCounter, ContractError>(counter),
                None => loaded == Err::<CallbackCounter, ContractError>(
                    ContractError::Store(StoreError::CallbackCounterNotFound),
                ),
            },
    {
        match self.callback_counter {
            Some(counter) => Ok(counter),
            None => Err(ContractError::Store(StoreError::CallbackCounterNotFound)),
        }
    }

    /// Writes the callback counter over the one that was there, if any.
    pub fn save_callback_counter(&mut self, counter: CallbackCounter)
        ensures
            final(self).callback_counter == Some(counter),
            final(self).channel_state == old(self).channel_state,
    {
        self.callback_counter = Some(counter);
    }
}

} // verus!

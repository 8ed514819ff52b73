//! The state of a controller that keeps everything in one record.

use crate::types::error::{ContractError, StoreError};
use crate::types::state::ChannelStatus;
use vstd::prelude::*;

verus! {

/// The one record of the controller.
#[derive(Clone, Copy, Debug, PartialEq, Eq, Structural)]
pub struct ContractState {
    /// Whether packets may still be sent over the channel.
    pub channel_state: ChannelStatus,
}

impl ContractState {
    /// The record with the channel closed and everything else as it is.
    pub open spec fn closed(self) -> ContractState {
        ContractState { channel_state: ChannelStatus::Closed, ..self }
    }
}

/// The place of the record, which is empty until the record has been saved
/// once.
#[derive(Clone, Copy, Debug, PartialEq, Eq, Structural)]
pub struct StateStore {
    pub state: Option<ContractState>,
}

impl StateStore {
    /// A store in which nothing has been saved.
    pub fn new() -> (store: StateStore)
        ensures
            store.state is None,
    {
        StateStore { state: None }
    }

    /// Reads the record.
    pub fn load(&self) -> (loaded: Result<ContractState, ContractError>)
        ensures
            match self.state {
                Some(state) => loaded == Ok::<ContractState, ContractError>(state),
                None => loaded == Err::<ContractState, ContractError>(
                    ContractError::Store(StoreError::ContractStateNotFound),
                ),
            },
    {
        match self.state {
            Some(state) => Ok(state),
            None => Err(ContractError::Store(StoreError::ContractStateNotFound)),
        }
    }

    /// Writes the record over the one that was there, if any.
    pub fn save(&mut self, state: ContractState)
        ensures
            final(self).state == Some(state),
    {
        self.state = Some(state);
    }
}

} // verus!

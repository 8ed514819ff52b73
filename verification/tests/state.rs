use ica_controller::state::{ContractState, StateStore};
use ica_controller::types::error::{ContractError, StoreError};
use ica_controller::types::state::{CallbackCounter, ChannelState, ChannelStatus, Store};

#[test]
fn new_channel_state_is_open() {
    let state = ChannelState::new();
    assert_eq!(state.status(), ChannelStatus::Open);
    assert_eq!(state, ChannelState { status: ChannelStatus::Open });
}

#[test]
fn close_closes_an_open_channel() {
    let mut state = ChannelState::new();
    state.close();
    assert_eq!(state.status(), ChannelStatus::Closed);
}

#[test]
fn close_twice_is_close_once() {
    let mut once = ChannelState::new();
    once.close();
    let mut twice = ChannelState::new();
    twice.close();
    twice.close();
    assert_eq!(once, twice);
    assert_eq!(twice, ChannelState { status: ChannelStatus::Closed });
}

#[test]
fn new_counter_starts_at_zero() {
    let counter = CallbackCounter::new();
    assert_eq!(counter, CallbackCounter { success_count: 0, error_count: 0 });
}

#[test]
fn record_success_adds_one_success() {
    let mut counter = CallbackCounter { success_count: 4, error_count: 9 };
    counter.record_success();
    assert_eq!(counter, CallbackCounter { success_count: 5, error_count: 9 });
}

#[test]
fn record_error_adds_one_error() {
    let mut counter = CallbackCounter { success_count: 4, error_count: 9 };
    counter.record_error();
    assert_eq!(counter, CallbackCounter { success_count: 4, error_count: 10 });
}

#[test]
fn counts_reach_the_last_number() {
    let mut counter = CallbackCounter { success_count: u64::MAX - 1, error_count: u64::MAX - 1 };
    counter.record_success();
    counter.record_error();
    assert_eq!(counter, CallbackCounter { success_count: u64::MAX, error_count: u64::MAX });
}

#[test]
fn new_store_holds_nothing() {
    let store = Store::new();
    assert_eq!(store, Store { channel_state: None, callback_counter: None });
    assert!(matches!(
        store.load_channel_state(),
        Err(ContractError::Store(StoreError::ChannelStateNotFound))
    ));
    assert!(matches!(
        store.load_callback_counter(),
        Err(ContractError::Store(StoreError::CallbackCounterNotFound))
    ));
}

#[test]
fn store_gives_back_what_was_saved() {
    let mut store = Store::new();
    let counter = CallbackCounter { success_count: 2, error_count: 3 };
    store.save_callback_counter(counter);
    assert!(matches!(store.load_callback_counter(), Ok(loaded) if loaded == counter));
    assert_eq!(store.channel_state, None);

    let mut state = ChannelState::new();
    state.close();
    store.save_channel_state(state);
    assert!(matches!(store.load_channel_state(), Ok(loaded) if loaded == state));
    assert_eq!(store.callback_counter, Some(counter));
}

#[test]
fn save_replaces_the_record() {
    let mut store = Store::new();
    store.save_callback_counter(CallbackCounter { success_count: 1, error_count: 1 });
    store.save_callback_counter(CallbackCounter { success_count: 7, error_count: 0 });
    assert_eq!(store.callback_counter, Some(CallbackCounter { success_count: 7, error_count: 0 }));
}

#[test]
fn state_store_loads_and_saves() {
    let mut store = StateStore::new();
    assert!(matches!(
        store.load(),
        Err(ContractError::Store(StoreError::ContractStateNotFound))
    ));
    let state = ContractState { channel_state: ChannelStatus::Open };
    store.save(state);
    assert!(matches!(store.load(), Ok(loaded) if loaded == state));
    assert_eq!(store, StateStore { state: Some(state) });
}

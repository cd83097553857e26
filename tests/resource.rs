use futures::executor::block_on;
use futures::FutureExt;
use game_engine::resource::{completion_channel, settle, LoadError};

#[test]
fn first_callback_wins_and_second_is_ignored() {
    let (mut slot, rx) = completion_channel();
    assert!(slot.is_live());
    assert!(slot.succeed());
    assert!(!slot.is_live());
    assert!(!slot.fail("late error".to_string()));
    assert_eq!(settle(block_on(rx)), Ok(()));
}

#[test]
fn failure_first_is_what_is_received() {
    let (mut slot, rx) = completion_channel();
    assert!(slot.fail("404 not found".to_string()));
    assert!(!slot.succeed());
    assert_eq!(settle(block_on(rx)), Err(LoadError::Failed("404 not found".to_string())));
}

#[test]
fn slot_never_fired_leaves_receiver_waiting() {
    let (slot, mut rx) = completion_channel();
    assert!((&mut rx).now_or_never().is_none());
    assert!(slot.is_live());
}

#[test]
fn dropped_sender_reads_as_canceled() {
    let (slot, rx) = completion_channel();
    drop(slot);
    assert_eq!(settle(block_on(rx)), Err(LoadError::Canceled));
}

#[test]
fn firing_after_receiver_is_gone_still_empties_slot() {
    let (mut slot, rx) = completion_channel();
    drop(rx);
    assert!(slot.succeed());
    assert!(!slot.is_live());
}

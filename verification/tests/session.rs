use clipboard_watch::session::{start_session, ShutdownSlot, WatchError};

#[test]
fn failed_acquisition_is_the_one_start_error() {
    // Without the OS change source there is no session to run.
    let outcome = start_session(None);
    assert!(matches!(outcome, Err(WatchError::SourceUnavailable)));
}

#[test]
fn first_take_wins() {
    let mut slot = ShutdownSlot::new(42u32);
    assert!(slot.is_armed());
    assert_eq!(slot.take_signal(), Some(42u32));
    assert!(!slot.is_armed());
}

#[test]
fn second_take_comes_back_empty() {
    let mut slot = ShutdownSlot::new(7u32);
    assert_eq!(slot.take_signal(), Some(7u32));
    assert_eq!(slot.take_signal(), None);
    assert_eq!(slot.take_signal(), None);
    assert!(!slot.is_armed());
}

#[test]
fn double_stop_is_a_quiet_no_op() {
    // The stop protocol on the slot: the first drain consumes the signal,
    // every later drain sees the empty slot, nothing panics, and the session
    // reports not-running afterwards.
    let mut slot = ShutdownSlot::new(String::from("signal"));
    let mut sends: usize = 0;
    for _ in 0..2 {
        if slot.take_signal().is_some() {
            sends += 1;
        }
    }
    assert_eq!(sends, 1);
    assert!(!slot.is_armed());
}

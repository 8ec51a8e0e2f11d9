use clipboard_watch::watcher::{drive, watch_step, WatchAction, WatchEvent, WatchPhase};

#[test]
fn change_while_running_notifies() {
    let step = watch_step(WatchPhase::Running, WatchEvent::Changed);
    assert_eq!(step, (WatchPhase::Running, WatchAction::Notify));
}

#[test]
fn failed_wait_is_retried_not_fatal() {
    let step = watch_step(WatchPhase::Running, WatchEvent::WaitFailed);
    assert_eq!(step, (WatchPhase::Running, WatchAction::Retry));
}

#[test]
fn shutdown_ends_the_loop() {
    let step = watch_step(WatchPhase::Running, WatchEvent::ShutdownRequested);
    assert_eq!(step, (WatchPhase::Stopped, WatchAction::Exit));
}

#[test]
fn stopped_session_never_notifies_again() {
    for event in [
        WatchEvent::Changed,
        WatchEvent::ShutdownRequested,
        WatchEvent::WaitFailed,
    ] {
        let step = watch_step(WatchPhase::Stopped, event);
        assert_eq!(step, (WatchPhase::Stopped, WatchAction::Exit));
    }
}

#[test]
fn run_notifies_per_change_until_shutdown() {
    let events = vec![
        WatchEvent::Changed,
        WatchEvent::WaitFailed,
        WatchEvent::Changed,
        WatchEvent::ShutdownRequested,
        WatchEvent::Changed,
    ];
    let actions = drive(WatchPhase::Running, &events);
    assert_eq!(
        actions,
        vec![
            WatchAction::Notify,
            WatchAction::Retry,
            WatchAction::Notify,
            WatchAction::Exit,
            WatchAction::Exit,
        ]
    );
}

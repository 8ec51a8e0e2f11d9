//! The watcher loop's decision table: what one loop iteration does with each
//! observation, and what whole runs of the loop guarantee.
//!
//! The loop itself blocks on the OS change source and the shutdown channel,
//! so it runs outside this crate; each iteration reports what it observed as
//! a [`WatchEvent`] and obeys the [`WatchAction`] decided here.

use vstd::prelude::*;

verus! {

/// What the watcher loop observed in one iteration: a clipboard change, the
/// session's shutdown signal, or a transient failure of the wait itself.
#[derive(Clone, Copy, Debug, PartialEq, Eq, Structural)]
pub enum WatchEvent {
    Changed,
    ShutdownRequested,
    WaitFailed,
}

/// Lifecycle phase of one watch session as the loop sees it.
#[derive(Clone, Copy, Debug, PartialEq, Eq, Structural)]
pub enum WatchPhase {
    Running,
    Stopped,
}

/// What the loop must do after an observation: hand a change notification to
/// the bridge and keep looping, retry the wait without notifying anyone, or
/// release the change source and exit.
#[derive(Clone, Copy, Debug, PartialEq, Eq, Structural)]
pub enum WatchAction {
    Notify,
    Retry,
    Exit,
}

/// The decision table of one loop iteration: a change is delivered and the
/// loop continues; a failed wait is retried, never fatal; the shutdown signal
/// ends the session; and a stopped session never comes back or notifies.
pub open spec fn spec_watch_step(phase: WatchPhase, event: WatchEvent) -> (WatchPhase, WatchAction) {
    match (phase, event) {
        (WatchPhase::Running, WatchEvent::Changed) => (WatchPhase::Running, WatchAction::Notify),
        (WatchPhase::Running, WatchEvent::WaitFailed) => (WatchPhase::Running, WatchAction::Retry),
        (WatchPhase::Running, WatchEvent::ShutdownRequested) => (
            WatchPhase::Stopped,
            WatchAction::Exit,
        ),
        (WatchPhase::Stopped, _) => (WatchPhase::Stopped, WatchAction::Exit),
    }
}

/// One iteration's decision, exactly as [`spec_watch_step`] lays it down.
pub fn watch_step(phase: WatchPhase, event: WatchEvent) -> (step: (WatchPhase, WatchAction))
    ensures
        step == spec_watch_step(phase, event),
{
    match (phase, event) {
        (WatchPhase::Running, WatchEvent::Changed) => (WatchPhase::Running, WatchAction::Notify),
        (WatchPhase::Running, WatchEvent::WaitFailed) => (WatchPhase::Running, WatchAction::Retry),
        (WatchPhase::Running, WatchEvent::ShutdownRequested) => (
            WatchPhase::Stopped,
            WatchAction::Exit,
        ),
        (WatchPhase::Stopped, _) => (WatchPhase::Stopped, WatchAction::Exit),
    }
}

/// The actions a whole run of the loop takes on a sequence of observations,
/// starting from the given phase: one action per observation, each fed by the
/// phase the previous iteration left behind.
pub open spec fn spec_run(phase: WatchPhase, events: Seq<WatchEvent>) -> Seq<WatchAction>
    decreases events.len(),
{
    if events.len() == 0 {
        Seq::empty()
    } else {
        let step = spec_watch_step(phase, events[0]);
        seq![step.1] + spec_run(step.0, events.drop_first())
    }
}

/// A run decides exactly one action per observation.
pub proof fn lemma_run_len(phase: WatchPhase, events: Seq<WatchEvent>)
    ensures
        spec_run(phase, events).len() == events.len(),
    decreases events.len(),
{
    if events.len() > 0 {
        lemma_run_len(spec_watch_step(phase, events[0]).0, events.drop_first());
    }
}

/// A notification is decided only by a clipboard change observed while the
/// session is running; in particular a stopped session never notifies, and
/// the notification at position `i` answers exactly the change at position
/// `i`, so notifications come out in observation order.
pub proof fn lemma_notify_only_for_changes(phase: WatchPhase, events: Seq<WatchEvent>, i: int)
    requires
        0 <= i < events.len(),
    ensures
        spec_run(phase, events).len() == events.len(),
        spec_run(phase, events)[i] is Notify ==> events[i] is Changed,
        phase is Stopped ==> spec_run(phase, events)[i] is Exit,
    decreases events.len(),
{
    lemma_run_len(phase, events);
    let step = spec_watch_step(phase, events[0]);
    lemma_run_len(step.0, events.drop_first());
    if i > 0 {
        lemma_notify_only_for_changes(step.0, events.drop_first(), i - 1);
    }
}

/// No notification after shutdown: once the loop has observed the shutdown
/// signal, no later observation produces a notification.
pub proof fn lemma_no_notify_after_shutdown(
    phase: WatchPhase,
    events: Seq<WatchEvent>,
    i: int,
    j: int,
)
    requires
        0 <= i < j < events.len(),
        events[i] is ShutdownRequested,
    ensures
        spec_run(phase, events).len() == events.len(),
        !(spec_run(phase, events)[j] is Notify),
    decreases events.len(),
{
    lemma_run_len(phase, events);
    let step = spec_watch_step(phase, events[0]);
    lemma_run_len(step.0, events.drop_first());
    if i == 0 {
        lemma_notify_only_for_changes(step.0, events.drop_first(), j - 1);
        assert(step.0 is Stopped);
    } else {
        lemma_no_notify_after_shutdown(step.0, events.drop_first(), i - 1, j - 1);
    }
}

/// Decide a whole run at once: feed each observation to the decision table,
/// threading the phase through, and collect the actions.  The result is
/// exactly what [`spec_run`] lays down, so every law proved about runs holds
/// of it.
pub fn drive(phase: WatchPhase, events: &Vec<WatchEvent>) -> (actions: Vec<WatchAction>)
    ensures
        actions@ == spec_run(phase, events@),
{
    let mut actions: Vec<WatchAction> = Vec::new();
    let mut cur = phase;
    let mut i: usize = 0;
    proof {
        assert(events@.skip(0) =~= events@);
        assert(actions@ + spec_run(cur, events@) =~= spec_run(phase, events@));
    }
    while i < events.len()
        invariant
            0 <= i <= events@.len(),
            actions@ + spec_run(cur, events@.skip(i as int)) == spec_run(phase, events@),
        decreases events@.len() - i,
    {
        let ghost prev = cur;
        let ghost done = actions@;
        let step = watch_step(cur, events[i]);
        cur = step.0;
        actions.push(step.1);
        i = i + 1;
        proof {
            let rest = events@.skip(i as int - 1);
            assert(rest[0] == events@[i as int - 1]);
            assert(rest.drop_first() =~= events@.skip(i as int));
            assert(spec_run(prev, rest) == seq![step.1] + spec_run(cur, events@.skip(i as int)));
            assert(done + (seq![step.1] + spec_run(cur, events@.skip(i as int))) =~= actions@
                + spec_run(cur, events@.skip(i as int)));
        }
    }
    proof {
        assert(events@.skip(events@.len() as int) =~= Seq::<WatchEvent>::empty());
        assert(actions@ + spec_run(cur, events@.skip(events@.len() as int)) =~= actions@);
    }
    actions
}

/// A stopped session never returns to the running phase, whatever else the
/// loop observes.
pub proof fn lemma_stopped_is_final(phase: WatchPhase, event: WatchEvent)
    ensures
        phase is Stopped ==> spec_watch_step(phase, event).0 is Stopped,
{
}

} // verus!

//! One watch session's shutdown protocol: a one-shot signal slot and the
//! caller-side handle built on it.

use vstd::prelude::*;

verus! {

/// One-shot slot holding the shutdown signal of a watch session.
///
/// The slot is the only state shared between the caller-side handle and the
/// running watcher: it owns the session's shutdown sender until the first
/// `take_signal`, after which it stays empty forever, so at most one caller
/// ever receives the signal.
pub struct ShutdownSlot<S> {
    signal: Option<S>,
}

impl<S> ShutdownSlot<S> {
    /// True while the one-shot signal has not been consumed yet.
    pub closed spec fn armed(self) -> bool {
        self.signal is Some
    }

    /// The signal still held by the slot, if any.
    pub closed spec fn held(self) -> Option<S> {
        self.signal
    }

    /// A fresh slot owning the session's shutdown signal.
    pub fn new(signal: S) -> (slot: Self)
        ensures
            slot.armed(),
            slot.held() == Some(signal),
    {
        ShutdownSlot { signal: Some(signal) }
    }

    /// Hand out the signal: the first call returns it and empties the slot;
    /// every later call finds the slot empty and returns nothing.
    pub fn take_signal(&mut self) -> (taken: Option<S>)
        ensures
            take_transition(*old(self), *final(self), taken),
            taken is Some <==> old(self).armed(),
    {
        self.signal.take()
    }

    /// Whether the signal is still unconsumed, i.e. the session still counts
    /// as running from the caller's point of view.
    pub fn is_armed(&self) -> (armed: bool)
        ensures
            armed == self.armed(),
    {
        self.signal.is_some()
    }
}

/// How one `take_signal` call relates the slot before and after: the caller
/// receives exactly what the slot held, and the slot is empty afterwards.
pub open spec fn take_transition<S>(
    pre: ShutdownSlot<S>,
    post: ShutdownSlot<S>,
    taken: Option<S>,
) -> bool {
    &&& taken == pre.held()
    &&& post.held() is None
    &&& !post.armed()
}

/// `clipboard_rs::WatcherShutdown` is the sending end of the one-shot channel
/// a clipboard watcher loop selects on; it is opaque here and carried through
/// the slot untouched.
#[verifier::external_type_specification]
#[verifier::external_body]
pub struct ExWatcherShutdown(clipboard_rs::WatcherShutdown);

/// Relies on `clipboard_rs::WatcherShutdown::stop`: consuming the sender
/// delivers the one-shot stop signal to the watcher loop that owns the
/// receiving end.
#[verifier::external_body]
fn send_shutdown(signal: clipboard_rs::WatcherShutdown) {
    signal.stop()
}

/// Caller-side handle over one running watch session.
///
/// The handle owns the session's shutdown slot; `stop` consumes the one-shot
/// signal on its first call and is a no-op afterwards, and `is_running`
/// reports whether the signal is still unconsumed.  The count of signals
/// actually sent is tracked in ghost state so the one-shot guarantee can be
/// stated and proved.
pub struct WatcherHandle {
    slot: ShutdownSlot<clipboard_rs::WatcherShutdown>,
    signals_sent: Ghost<nat>,
}

impl WatcherHandle {
    /// True while `stop` has not consumed the shutdown signal yet.
    pub closed spec fn running(self) -> bool {
        self.slot.armed()
    }

    /// How many shutdown signals this handle has sent so far.
    pub closed spec fn sent(self) -> nat {
        self.signals_sent@
    }

    /// Wrap a session's freshly created shutdown sender: the session starts
    /// in the running state with no signal sent.
    pub fn new(signal: clipboard_rs::WatcherShutdown) -> (handle: Self)
        ensures
            handle.running(),
            handle.sent() == 0,
    {
        WatcherHandle { slot: ShutdownSlot::new(signal), signals_sent: Ghost(0nat) }
    }

    /// Stop the session: the first call consumes the one-shot signal and
    /// sends it; every later call finds the slot empty and does nothing.
    pub fn stop(&mut self)
        ensures
            stop_transition(*old(self), *final(self)),
    {
        match self.slot.take_signal() {
            Some(signal) => {
                proof {
                    self.signals_sent@ = self.signals_sent@ + 1;
                }
                send_shutdown(signal);
            },
            None => {},
        }
    }

    /// Whether `stop` has consumed the shutdown signal yet.  Advisory: it
    /// reflects the state of the slot, not whether the watcher loop has
    /// already wound down.
    pub fn is_running(&self) -> (running: bool)
        ensures
            running == self.running(),
    {
        self.slot.is_armed()
    }
}

/// Why a watch session could not be started.
#[derive(Clone, Copy, Debug, PartialEq, Eq, Structural)]
pub enum WatchError {
    /// The OS change source could not be acquired; no watcher is running.
    SourceUnavailable,
}

/// Decide the outcome of starting a watch session from the outcome of
/// acquiring the OS change source: acquisition failure is the one and only
/// error, surfaced synchronously with no session left behind; otherwise the
/// session starts running with its one-shot shutdown slot armed.
pub fn start_session(acquired: Option<clipboard_rs::WatcherShutdown>) -> (session: Result<
    WatcherHandle,
    WatchError,
>)
    ensures
        session is Ok <==> acquired is Some,
        session matches Ok(handle) ==> handle.running() && handle.sent() == 0,
        session matches Err(error) ==> error == WatchError::SourceUnavailable,
{
    match acquired {
        Some(signal) => Ok(WatcherHandle::new(signal)),
        None => Err(WatchError::SourceUnavailable),
    }
}

/// How one `stop` call relates the handle before and after: the handle ends
/// up stopped, and a signal goes out exactly when the handle was still
/// running.
pub open spec fn stop_transition(pre: WatcherHandle, post: WatcherHandle) -> bool {
    &&& !post.running()
    &&& post.sent() == pre.sent() + (if pre.running() {
        1nat
    } else {
        0nat
    })
}

/// Idempotent stop: starting from a running handle that has sent nothing,
/// any number of consecutive `stop` calls sends exactly one shutdown signal,
/// and the handle reports not-running from the first call on.
pub proof fn lemma_stop_idempotent(handles: Seq<WatcherHandle>)
    requires
        handles.len() >= 2,
        handles[0].running(),
        handles[0].sent() == 0,
        forall|i: int|
            0 <= i < handles.len() - 1 ==> stop_transition(#[trigger] handles[i], handles[i + 1]),
    ensures
        forall|i: int|
            1 <= i < handles.len() ==> !(#[trigger] handles[i]).running() && handles[i].sent()
                == 1,
{
    assert forall|i: int|
        1 <= i < handles.len() implies !(#[trigger] handles[i]).running() && handles[i].sent()
        == 1 by {
        lemma_stop_chain(handles, i);
    }
}

/// Helper for [`lemma_stop_idempotent`]: the state after the `i`-th stop in a
/// chain from a fresh running handle.
proof fn lemma_stop_chain(handles: Seq<WatcherHandle>, i: int)
    requires
        handles.len() >= 2,
        handles[0].running(),
        handles[0].sent() == 0,
        forall|j: int|
            0 <= j < handles.len() - 1 ==> stop_transition(#[trigger] handles[j], handles[j + 1]),
        1 <= i < handles.len(),
    ensures
        !handles[i].running(),
        handles[i].sent() == 1,
    decreases i,
{
    if i == 1 {
        assert(stop_transition(handles[0], handles[1]));
    } else {
        lemma_stop_chain(handles, i - 1);
        assert(stop_transition(handles[i - 1], handles[i]));
    }
}

/// Race-safe consumption: however many times the slot is drained in turn,
/// only the very first drain can receive the signal; every later one comes
/// back empty.
pub proof fn lemma_at_most_one_take_wins<S>(
    slots: Seq<ShutdownSlot<S>>,
    takes: Seq<Option<S>>,
)
    requires
        slots.len() == takes.len() + 1,
        forall|i: int|
            0 <= i < takes.len() ==> take_transition(#[trigger] slots[i], slots[i + 1], takes[i]),
    ensures
        forall|i: int| 1 <= i < takes.len() ==> #[trigger] takes[i] is None,
        takes.len() >= 1 && slots[0].armed() ==> takes[0] is Some,
{
    assert forall|i: int| 1 <= i < takes.len() implies #[trigger] takes[i] is None by {
        assert(take_transition(slots[i - 1], slots[i], takes[i - 1]));
        assert(take_transition(slots[i], slots[i + 1], takes[i]));
    }
}

} // verus!

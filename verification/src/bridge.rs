//! The notification bridge: carries "clipboard changed" events from the
//! watcher loop into the caller's context, order-preserving and without ever
//! making the producer wait on the consumer.
//!
//! Change events carry no payload, so the bridge stamps each one with its
//! production rank; delivery hands the stamps out strictly in that order.
//! Everything ever delivered is tracked in ghost state so the ordering
//! guarantee can be stated over whole histories, not just single calls.

use std::collections::VecDeque;
use vstd::prelude::*;

verus! {

use crate::watcher::WatchAction;

/// Queue between the watcher loop (producer side) and the caller's callback
/// (consumer side).  `pending` holds the stamps produced but not delivered
/// yet, oldest first; `next_stamp` is the rank the next change will get;
/// `delivered` records, in ghost state, every stamp already handed out.
pub struct NotificationBridge {
    next_stamp: u64,
    pending: VecDeque<u64>,
    delivered: Ghost<Seq<u64>>,
}

impl NotificationBridge {
    /// Stamps produced but not delivered yet, oldest first.
    pub closed spec fn pending_seq(self) -> Seq<u64> {
        self.pending@
    }

    /// Stamps already handed to the caller's callback, in delivery order.
    pub closed spec fn delivered_seq(self) -> Seq<u64> {
        self.delivered@
    }

    /// How many change events the watcher loop has pushed in so far; also the
    /// stamp the next one will get.
    pub closed spec fn produced(self) -> nat {
        self.next_stamp as nat
    }

    /// Everything the bridge has ever accepted, in production order: first
    /// what was delivered, then what still waits.
    pub open spec fn history(self) -> Seq<u64> {
        self.delivered_seq() + self.pending_seq()
    }

    /// The bridge loses nothing and invents nothing: its history is exactly
    /// the stamps `0, 1, ...` up to the number of events produced, in order.
    pub open spec fn wf(self) -> bool {
        self.history() == Seq::new(self.produced(), |i: int| i as u64)
    }

    /// A fresh bridge: nothing produced, nothing pending, nothing delivered.
    pub fn new() -> (bridge: Self)
        ensures
            bridge.wf(),
            bridge.produced() == 0,
            bridge.pending_seq().len() == 0,
            bridge.delivered_seq().len() == 0,
    {
        let bridge = NotificationBridge {
            next_stamp: 0,
            pending: VecDeque::new(),
            delivered: Ghost(Seq::empty()),
        };
        proof {
            assert(bridge.history() =~= Seq::new(0, |i: int| i as u64));
        }
        bridge
    }

    /// Producer side, called by the watcher loop once per observed change:
    /// enqueue the next stamp and return it.  The call is total on every
    /// reachable bridge and never touches the consumer side, so a slow or
    /// stalled consumer cannot hold the producer up.
    pub fn notify_change(&mut self) -> (stamp: u64)
        requires
            old(self).wf(),
            old(self).produced() < u64::MAX,
        ensures
            final(self).wf(),
            stamp == old(self).produced(),
            final(self).produced() == old(self).produced() + 1,
            final(self).pending_seq() == old(self).pending_seq().push(stamp),
            final(self).delivered_seq() == old(self).delivered_seq(),
    {
        let stamp: u64 = self.next_stamp;
        self.pending.push_back(stamp);
        self.next_stamp = self.next_stamp + 1;
        proof {
            assert(self.history() =~= old(self).history().push(stamp));
            assert(Seq::new(self.produced(), |i: int| i as u64) =~= Seq::new(
                old(self).produced(),
                |i: int| i as u64,
            ).push(stamp));
        }
        stamp
    }

    /// Consumer side, called in the caller's context: hand out the oldest
    /// undelivered stamp, or nothing when the queue is empty.
    pub fn next_delivery(&mut self) -> (stamp: Option<u64>)
        requires
            old(self).wf(),
        ensures
            final(self).wf(),
            final(self).produced() == old(self).produced(),
            old(self).pending_seq().len() == 0 ==> {
                &&& stamp is None
                &&& final(self).pending_seq() == old(self).pending_seq()
                &&& final(self).delivered_seq() == old(self).delivered_seq()
            },
            old(self).pending_seq().len() > 0 ==> {
                &&& stamp == Some(old(self).pending_seq()[0])
                &&& final(self).pending_seq() == old(self).pending_seq().drop_first()
                &&& final(self).delivered_seq() == old(self).delivered_seq().push(
                    old(self).pending_seq()[0],
                )
            },
    {
        match self.pending.pop_front() {
            None => None,
            Some(stamp) => {
                proof {
                    self.delivered@ = self.delivered@.push(stamp);
                    assert(self.history() =~= old(self).history());
                }
                Some(stamp)
            },
        }
    }

    /// How many change events have been pushed in so far.
    pub fn produced_count(&self) -> (count: u64)
        ensures
            count == self.produced(),
    {
        self.next_stamp
    }

    /// How many produced changes still wait for delivery.
    pub fn pending_count(&self) -> (count: usize)
        ensures
            count == self.pending_seq().len(),
    {
        self.pending.len()
    }
}

/// How many of a run's decided actions are notifications.
pub open spec fn count_notifies(actions: Seq<WatchAction>) -> nat
    decreases actions.len(),
{
    if actions.len() == 0 {
        0
    } else {
        (if actions[0] is Notify {
            1nat
        } else {
            0nat
        }) + count_notifies(actions.drop_first())
    }
}

/// Producer side of a whole run: walk the actions a run of the watcher loop
/// decided, in order, and stamp one change event into the bridge for each
/// notification among them — nothing for retries or the exit.  Exactly
/// [`count_notifies`] events are produced, and the consumer side is never
/// touched.
pub fn stamp_notifications(
    actions: &Vec<WatchAction>,
    bridge: &mut NotificationBridge,
)
    requires
        old(bridge).wf(),
        old(bridge).produced() + actions@.len() <= u64::MAX,
    ensures
        final(bridge).wf(),
        final(bridge).produced() == old(bridge).produced() + count_notifies(actions@),
        final(bridge).delivered_seq() == old(bridge).delivered_seq(),
{
    let mut i: usize = 0;
    proof {
        assert(actions@.skip(0) =~= actions@);
    }
    while i < actions.len()
        invariant
            0 <= i <= actions@.len(),
            bridge.wf(),
            bridge.delivered_seq() == old(bridge).delivered_seq(),
            bridge.produced() <= old(bridge).produced() + i,
            old(bridge).produced() + actions@.len() <= u64::MAX,
            bridge.produced() + count_notifies(actions@.skip(i as int)) == old(bridge).produced()
                + count_notifies(actions@),
        decreases actions@.len() - i,
    {
        let ghost rest = actions@.skip(i as int);
        proof {
            assert(rest[0] == actions@[i as int]);
            assert(rest.drop_first() =~= actions@.skip(i as int + 1));
        }
        match actions[i] {
            WatchAction::Notify => {
                bridge.notify_change();
            },
            WatchAction::Retry => {},
            WatchAction::Exit => {},
        }
        i = i + 1;
    }
    proof {
        assert(actions@.skip(actions@.len() as int) =~= Seq::<WatchAction>::empty());
    }
}

/// The transform a payload goes through as it is handed into the caller's
/// context: the callback receives the value plus one.
pub fn payload_into_caller(value: u32) -> (bumped: u32)
    requires
        value < u32::MAX,
    ensures
        bumped == value + 1,
{
    value + 1
}

/// Ordered delivery: on a well-formed bridge the callback has received the
/// stamps in strictly increasing production order, and only stamps that were
/// actually produced.
pub proof fn lemma_ordered_delivery(bridge: NotificationBridge, i: int, j: int)
    requires
        bridge.wf(),
        0 <= i < j < bridge.delivered_seq().len(),
    ensures
        bridge.delivered_seq()[i] < bridge.delivered_seq()[j],
        bridge.delivered_seq()[j] < bridge.produced(),
{
    let ideal = Seq::new(bridge.produced(), |k: int| k as u64);
    assert(bridge.history().len() == bridge.delivered_seq().len() + bridge.pending_seq().len());
    assert(bridge.history().len() == ideal.len());
    assert(bridge.history()[i] == bridge.delivered_seq()[i]);
    assert(bridge.history()[j] == bridge.delivered_seq()[j]);
    assert(ideal[i] == i as u64);
    assert(ideal[j] == j as u64);
}

/// Nothing still queued was produced before anything already delivered: every
/// pending stamp is newer than every delivered one, so draining the queue can
/// never reorder deliveries.
pub proof fn lemma_pending_follows_delivered(bridge: NotificationBridge, i: int, j: int)
    requires
        bridge.wf(),
        0 <= i < bridge.delivered_seq().len(),
        0 <= j < bridge.pending_seq().len(),
    ensures
        bridge.delivered_seq()[i] < bridge.pending_seq()[j],
{
    let ideal = Seq::new(bridge.produced(), |k: int| k as u64);
    assert(bridge.history().len() == bridge.delivered_seq().len() + bridge.pending_seq().len());
    assert(bridge.history().len() == ideal.len());
    let pj: int = bridge.delivered_seq().len() + j;
    assert(bridge.history()[i] == bridge.delivered_seq()[i]);
    assert(bridge.history()[pj] == bridge.pending_seq()[j]);
    assert(ideal[i] == i as u64);
    assert(ideal[pj] == pj as u64);
}

} // verus!

//! Wake Bridge: a bounded, coalescing notification channel of capacity one.
//!
//! The producer (the engine's background activity) signals "there are pending
//! internal events"; the consumer (the render state machine) polls for that
//! signal at its sole suspension point.  Because a pending signal already
//! guarantees a future re-poll, duplicate signals add no information and are
//! coalesced: `send` never blocks and never grows a queue.

use vstd::prelude::*;

verus! {

/// What the consumer observes when it polls the bridge.
#[derive(Clone, Copy, Debug, PartialEq, Eq, Structural)]
pub enum WakePoll {
    /// A signal was pending; it has been consumed.
    Signal,
    /// No signal is pending and the producer side is still open.
    Empty,
    /// No signal is pending and the producer side is permanently gone.
    Closed,
}

/// Single-producer, single-consumer notification channel with buffer
/// capacity one.  A pending signal coalesces with any further signals;
/// closure is permanent and is reported to the consumer only once all
/// pending signals have been drained.
pub struct WakeBridge {
    pending: bool,
    closed: bool,
}

impl WakeBridge {
    /// Whether an unconsumed signal sits in the one-slot buffer.
    pub closed spec fn is_pending(&self) -> bool {
        self.pending
    }

    /// Whether the producer side is permanently gone.
    pub closed spec fn is_closed(&self) -> bool {
        self.closed
    }

    /// A fresh bridge: open, with no pending signal.
    pub fn new() -> (bridge: WakeBridge)
        ensures
            !bridge.is_pending(),
            !bridge.is_closed(),
    {
        WakeBridge { pending: false, closed: false }
    }

    /// Producer side: deposit a signal.  Never blocks; if a signal is already
    /// pending the new one is dropped (coalescing).  Only a live producer can
    /// send, so the bridge must still be open.
    pub fn send(&mut self)
        requires
            !old(self).is_closed(),
        ensures
            final(self).is_pending(),
            !final(self).is_closed(),
    {
        self.pending = true;
    }

    /// Producer side: the producer is going away for good.  Any still-pending
    /// signal remains observable to the consumer before closure is reported.
    pub fn close(&mut self)
        ensures
            final(self).is_closed(),
            final(self).is_pending() == old(self).is_pending(),
    {
        self.closed = true;
    }

    /// Consumer side: poll for a signal.  Consumes the pending signal if one
    /// is there; otherwise reports closure or emptiness.
    pub fn poll(&mut self) -> (observed: WakePoll)
        ensures
            old(self).is_pending() ==> observed == WakePoll::Signal
                && !final(self).is_pending()
                && final(self).is_closed() == old(self).is_closed(),
            !old(self).is_pending() && old(self).is_closed() ==> observed == WakePoll::Closed
                && *final(self) == *old(self),
            !old(self).is_pending() && !old(self).is_closed() ==> observed == WakePoll::Empty
                && *final(self) == *old(self),
    {
        if self.pending {
            self.pending = false;
            WakePoll::Signal
        } else if self.closed {
            WakePoll::Closed
        } else {
            WakePoll::Empty
        }
    }
}

/// The bridge state after one producer signal, as `send` leaves it.
pub closed spec fn bridge_after_send(bridge: WakeBridge) -> WakeBridge {
    WakeBridge { pending: true, ..bridge }
}

/// The bridge state after `count` consecutive producer signals with no
/// intervening poll.
pub closed spec fn bridge_after_sends(bridge: WakeBridge, count: nat) -> WakeBridge
    decreases count,
{
    if count == 0 {
        bridge
    } else {
        bridge_after_send(bridge_after_sends(bridge, (count - 1) as nat))
    }
}

/// Law: sending any burst of signals before the consumer polls never blocks
/// the producer — `send` is total, and a burst of any length leaves the
/// bridge exactly as a single signal would — and the consumer is then
/// guaranteed to observe a wake: the bridge holds a pending signal.
pub proof fn lemma_sends_coalesce_and_wake(bridge: WakeBridge, count: nat)
    requires
        count >= 1,
    ensures
        bridge_after_sends(bridge, count) == bridge_after_send(bridge),
        bridge_after_sends(bridge, count).is_pending(),
    decreases count,
{
    if count == 1 {
        assert(bridge_after_sends(bridge, 0) == bridge);
        assert(bridge_after_sends(bridge, 1) == bridge_after_send(bridge));
    } else {
        lemma_sends_coalesce_and_wake(bridge, (count - 1) as nat);
        assert(bridge_after_send(bridge_after_send(bridge)) == bridge_after_send(bridge));
    }
}

/// `send` agrees with the spec-level `bridge_after_send`, so the law above
/// speaks about the executable bridge.
pub proof fn lemma_send_matches_spec(pre: WakeBridge, post: WakeBridge)
    requires
        !pre.is_closed(),
        post.is_pending(),
        !post.is_closed(),
    ensures
        post == bridge_after_send(pre),
{
}

} // verus!

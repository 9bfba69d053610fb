//! The alarm client capability: the single listener a timer notifies when
//! its one-shot alarm fires.

use vstd::prelude::*;

verus! {

/// A callback target for the one-shot alarm.
///
/// The timer delivers the fired notification synchronously from interrupt
/// context, so implementors must keep `fired` non-blocking and bounded. Each
/// call of `fired` counts as exactly one notification received.
pub trait AlarmClient {
    /// How many fired notifications this client has received.
    spec fn notified(&self) -> nat;

    /// Receive one alarm-fired notification. Carries no payload.
    fn fired(&mut self)
        ensures
            final(self).notified() == old(self).notified() + 1,
    ;
}

/// An alarm client that counts the notifications it receives.
///
/// The visible counter saturates at the maximum rather than wrap, so a read
/// of `fires` never understates a small number of notifications.
pub struct CountingClient {
    /// Caller-chosen identifier; notifications never change it.
    pub id: u32,
    /// Notifications received, saturating at `u64::MAX`.
    pub fires: u64,
    /// The true notification count, which never saturates.
    pub total: Ghost<nat>,
}

impl CountingClient {
    /// The saturating counter agrees with the true notification count below
    /// the saturation point.
    pub open spec fn wf(self) -> bool {
        if self.total@ < u64::MAX {
            self.fires == self.total@
        } else {
            self.fires == u64::MAX
        }
    }

    /// A fresh client that has received no notifications.
    pub fn new(id: u32) -> (r: Self)
        ensures
            r.id == id,
            r.fires == 0,
            r.notified() == 0,
            r.wf(),
    {
        CountingClient { id, fires: 0, total: Ghost(0) }
    }
}

impl AlarmClient for CountingClient {
    open spec fn notified(&self) -> nat {
        self.total@
    }

    fn fired(&mut self)
        ensures
            final(self).id == old(self).id,
            old(self).wf() ==> final(self).wf(),
            old(self).fires < u64::MAX ==> final(self).fires == old(self).fires + 1,
            old(self).fires == u64::MAX ==> final(self).fires == u64::MAX,
    {
        if self.fires < u64::MAX {
            self.fires = self.fires + 1;
        }
        proof {
            self.total@ = self.total@ + 1;
        }
    }
}

} // verus!

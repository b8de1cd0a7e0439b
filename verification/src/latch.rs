//! The shutdown latch: a single-bit transition that many triggers may
//! fire and many readers may observe, but that only ever flips once.
//!
//! Signals, the hypervisor exit observer and internal fatal errors all
//! call `trip`; exactly the first call wins and its caller owns the
//! teardown. This type is the verified model of the latch; the driver
//! mirrors it with its own synchronized channel.

use vstd::prelude::*;

verus! {

/// A latch over the two states running (`false`) and shutting down
/// (`true`).
pub struct ShutdownLatch {
    tripped: bool,
}

impl ShutdownLatch {
    /// Whether the latch has been tripped.
    pub closed spec fn spec_tripped(&self) -> bool {
        self.tripped
    }

    /// A fresh latch: still running.
    pub fn new() -> (r: Self)
        ensures
            !r.spec_tripped(),
    {
        ShutdownLatch { tripped: false }
    }

    /// Observes the latch.
    pub fn is_tripped(&self) -> (r: bool)
        ensures
            r == self.spec_tripped(),
    {
        self.tripped
    }

    /// Fires the latch. The call that actually flips it — the first —
    /// returns `true` and with it the duty to run the teardown; every
    /// later call returns `false` and changes nothing.
    pub fn trip(&mut self) -> (won: bool)
        ensures
            final(self).spec_tripped(),
            won == !old(self).spec_tripped(),
    {
        let won = !self.tripped;
        self.tripped = true;
        won
    }
}

/// Single shutdown: however many triggers fire, exactly one wins.
///
/// `states` is the latch value before each trip and after the last;
/// `results` what each trip returned. Under the transition that `trip`
/// guarantees — the latch is set afterwards, and the caller wins
/// exactly when it was clear before — a latch that starts clear hands
/// the win to the first trip and to no other, so exactly one of any
/// number of triggers starts the teardown.
pub proof fn lemma_single_shutdown(results: Seq<bool>, states: Seq<bool>)
    requires
        states.len() == results.len() + 1,
        results.len() > 0,
        !states[0],
        forall|i: int| 0 <= i < results.len() ==> #[trigger] results[i] == !states[i],
        forall|i: int| 0 <= i < results.len() ==> #[trigger] states[i + 1],
    ensures
        results[0],
        forall|i: int| 1 <= i < results.len() ==> !(#[trigger] results[i]),
{
    assert forall|i: int| 1 <= i < results.len() implies !(#[trigger] results[i]) by {
        assert(states[(i - 1) + 1]);
    }
}

} // verus!

use vstd::prelude::*;

verus! {

/// What a reset leaves in the counter.
pub open spec fn reset_model(count: nat) -> nat {
    0
}

/// What one completed increment leaves in the counter.
pub open spec fn increment_model(count: nat) -> nat {
    count + 1
}

/// Shared iteration counter that lets the driving side verify how many
/// wakeups a worker has completed.
///
/// The counter starts at zero; a paced sequence worker advances it by one
/// immediately before each wakeup, and the observer reads or resets it.
/// This type is the counter's sequential semantics; the embedding realises
/// it as an atomic word with sequentially consistent ordering so that the
/// same transitions hold across threads. Resetting while workers are still
/// incrementing is the caller's responsibility to avoid.
pub struct BenchCoordinator {
    count: u64,
}

impl View for BenchCoordinator {
    type V = nat;

    closed spec fn view(&self) -> nat {
        self.count as nat
    }
}

impl BenchCoordinator {
    /// Creates a coordinator whose counter is zero.
    pub fn new() -> (c: Self)
        ensures
            c@ == 0,
    {
        BenchCoordinator { count: 0 }
    }

    /// Reads the counter.
    pub fn get_count(&self) -> (n: u64)
        ensures
            n as nat == self@,
    {
        self.count
    }

    /// Sets the counter back to zero.
    pub fn reset(&mut self)
        ensures
            final(self)@ == reset_model(old(self)@),
    {
        self.count = 0;
    }

    /// Advances the counter by one.
    pub fn increment(&mut self)
        requires
            old(self)@ < u64::MAX,
        ensures
            final(self)@ == increment_model(old(self)@),
    {
        self.count = self.count + 1;
    }
}

/// Law: a reset followed immediately by a read, with no worker running in
/// between, yields zero, whatever the counter held before.
pub proof fn lemma_reset_then_get(count: nat)
    ensures
        reset_model(count) == 0,
{
}

} // verus!

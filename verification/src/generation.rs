//! The capture generation: an epoch counter used as a cooperative cancellation token.
//!
//! A capture worker is handed a snapshot of the counter when it is started. The
//! controller advances the counter to cancel the worker; the worker compares its
//! snapshot with the live value and gives up once they differ.

use vstd::prelude::*;

verus! {

/// A monotonically increasing epoch counter.
pub struct CaptureGeneration {
    value: u64,
}

impl View for CaptureGeneration {
    type V = nat;

    closed spec fn view(&self) -> nat {
        self.value as nat
    }
}

impl CaptureGeneration {
    /// The counter of a fresh process: zero.
    pub fn new() -> (generation: CaptureGeneration)
        ensures
            generation@ == 0,
    {
        CaptureGeneration { value: 0 }
    }

    /// Every counter value fits in 64 bits.
    pub proof fn lemma_bounded(&self)
        ensures
            self@ <= u64::MAX,
    {
    }

    /// Reads the current value.
    pub fn snapshot(&self) -> (value: u64)
        ensures
            value == self@,
    {
        self.value
    }

    /// Moves to the next epoch. Every snapshot taken before the call is stale
    /// afterwards.
    pub fn advance(&mut self)
        requires
            old(self)@ < u64::MAX,
        ensures
            final(self)@ == old(self)@ + 1,
    {
        self.value = self.value + 1;
    }

    /// Whether a snapshot taken earlier still names the current epoch.
    pub fn is_current(&self, snapshot: u64) -> (current: bool)
        ensures
            current == (snapshot == self@),
    {
        self.value == snapshot
    }

    /// Whether the counter has reached its last value and cannot advance.
    pub fn is_exhausted(&self) -> (exhausted: bool)
        ensures
            exhausted == (self@ == u64::MAX),
    {
        self.value == u64::MAX
    }
}

} // verus!

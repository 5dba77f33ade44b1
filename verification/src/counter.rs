//! The shared progress counter: one writer, any number of readers, no lock.

use std::sync::atomic::AtomicBool;
use std::sync::atomic::AtomicU64;
use std::sync::atomic::Ordering;
use vstd::prelude::*;

verus! {

/// A byte count and a completion flag that a worker writes while observers
/// read them, each through one atomic operation.
pub struct ProgressCounter {
    transferred: AtomicU64,
    complete: AtomicBool,
}

impl ProgressCounter {
    /// A counter at zero bytes, not complete.
    pub fn new() -> ProgressCounter {
        ProgressCounter { transferred: AtomicU64::new(0), complete: AtomicBool::new(false) }
    }

    /// Adds one chunk's byte count to the counter.
    pub fn publish(&self, delta: u64) {
        self.transferred.fetch_add(delta, Ordering::Release);
    }

    /// Raises the completion flag.
    pub fn mark_complete(&self) {
        self.complete.store(true, Ordering::Release);
    }

    /// The byte count as of this read.
    pub fn read_transferred(&self) -> u64 {
        self.transferred.load(Ordering::Acquire)
    }

    /// The completion flag as of this read.
    pub fn read_complete(&self) -> bool {
        self.complete.load(Ordering::Acquire)
    }
}

} // verus!

//! A transfer whose total size is known in advance.

use std::ops::Deref;
use std::time::Duration;
use vstd::prelude::*;
use crate::clock::estimate_of;
use crate::clock::span_of_nanos;
use crate::metrics::eta_nanos;
use crate::metrics::eta_of;
use crate::metrics::fraction;
use crate::metrics::fraction_of;
use crate::metrics::remaining_bytes;
use crate::metrics::Fraction;
use crate::transfer::outcome_of;
use crate::transfer::Transfer;
use crate::transfer::TransferError;
use crate::transfer::WorkerExit;
use crate::worker::Worker;

verus! {

/// Monitors the progress of a transfer with a known size.
///
/// The size is the caller's word: it is not held against the stream. Where
/// the stream turns out longer, the bytes remaining stay at zero.
pub struct SizedTransfer {
    inner: Transfer,
    size: u64,
}

impl SizedTransfer {
    /// The size this transfer was declared with.
    pub closed spec fn declared_size(self) -> u64 {
        self.size
    }

    /// The plain transfer underneath.
    pub closed spec fn transfer(self) -> Transfer {
        self.inner
    }

    /// Creates a transfer of `size` bytes from `reader` to `writer`: the
    /// handle that observes it, and the worker that performs it.
    pub fn new<R, W>(reader: R, writer: W, size: u64) -> (started: (SizedTransfer, Worker<R, W>))
        ensures
            started.0.declared_size() == size,
            started.1.source() == reader,
            started.1.sink() == writer,
            started.1.counter() == started.0.transfer().counter(),
    {
        let (inner, worker) = Transfer::new(reader, writer);
        (SizedTransfer { inner, size }, worker)
    }

    /// Returns the total size of the transfer in bytes, as declared at its
    /// creation.
    pub fn size(&self) -> (size: u64)
        ensures
            size == self.declared_size(),
    {
        self.size
    }

    /// Returns the number of bytes remaining: the declared size less the bytes
    /// transferred, and zero where more than the declared size has been
    /// transferred.
    pub fn remaining(&self) -> (remaining: u64)
        ensures
            remaining <= self.declared_size(),
    {
        remaining_bytes(self.size, self.inner.transferred())
    }

    /// Consumes the handle and turns the way its worker ended into the
    /// transfer's outcome, as [`Transfer::finish`] does.
    pub fn finish<R, W>(self, exit: WorkerExit<R, W>) -> (outcome: Result<(R, W), TransferError>)
        ensures
            outcome == outcome_of(exit),
    {
        self.inner.finish(exit)
    }

    /// Returns the part of the transfer that is done, as a ratio of the bytes
    /// transferred to the declared size. Against a declared size of zero the
    /// ratio is one once the transfer is complete, and zero before.
    pub fn fraction_transferred(&self) -> (done: Fraction)
        ensures
            exists|transferred: u64, complete: bool|
                done.parts() == fraction_of(self.declared_size(), transferred, complete),
    {
        let complete = self.inner.is_complete();
        let transferred = self.inner.transferred();
        let done = fraction(self.size, transferred, complete);
        assert(done.parts() == fraction_of(self.declared_size(), transferred, complete));
        done
    }

    /// Returns the approximate time until this transfer completes, by linear
    /// extrapolation from its average rate so far. Returns `None` while no
    /// byte has been transferred, as there is no rate yet.
    ///
    /// Whatever count and whatever time the call reads, the result is the
    /// estimate for the declared size at that count and that time.
    pub fn eta(&self) -> (eta: Option<Duration>)
        ensures
            exists|transferred: u64, elapsed_nanos: u128|
                eta == estimate_of(eta_of(self.declared_size(), transferred, elapsed_nanos)),
    {
        let transferred = self.inner.transferred();
        let elapsed = self.inner.running_time();
        let elapsed_nanos = elapsed.as_nanos();
        let eta = match eta_nanos(self.size, transferred, elapsed_nanos) {
            Some(nanos) => Some(span_of_nanos(nanos)),
            None => None,
        };
        assert(eta == estimate_of(eta_of(self.declared_size(), transferred, elapsed_nanos)));
        eta
    }
}

impl Deref for SizedTransfer {
    type Target = Transfer;

    fn deref(&self) -> (inner: &Transfer)
        ensures
            *inner == self.transfer(),
    {
        &self.inner
    }
}

} // verus!

//! The handle that observes a transfer and collects its outcome.

use std::sync::Arc;
use std::time::Duration;
use std::time::Instant;
use vstd::prelude::*;
use crate::counter::ProgressCounter;
use crate::metrics::average_speed;
use crate::worker::Worker;

verus! {

/// How a worker ended.
pub enum WorkerExit<R, W> {
    /// It ran to its end and returned this outcome.
    Returned(Result<(R, W), std::io::Error>),
    /// It stopped on a fault of its own and returned nothing.
    Aborted,
}

/// Why a transfer gave nothing back.
#[derive(Debug)]
pub enum TransferError {
    /// The copy failed on this I/O error.
    Io(std::io::Error),
    /// The worker stopped on a fault of its own; source and sink are lost.
    WorkerAborted,
}

/// What `finish` reports for each way a worker can end.
pub open spec fn outcome_of<R, W>(exit: WorkerExit<R, W>) -> Result<(R, W), TransferError> {
    match exit {
        WorkerExit::Returned(Ok(ends)) => Ok(ends),
        WorkerExit::Returned(Err(error)) => Err(TransferError::Io(error)),
        WorkerExit::Aborted => Err(TransferError::WorkerAborted),
    }
}

/// Monitors the progress of a transfer from a reader to a writer.
pub struct Transfer {
    start_time: Instant,
    counter: Arc<ProgressCounter>,
}

impl Transfer {
    /// The counter this handle reads.
    pub closed spec fn counter(self) -> ProgressCounter {
        *self.counter
    }

    /// Creates a transfer from `reader` to `writer`: the handle that observes
    /// it, and the worker that performs it. The worker owns both streams. The
    /// clock of the transfer starts here; the copy starts when the worker is
    /// run, on a thread of the caller's choosing.
    pub fn new<R, W>(reader: R, writer: W) -> (started: (Transfer, Worker<R, W>))
        ensures
            started.1.source() == reader,
            started.1.sink() == writer,
            started.1.counter() == started.0.counter(),
    {
        let (worker, counter) = Worker::new(reader, writer);
        (Transfer { start_time: Instant::now(), counter }, worker)
    }

    /// Consumes the handle and turns the way its worker ended into the
    /// transfer's outcome: the source and the sink after a copy that
    /// succeeded, the I/O error of one that failed, or the report that the
    /// worker was lost. The outcome depends on the worker's end alone, not on
    /// when it is collected.
    pub fn finish<R, W>(self, exit: WorkerExit<R, W>) -> (outcome: Result<(R, W), TransferError>)
        ensures
            outcome == outcome_of(exit),
    {
        match exit {
            WorkerExit::Returned(Ok(ends)) => Ok(ends),
            WorkerExit::Returned(Err(error)) => Err(TransferError::Io(error)),
            WorkerExit::Aborted => Err(TransferError::WorkerAborted),
        }
    }

    /// Tests if the transfer is complete.
    pub fn is_complete(&self) -> bool {
        self.counter.read_complete()
    }

    /// Returns the number of bytes transferred thus far.
    pub fn transferred(&self) -> u64 {
        self.counter.read_transferred()
    }

    /// Returns the time elapsed since the transfer was created.
    pub fn running_time(&self) -> Duration {
        self.start_time.elapsed()
    }

    /// Returns the average speed of the transfer, in bytes per second.
    pub fn speed(&self) -> u64 {
        let transferred = self.transferred();
        let elapsed = self.running_time();
        average_speed(transferred, elapsed.as_nanos())
    }
}

} // verus!

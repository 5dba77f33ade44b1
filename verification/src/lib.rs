//! Progress monitoring for a byte-stream copy that runs on a worker of its own.
//!
//! A [`Transfer`] observes a copy while a [`Worker`] performs it: the worker
//! publishes every chunk into a shared [`ProgressCounter`], and any number of
//! observers read it without blocking. A [`SizedTransfer`] adds the metrics
//! that need the total size: bytes remaining, fraction done and the estimated
//! time to completion.
//!
//! The library starts no thread of its own. [`Transfer::new`] hands out the
//! worker, the caller runs it where the copy shall happen, and
//! [`Transfer::finish`] takes the way the worker ended.

pub mod clock;
pub mod counter;
pub mod history;
pub mod metrics;
pub mod sized;
pub mod summary;
pub mod transfer;
pub mod worker;

pub use counter::ProgressCounter;
pub use metrics::Fraction;
pub use sized::SizedTransfer;
pub use transfer::Transfer;
pub use transfer::TransferError;
pub use transfer::WorkerExit;
pub use worker::Worker;

//! The worker: the unit that owns source and sink while the copy runs.

use progress_streams::ProgressReader;
use std::io::Read;
use std::io::Write;
use std::sync::Arc;
use vstd::prelude::*;
use crate::counter::ProgressCounter;

verus! {

/// `std::io::Error`, carried through as it came: nothing of what it holds is
/// known here.
#[verifier::external_type_specification]
#[verifier::external_body]
pub struct ExIoError(std::io::Error);

/// Runs `std::io::copy` from `reader`, wrapped in a
/// `progress_streams::ProgressReader`, into `writer`. The wrapped reader hands
/// the length of every successful read to `counter.publish`. When the copy
/// has ended well the reader is taken back out with `into_inner`; when it has
/// failed the error is handed on. Nothing is claimed of the result: it is
/// whatever the two streams made of the copy.
#[verifier::external_body]
fn copy_reporting<R: Read, W: Write>(
    reader: R,
    writer: &mut W,
    counter: &ProgressCounter,
) -> (copied: Result<R, std::io::Error>) {
    let mut source = ProgressReader::new(reader, |bytes: usize| counter.publish(bytes as u64));
    match std::io::copy(&mut source, writer) {
        Ok(_) => Ok(source.into_inner()),
        Err(error) => Err(error),
    }
}

/// `Arc::clone` makes a second handle to the same allocation, so both handles
/// lead to one and the same counter.
#[verifier::external_body]
fn share(counter: &Arc<ProgressCounter>) -> (shared: Arc<ProgressCounter>)
    ensures
        shared == *counter,
{
    Arc::clone(counter)
}

/// What a worker hands back: the source and the sink after a copy that ran to
/// the end of the source, or the error that stopped it.
pub open spec fn settled<R, W>(copied: Result<R, std::io::Error>, writer: W) -> Result<
    (R, W),
    std::io::Error,
> {
    match copied {
        Ok(reader) => Ok((reader, writer)),
        Err(error) => Err(error),
    }
}

/// Pairs the source that a finished copy gave back with its sink.
pub fn settle<R, W>(copied: Result<R, std::io::Error>, writer: W) -> (outcome: Result<
    (R, W),
    std::io::Error,
>)
    ensures
        outcome == settled(copied, writer),
{
    match copied {
        Ok(reader) => Ok((reader, writer)),
        Err(error) => Err(error),
    }
}

/// The unit of work behind a transfer. It owns the source and the sink from
/// the start of the transfer until [`Worker::run`] gives them back, and it is
/// the only writer of the transfer's counter.
pub struct Worker<R, W> {
    reader: R,
    writer: W,
    counter: Arc<ProgressCounter>,
}

impl<R, W> Worker<R, W> {
    /// The source this worker reads from.
    pub closed spec fn source(self) -> R {
        self.reader
    }

    /// The sink this worker writes to.
    pub closed spec fn sink(self) -> W {
        self.writer
    }

    /// The counter this worker publishes into.
    pub closed spec fn counter(self) -> ProgressCounter {
        *self.counter
    }

    /// A worker for one copy from `reader` to `writer`, and a second handle to
    /// the counter it will publish into.
    pub(crate) fn new(reader: R, writer: W) -> (made: (Worker<R, W>, Arc<ProgressCounter>))
        ensures
            made.0.source() == reader,
            made.0.sink() == writer,
            made.0.counter() == *made.1,
    {
        let counter = Arc::new(ProgressCounter::new());
        let shared = share(&counter);
        (Worker { reader, writer, counter }, shared)
    }
}

impl<R: Read, W: Write> Worker<R, W> {
    /// Copies the source into the sink until the source ends or either stream
    /// fails, publishing every chunk, then raises the completion flag, whatever
    /// the outcome, and gives back the source and the sink, or the error.
    pub fn run(self) -> (outcome: Result<(R, W), std::io::Error>) {
        let Worker { reader, writer, counter } = self;
        let mut writer = writer;
        let copied = copy_reporting(reader, &mut writer, &counter);
        counter.mark_complete();
        settle(copied, writer)
    }
}

} // verus!

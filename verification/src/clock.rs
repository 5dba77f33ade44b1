//! The wall clock, and time spans as whole nanoseconds.

use std::time::Duration;
use std::time::Instant;
use vstd::prelude::*;
use crate::metrics::MAX_SPAN_NANOS;
use crate::metrics::NANOS_PER_SEC;

verus! {

/// `std::time::Instant`, a reading of the monotonic clock: nothing of what it
/// holds is known here.
#[verifier::external_type_specification]
#[verifier::external_body]
pub struct ExInstant(Instant);

/// `Instant::now` reads the monotonic clock. Nothing is claimed of the
/// instant it returns.
pub assume_specification[ Instant::now ]() -> Instant;

/// `Instant::elapsed` measures the time since the instant was taken. Nothing
/// is claimed of the span it returns.
pub assume_specification[ Instant::elapsed ](start: &Instant) -> Duration;

/// `Duration::as_nanos` gives a span's length in nanoseconds. Nothing is
/// claimed of the number.
pub assume_specification[ Duration::as_nanos ](span: &Duration) -> u128;

/// The span that `Duration::new` builds from whole seconds and further
/// nanoseconds: it depends on the two numbers alone.
pub uninterp spec fn duration_of(secs: u64, nanos: u32) -> Duration;

/// `Duration::new` builds a span from whole seconds and further nanoseconds.
/// It panics only where the nanoseconds carry into seconds that overflow, so
/// the nanoseconds are kept under one second. The span is named, not
/// described: nothing of what it holds is known here.
pub assume_specification[ Duration::new ](secs: u64, nanos: u32) -> (span: Duration)
    requires
        nanos < 1_000_000_000,
    ensures
        span == duration_of(secs, nanos),
;

/// The span of `nanos` nanoseconds: that of its whole seconds and of the
/// nanoseconds left over.
pub open spec fn span_of(nanos: nat) -> Duration {
    duration_of((nanos / 1_000_000_000) as u64, (nanos % 1_000_000_000) as u32)
}

/// An estimate in nanoseconds as a span, where there is one.
pub open spec fn estimate_of(nanos: Option<nat>) -> Option<Duration> {
    match nanos {
        Some(nanos) => Some(span_of(nanos)),
        None => None,
    }
}

/// The span of `nanos` nanoseconds, split into whole seconds and the rest.
pub(crate) fn span_of_nanos(nanos: u128) -> (span: Duration)
    requires
        nanos <= MAX_SPAN_NANOS,
    ensures
        span == span_of(nanos as nat),
{
    let secs: u128 = nanos / NANOS_PER_SEC;
    let rest: u128 = nanos % NANOS_PER_SEC;
    assert(secs <= u64::MAX);
    Duration::new(secs as u64, rest as u32)
}

} // verus!

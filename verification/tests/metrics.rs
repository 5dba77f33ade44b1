use transfer_progress::metrics::average_speed;
use transfer_progress::metrics::eta_nanos;
use transfer_progress::metrics::fraction;
use transfer_progress::metrics::remaining_bytes;
use transfer_progress::metrics::MAX_SPAN_NANOS;
use transfer_progress::metrics::NANOS_PER_SEC;

#[test]
fn speed_is_zero_when_no_time_has_elapsed() {
    assert_eq!(average_speed(4096, 0), 0);
    assert_eq!(average_speed(0, 0), 0);
    assert_eq!(average_speed(u64::MAX, 0), 0);
}

#[test]
fn speed_is_bytes_per_second() {
    assert_eq!(average_speed(1000, NANOS_PER_SEC), 1000);
    assert_eq!(average_speed(1_048_576, 2 * NANOS_PER_SEC), 524_288);
    assert_eq!(average_speed(1024, 500_000_000), 2048);
    assert_eq!(average_speed(0, 7), 0);
}

#[test]
fn speed_rounds_to_the_nearest_integer() {
    // 1 byte in 3 s is a third of a byte per second
    assert_eq!(average_speed(1, 3 * NANOS_PER_SEC), 0);
    // 2 bytes in 3 s are two thirds
    assert_eq!(average_speed(2, 3 * NANOS_PER_SEC), 1);
    // 1 byte in 2 s is exactly a half, which goes up
    assert_eq!(average_speed(1, 2 * NANOS_PER_SEC), 1);
    // 7 bytes in 2 s are 3.5
    assert_eq!(average_speed(7, 2 * NANOS_PER_SEC), 4);
    // 10 bytes in 4 s are 2.5
    assert_eq!(average_speed(10, 4 * NANOS_PER_SEC), 3);
    // just under a half stays down
    assert_eq!(average_speed(1, 2 * NANOS_PER_SEC + 1), 0);
}

#[test]
fn speed_stays_within_u64() {
    assert_eq!(average_speed(u64::MAX, 1), u64::MAX);
    assert_eq!(average_speed(u64::MAX, NANOS_PER_SEC), u64::MAX);
    assert_eq!(average_speed(u64::MAX, NANOS_PER_SEC - 1), u64::MAX);
    assert_eq!(average_speed(1 << 40, 1), u64::MAX);
    assert_eq!(average_speed(1, u128::MAX), 0);
    assert_eq!(average_speed(u64::MAX, u128::MAX), 0);
}

#[test]
fn remaining_is_size_less_transferred() {
    assert_eq!(remaining_bytes(1024, 0), 1024);
    assert_eq!(remaining_bytes(1024, 1000), 24);
    assert_eq!(remaining_bytes(1024, 1024), 0);
    assert_eq!(remaining_bytes(u64::MAX, 1), u64::MAX - 1);
}

#[test]
fn remaining_stops_at_zero_past_the_declared_size() {
    assert_eq!(remaining_bytes(1024, 1025), 0);
    assert_eq!(remaining_bytes(0, 1), 0);
    assert_eq!(remaining_bytes(0, 0), 0);
    assert_eq!(remaining_bytes(10, u64::MAX), 0);
}

#[test]
fn eta_is_unknown_before_the_first_byte() {
    assert_eq!(eta_nanos(1024, 0, 0), None);
    assert_eq!(eta_nanos(1024, 0, 5 * NANOS_PER_SEC), None);
    assert_eq!(eta_nanos(0, 0, 5 * NANOS_PER_SEC), None);
}

#[test]
fn eta_extrapolates_the_average_rate() {
    // half done after 2 s: 2 s to go
    assert_eq!(eta_nanos(1024, 512, 2 * NANOS_PER_SEC), Some(2 * NANOS_PER_SEC));
    // a quarter done after 1 s: 3 s to go
    assert_eq!(eta_nanos(1000, 250, NANOS_PER_SEC), Some(3 * NANOS_PER_SEC));
    // 3 of 10 bytes after 10 ns: 10 * 7 / 3 = 23.33 ns, rounded down
    assert_eq!(eta_nanos(10, 3, 10), Some(23));
    // no time elapsed: none to go
    assert_eq!(eta_nanos(1024, 1, 0), Some(0));
}

#[test]
fn eta_is_zero_at_and_past_the_declared_size() {
    assert_eq!(eta_nanos(1024, 1024, 9 * NANOS_PER_SEC), Some(0));
    assert_eq!(eta_nanos(1024, 4096, 9 * NANOS_PER_SEC), Some(0));
    assert_eq!(eta_nanos(0, 1, u128::MAX), Some(0));
}

#[test]
fn eta_stops_at_the_longest_span() {
    assert_eq!(MAX_SPAN_NANOS, u64::MAX as u128 * NANOS_PER_SEC + 999_999_999);
    assert_eq!(eta_nanos(u64::MAX, 1, u128::MAX), Some(MAX_SPAN_NANOS));
    assert_eq!(eta_nanos(u64::MAX, 1, MAX_SPAN_NANOS), Some(MAX_SPAN_NANOS));
    // one second for the first byte, 2^64 - 2 bytes to go
    assert_eq!(
        eta_nanos(u64::MAX, 1, NANOS_PER_SEC),
        Some((u64::MAX as u128 - 1) * NANOS_PER_SEC)
    );
    // two seconds for the first byte would take longer than the longest span
    assert_eq!(eta_nanos(u64::MAX, 1, 2 * NANOS_PER_SEC), Some(MAX_SPAN_NANOS));
    // products beyond 128 bits are still exact
    assert_eq!(
        eta_nanos(u64::MAX, u64::MAX - 1, (u64::MAX as u128 - 1) << 20),
        Some(1 << 20)
    );
}

#[test]
fn fraction_is_transferred_over_size() {
    let none = fraction(1024, 0, false);
    assert_eq!((none.numerator(), none.denominator()), (0, 1024));
    let half = fraction(1024, 512, false);
    assert_eq!((half.numerator(), half.denominator()), (512, 1024));
    assert_eq!(half.numerator() as f64 / half.denominator() as f64, 0.5);
    let all = fraction(1024, 1024, true);
    assert_eq!(all.numerator() as f64 / all.denominator() as f64, 1.0);
    let over = fraction(1024, 2048, false);
    assert_eq!(over.numerator() as f64 / over.denominator() as f64, 2.0);
}

#[test]
fn fraction_of_size_zero_is_defined() {
    let before = fraction(0, 0, false);
    assert_eq!((before.numerator(), before.denominator()), (0, 1));
    let running = fraction(0, 77, false);
    assert_eq!((running.numerator(), running.denominator()), (0, 1));
    let done = fraction(0, 0, true);
    assert_eq!((done.numerator(), done.denominator()), (1, 1));
    let done_late = fraction(0, 77, true);
    assert_eq!((done_late.numerator(), done_late.denominator()), (1, 1));
    let value = done.numerator() as f64 / done.denominator() as f64;
    assert!(value.is_finite());
    assert_eq!(value, 1.0);
}

#[test]
fn per_mille_rounds_to_the_nearest_tenth_of_a_percent() {
    assert_eq!(fraction(1024, 0, false).per_mille(), 0);
    assert_eq!(fraction(1024, 512, false).per_mille(), 500);
    assert_eq!(fraction(1024, 1024, true).per_mille(), 1000);
    assert_eq!(fraction(3, 1, false).per_mille(), 333);
    assert_eq!(fraction(3, 2, false).per_mille(), 667);
    // 1 of 2000 is 0.05 %, which goes up to 0.1 %
    assert_eq!(fraction(2000, 1, false).per_mille(), 1);
    assert_eq!(fraction(2001, 1, false).per_mille(), 0);
    assert_eq!(fraction(1, u64::MAX, false).per_mille(), 1000 * u64::MAX as u128);
    assert_eq!(fraction(0, 5, true).per_mille(), 1000);
    assert_eq!(fraction(0, 5, false).per_mille(), 0);
}

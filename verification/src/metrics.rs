//! The arithmetic behind the derived metrics, on plain integers.
//!
//! Time spans are whole nanoseconds; rates are bytes per second. Every function
//! here is total: a zero divisor or an oversized result has a defined answer.

use vstd::prelude::*;
use vstd::arithmetic::div_mod::lemma_fundamental_div_mod;
use vstd::arithmetic::div_mod::lemma_fundamental_div_mod_converse;

verus! {

/// Nanoseconds in one second.
pub const NANOS_PER_SEC: u128 = 1_000_000_000;

/// The longest time span an estimate reports: `u64::MAX` seconds and
/// 999,999,999 nanoseconds.
pub const MAX_SPAN_NANOS: u128 = 18_446_744_073_709_551_615_999_999_999;

/// `a / b` rounded to the nearest integer, halves upwards.
pub open spec fn rounded_quotient(a: nat, b: nat) -> nat
    recommends
        b > 0,
{
    (2 * a + b) / (2 * b)
}

/// Average speed in bytes per second: the bytes moved divided by the seconds
/// elapsed, rounded to the nearest integer and held to the range of `u64`.
/// With no time elapsed there is no rate, and the speed is 0.
pub open spec fn speed_of(transferred: u64, elapsed_nanos: u128) -> nat {
    if elapsed_nanos == 0 {
        0
    } else {
        let exact = rounded_quotient(transferred as nat * 1_000_000_000, elapsed_nanos as nat);
        if exact > u64::MAX {
            u64::MAX as nat
        } else {
            exact
        }
    }
}

/// Bytes still to move: `size - transferred`, and 0 once the transfer has
/// reached or passed the declared size.
pub open spec fn remaining_of(size: u64, transferred: u64) -> nat {
    if transferred >= size {
        0
    } else {
        (size - transferred) as nat
    }
}

/// Linear extrapolation of the time still needed, in nanoseconds: the time per
/// byte so far, times the bytes remaining, rounded down and held to
/// [`MAX_SPAN_NANOS`]. Unknown while no byte has been moved.
pub open spec fn eta_of(size: u64, transferred: u64, elapsed_nanos: u128) -> Option<nat> {
    if transferred == 0 {
        None
    } else {
        let exact = (elapsed_nanos as nat * remaining_of(size, transferred)) / (transferred as nat);
        if exact > MAX_SPAN_NANOS {
            Some(MAX_SPAN_NANOS as nat)
        } else {
            Some(exact)
        }
    }
}

/// The part of a transfer that is done, as a pair of numerator and
/// denominator: the bytes transferred over the declared size, which is more
/// than one where the stream outran its declared size. Against a declared
/// size of zero no ratio exists: the transfer counts as wholly done once it
/// is complete, and as not begun before.
pub open spec fn fraction_of(size: u64, transferred: u64, complete: bool) -> (nat, nat) {
    if size == 0 {
        if complete {
            (1, 1)
        } else {
            (0, 1)
        }
    } else {
        (transferred as nat, size as nat)
    }
}

/// A ratio of two byte counts. The denominator is never zero.
#[derive(Clone, Copy, Debug)]
pub struct Fraction {
    numerator: u64,
    denominator: u64,
}

impl Fraction {
    #[verifier::type_invariant]
    spec fn well_formed(self) -> bool {
        self.denominator > 0
    }

    /// The ratio as a pair of numerator and denominator.
    pub closed spec fn parts(self) -> (nat, nat) {
        (self.numerator as nat, self.denominator as nat)
    }

    /// The ratio in tenths of a percent, rounded to the nearest.
    pub open spec fn per_mille_of(self) -> nat {
        rounded_quotient(self.parts().0 * 1000, self.parts().1)
    }

    /// The number above the line.
    pub fn numerator(&self) -> (numerator: u64)
        ensures
            numerator == self.parts().0,
    {
        self.numerator
    }

    /// The number below the line, never zero.
    pub fn denominator(&self) -> (denominator: u64)
        ensures
            denominator == self.parts().1,
            denominator > 0,
    {
        proof {
            use_type_invariant(self);
        }
        self.denominator
    }

    /// The ratio in tenths of a percent, rounded to the nearest: 1000 for a
    /// ratio of one.
    pub fn per_mille(&self) -> (tenths: u128)
        ensures
            tenths == self.per_mille_of(),
    {
        proof {
            use_type_invariant(self);
        }
        let scaled: u128 = (self.numerator as u128) * 1000;
        let divisor: u128 = self.denominator as u128;
        let whole: u128 = scaled / divisor;
        let rest: u128 = scaled % divisor;
        proof {
            lemma_rounded_quotient(scaled as nat, divisor as nat);
            assert(whole <= scaled) by (nonlinear_arith)
                requires
                    whole == scaled / divisor,
                    divisor > 0,
                    scaled >= 0,
            ;
        }
        if rest >= divisor - rest {
            whole + 1
        } else {
            whole
        }
    }
}

/// The part of a transfer that is done.
pub fn fraction(size: u64, transferred: u64, complete: bool) -> (done: Fraction)
    ensures
        done.parts() == fraction_of(size, transferred, complete),
{
    if size == 0 {
        if complete {
            Fraction { numerator: 1, denominator: 1 }
        } else {
            Fraction { numerator: 0, denominator: 1 }
        }
    } else {
        Fraction { numerator: transferred, denominator: size }
    }
}

/// Rounding to nearest is rounding down, plus one where the remainder is at
/// least half the divisor.
pub proof fn lemma_rounded_quotient(a: nat, b: nat)
    requires
        b > 0,
    ensures
        rounded_quotient(a, b) == a / b + if 2 * (a % b) >= b { 1nat } else { 0nat },
{
    let q = (a / b) as int;
    let r = (a % b) as int;
    lemma_fundamental_div_mod(a as int, b as int);
    let bump: int = if 2 * r >= b { 1 } else { 0 };
    let rest: int = 2 * r + b - bump * (2 * b);
    assert(2 * a + b == (q + bump) * (2 * b) + rest) by (nonlinear_arith)
        requires
            a == b * q + r,
            rest == 2 * r + b - bump * (2 * b),
    ;
    lemma_fundamental_div_mod_converse((2 * a + b) as int, (2 * b) as int, q + bump, rest);
}

/// Average speed in bytes per second over `elapsed_nanos` nanoseconds.
pub fn average_speed(transferred: u64, elapsed_nanos: u128) -> (speed: u64)
    ensures
        speed == speed_of(transferred, elapsed_nanos),
        elapsed_nanos == 0 ==> speed == 0,
{
    if elapsed_nanos == 0 {
        return 0;
    }
    let scaled: u128 = (transferred as u128) * NANOS_PER_SEC;
    let whole: u128 = scaled / elapsed_nanos;
    let rest: u128 = scaled % elapsed_nanos;
    proof {
        lemma_rounded_quotient(scaled as nat, elapsed_nanos as nat);
    }
    let rounded: u128 = if rest >= elapsed_nanos - rest {
        whole + 1
    } else {
        whole
    };
    if rounded > u64::MAX as u128 {
        u64::MAX
    } else {
        rounded as u64
    }
}

/// Bytes still to move, 0 where the transfer has passed the declared size.
pub fn remaining_bytes(size: u64, transferred: u64) -> (remaining: u64)
    ensures
        remaining == remaining_of(size, transferred),
        remaining <= size,
{
    if transferred >= size {
        0
    } else {
        size - transferred
    }
}

/// Splitting the elapsed time by the bytes moved leaves the product exact:
/// `(q * t + r) * m / t == q * m + (r * m) / t`.
pub proof fn lemma_scaled_quotient(elapsed: nat, moved: nat, left: nat)
    requires
        moved > 0,
    ensures
        (elapsed * left) / moved == (elapsed / moved) * left + ((elapsed % moved) * left) / moved,
{
    let q = (elapsed / moved) as int;
    let r = (elapsed % moved) as int;
    let part = r * left;
    let pq = part / (moved as int);
    let pr = part % (moved as int);
    lemma_fundamental_div_mod(elapsed as int, moved as int);
    lemma_fundamental_div_mod(part, moved as int);
    assert(elapsed * left == (q * left + pq) * moved + pr) by (nonlinear_arith)
        requires
            elapsed == moved * q + r,
            part == r * left,
            part == moved * pq + pr,
    ;
    lemma_fundamental_div_mod_converse(
        (elapsed * left) as int,
        moved as int,
        q * left + pq,
        pr,
    );
}

/// Estimated nanoseconds until completion, `None` while nothing has been
/// moved.
pub fn eta_nanos(size: u64, transferred: u64, elapsed_nanos: u128) -> (eta: Option<u128>)
    ensures
        eta.is_none() <==> transferred == 0,
        eta matches Some(nanos) ==> nanos <= MAX_SPAN_NANOS,
        eta_of(size, transferred, elapsed_nanos) == match eta {
            Some(nanos) => Some(nanos as nat),
            None => None,
        },
{
    if transferred == 0 {
        return None;
    }
    let left: u128 = remaining_bytes(size, transferred) as u128;
    if left == 0 {
        return Some(0);
    }
    let moved: u128 = transferred as u128;
    let whole: u128 = elapsed_nanos / moved;
    let rest: u128 = elapsed_nanos % moved;
    proof {
        lemma_scaled_quotient(elapsed_nanos as nat, moved as nat, left as nat);
    }
    let ceiling: u128 = MAX_SPAN_NANOS / left;
    proof {
        lemma_fundamental_div_mod(MAX_SPAN_NANOS as int, left as int);
    }
    if whole > ceiling {
        assert(whole as nat * left as nat > MAX_SPAN_NANOS) by (nonlinear_arith)
            requires
                whole >= ceiling + 1,
                left > 0,
                MAX_SPAN_NANOS == left * ceiling + (MAX_SPAN_NANOS % left),
                (MAX_SPAN_NANOS % left) < left,
        ;
        return Some(MAX_SPAN_NANOS);
    }
    assert(whole as nat * left as nat <= MAX_SPAN_NANOS) by (nonlinear_arith)
        requires
            whole <= ceiling,
            left > 0,
            MAX_SPAN_NANOS == left * ceiling + (MAX_SPAN_NANOS % left),
            0 <= (MAX_SPAN_NANOS % left),
    ;
    assert(rest as nat * left as nat <= 0xffff_ffff_ffff_ffff * 0xffff_ffff_ffff_ffff)
        by (nonlinear_arith)
        requires
            rest <= 0xffff_ffff_ffff_ffff,
            left <= 0xffff_ffff_ffff_ffff,
    ;
    let head: u128 = whole * left;
    let part: u128 = rest * left;
    assert(part / moved <= left) by (nonlinear_arith)
        requires
            part == rest * left,
            rest < moved,
            left >= 0,
    ;
    let total: u128 = head + part / moved;
    if total > MAX_SPAN_NANOS {
        Some(MAX_SPAN_NANOS)
    } else {
        Some(total)
    }
}

} // verus!

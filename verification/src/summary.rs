//! One-line, human-readable summaries of a transfer.
//!
//! This is presentation only: it reads a transfer through its public queries
//! and nothing in the monitoring core depends on it. Byte counts are put into
//! words by the `bytesize` crate.

use bytesize::ByteSize;
use vstd::prelude::*;
use vstd::string::StringExecFns;
use crate::metrics::fraction_of;
use crate::metrics::rounded_quotient;
use crate::metrics::Fraction;
use crate::sized::SizedTransfer;
use crate::transfer::Transfer;

verus! {

/// The text that `bytesize` gives for a byte count: in units of 1024 bytes
/// (`kiB`, `MiB`, ...) where `si_unit` is set, in units of 1000 bytes (`KB`,
/// `MB`, ...) where it is not.
pub uninterp spec fn size_text(bytes: u64, si_unit: bool) -> Seq<char>;

/// `bytesize::ByteSize::to_string_as`, on the size made by `ByteSize::b`. The
/// text depends on the byte count and the flag alone.
#[verifier::external_body]
fn byte_size_text(bytes: u64, si_unit: bool) -> (text: String)
    ensures
        text@ == size_text(bytes, si_unit),
{
    ByteSize::b(bytes).to_string_as(si_unit)
}

/// The decimal digit for a number below ten.
pub open spec fn digit_of(d: nat) -> char
    recommends
        d < 10,
{
    if d == 0 {
        '0'
    } else if d == 1 {
        '1'
    } else if d == 2 {
        '2'
    } else if d == 3 {
        '3'
    } else if d == 4 {
        '4'
    } else if d == 5 {
        '5'
    } else if d == 6 {
        '6'
    } else if d == 7 {
        '7'
    } else if d == 8 {
        '8'
    } else {
        '9'
    }
}

/// A number in decimal digits, without leading zeros.
pub open spec fn decimal_text(n: nat) -> Seq<char>
    decreases n,
{
    if n < 10 {
        seq![digit_of(n)]
    } else {
        decimal_text(n / 10).push(digit_of(n % 10))
    }
}

/// Tenths of a percent as a percentage with one decimal place: `1000` reads
/// `100.0`.
pub open spec fn percent_text(tenths: nat) -> Seq<char> {
    decimal_text(tenths / 10) + seq!['.'] + seq![digit_of(tenths % 10)]
}

/// The summary of a plain transfer: the bytes moved and the speed, as
/// `1.0 KB (1.0 KB/s)`. The alternate form counts in units of 1024 bytes.
pub open spec fn transfer_line(transferred: u64, speed: u64, alternate: bool) -> Seq<char> {
    size_text(transferred, alternate) + " ("@ + size_text(speed, alternate) + "/s)"@
}

/// The summary of a sized transfer: the percentage done, the bytes moved, the
/// declared size and the speed, as `50.0 % (512 B of 1.0 kiB, 1.0 kiB/s)`. Here
/// the plain form counts in units of 1024 bytes and the alternate form in
/// units of 1000 bytes.
pub open spec fn sized_line(
    done: (nat, nat),
    transferred: u64,
    size: u64,
    speed: u64,
    alternate: bool,
) -> Seq<char> {
    percent_text(rounded_quotient(done.0 * 1000, done.1)) + " % ("@ + size_text(
        transferred,
        !alternate,
    ) + " of "@ + size_text(size, !alternate) + ", "@ + size_text(speed, !alternate) + "/s)"@
}

fn digit(d: u128) -> (text: &'static str)
    requires
        d < 10,
    ensures
        text@ == seq![digit_of(d as nat)],
{
    proof {
        reveal_strlit("0");
        reveal_strlit("1");
        reveal_strlit("2");
        reveal_strlit("3");
        reveal_strlit("4");
        reveal_strlit("5");
        reveal_strlit("6");
        reveal_strlit("7");
        reveal_strlit("8");
        reveal_strlit("9");
    }
    if d == 0 {
        "0"
    } else if d == 1 {
        "1"
    } else if d == 2 {
        "2"
    } else if d == 3 {
        "3"
    } else if d == 4 {
        "4"
    } else if d == 5 {
        "5"
    } else if d == 6 {
        "6"
    } else if d == 7 {
        "7"
    } else if d == 8 {
        "8"
    } else {
        "9"
    }
}

fn push_decimal(text: &mut String, n: u128)
    ensures
        final(text)@ == old(text)@ + decimal_text(n as nat),
    decreases n,
{
    if n >= 10 {
        push_decimal(text, n / 10);
    }
    text.append(digit(n % 10));
}

fn push_percent(text: &mut String, tenths: u128)
    ensures
        final(text)@ == old(text)@ + percent_text(tenths as nat),
{
    proof {
        reveal_strlit(".");
    }
    push_decimal(text, tenths / 10);
    text.append(".");
    text.append(digit(tenths % 10));
}

/// Puts the figures of a plain transfer into one line.
pub fn describe_transfer(transferred: u64, speed: u64, alternate: bool) -> (line: String)
    ensures
        line@ == transfer_line(transferred, speed, alternate),
{
    let mut line = byte_size_text(transferred, alternate);
    line.append(" (");
    line.append(byte_size_text(speed, alternate).as_str());
    line.append("/s)");
    line
}

/// Puts the figures of a sized transfer into one line.
pub fn describe_sized(
    done: Fraction,
    transferred: u64,
    size: u64,
    speed: u64,
    alternate: bool,
) -> (line: String)
    ensures
        line@ == sized_line(done.parts(), transferred, size, speed, alternate),
{
    let mut line = String::new();
    push_percent(&mut line, done.per_mille());
    line.append(" % (");
    line.append(byte_size_text(transferred, !alternate).as_str());
    line.append(" of ");
    line.append(byte_size_text(size, !alternate).as_str());
    line.append(", ");
    line.append(byte_size_text(speed, !alternate).as_str());
    line.append("/s)");
    line
}

/// Summarises a transfer as it stands at this moment: whatever count and
/// speed the call reads, the line is the summary of those two figures in the
/// form asked for.
pub fn transfer_summary(transfer: &Transfer, alternate: bool) -> (line: String)
    ensures
        exists|transferred: u64, speed: u64|
            line@ == transfer_line(transferred, speed, alternate),
{
    let transferred = transfer.transferred();
    let speed = transfer.speed();
    let line = describe_transfer(transferred, speed, alternate);
    assert(line@ == transfer_line(transferred, speed, alternate));
    line
}

/// Summarises a sized transfer as it stands at this moment: whatever the call
/// reads, the line is the summary of those figures against the declared size,
/// in the form asked for. The percentage and the bytes moved come from two
/// reads of the count and may differ while the transfer runs.
pub fn sized_summary(transfer: &SizedTransfer, alternate: bool) -> (line: String)
    ensures
        exists|counted: u64, complete: bool, transferred: u64, speed: u64|
            line@ == sized_line(
                fraction_of(transfer.declared_size(), counted, complete),
                transferred,
                transfer.declared_size(),
                speed,
                alternate,
            ),
{
    let done = transfer.fraction_transferred();
    let transferred = transfer.transferred();
    let size = transfer.size();
    let speed = transfer.speed();
    let line = describe_sized(done, transferred, size, speed, alternate);
    proof {
        let (counted, complete) = choose|counted: u64, complete: bool|
            done.parts() == fraction_of(size, counted, complete);
        assert(line@ == sized_line(
            fraction_of(size, counted, complete),
            transferred,
            size,
            speed,
            alternate,
        ));
    }
    line
}

} // verus!

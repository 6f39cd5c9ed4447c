//! The start and end stamps of an event, of the form `YYYYMMDDTHHMMSSZ`.
//!
//! Agenda times are local; the stamp shows the hour before. The digits are
//! laid out by two rules that are kept apart here so that each can be changed
//! in one place: month and day always get a `0` in front of their numeral,
//! whatever its width, while hour and minute get one only below ten, and the
//! hour's test looks at the hour as given, before the shift.
use vstd::prelude::*;
use crate::error::FormatError;
use crate::talk::{Date, Time};
use crate::text::{decimal, push_decimal, push_signed_decimal, signed_decimal};

verus! {

/// The numeral of `n` with a `0` in front of it, whatever its width.
/// This is the layout of month and day.
pub open spec fn zero_prefixed(n: nat) -> Seq<char> {
    seq!['0'] + decimal(n)
}

/// The numeral of `shown`, with a `0` in front of it when `tested` is below
/// ten. This is the layout of hour and minute.
pub open spec fn padded_below_ten(shown: nat, tested: nat) -> Seq<char> {
    if tested < 10 {
        seq!['0'] + decimal(shown)
    } else {
        decimal(shown)
    }
}

/// The characters of the stamp for a time whose hour is at least 1.
pub open spec fn stamp_text(date: Date, time: Time) -> Seq<char>
    recommends
        time.hour >= 1,
{
    signed_decimal(date.year as int) + zero_prefixed(date.month as nat) + zero_prefixed(
        date.day as nat,
    ) + seq!['T'] + padded_below_ten((time.hour - 1) as nat, time.hour as nat)
        + padded_below_ten(time.minute as nat, time.minute as nat) + seq!['0', '0', 'Z']
}

/// The stamp of `time` on `date`, or the reason why there is none.
pub open spec fn stamp(date: Date, time: Time) -> Result<Seq<char>, FormatError> {
    if time.hour == 0 {
        Err(FormatError::HourZero)
    } else {
        Ok(stamp_text(date, time))
    }
}

/// Says that the exec result `r` is the value `expected` of the model.
pub open spec fn is_stamp(r: Result<String, FormatError>, expected: Result<Seq<char>, FormatError>) -> bool {
    match r {
        Ok(s) => expected == Ok::<Seq<char>, FormatError>(s@),
        Err(e) => expected == Err::<Seq<char>, FormatError>(e),
    }
}

/// Appends `0` and the numeral of `n`.
pub fn push_zero_prefixed(out: &mut String, n: u32)
    ensures
        final(out)@ == old(out)@ + zero_prefixed(n as nat),
{
    out.push('0');
    push_decimal(out, n);
}

/// Appends the numeral of `shown`, after a `0` when `tested` is below ten.
pub fn push_padded_below_ten(out: &mut String, shown: u32, tested: u32)
    ensures
        final(out)@ == old(out)@ + padded_below_ten(shown as nat, tested as nat),
{
    if tested < 10 {
        out.push('0');
    }
    push_decimal(out, shown);
}

/// Builds the stamp of `time` on `date`.
///
/// Fails exactly when the hour is 0; otherwise the result is the year, the
/// month and the day each after a `0`, `T`, the hour before `time.hour`, the
/// minute, and `00Z`.
pub fn format_timestamp(date: Date, time: Time) -> (r: Result<String, FormatError>)
    ensures
        is_stamp(r, stamp(date, time)),
{
    if time.hour == 0 {
        return Err(FormatError::HourZero);
    }
    let mut out = String::new();
    push_signed_decimal(&mut out, date.year);
    push_zero_prefixed(&mut out, date.month);
    push_zero_prefixed(&mut out, date.day);
    out.push('T');
    push_padded_below_ten(&mut out, time.hour - 1, time.hour);
    push_padded_below_ten(&mut out, time.minute, time.minute);
    out.push('0');
    out.push('0');
    out.push('Z');
    assert(out@ =~= stamp_text(date, time));
    Ok(out)
}

/// Building the stamp twice gives the same thing twice: two outcomes for one
/// date and time are both the same text, or both the same failure.
pub proof fn stamps_agree(
    date: Date,
    time: Time,
    first: Result<String, FormatError>,
    second: Result<String, FormatError>,
)
    requires
        is_stamp(first, stamp(date, time)),
        is_stamp(second, stamp(date, time)),
    ensures
        match (first, second) {
            (Ok(a), Ok(b)) => a@ == b@,
            (Err(a), Err(b)) => a == b,
            _ => false,
        },
{
}

/// A stamp exists exactly for the hours from 1 on; the only failure is that
/// of hour 0.
pub proof fn stamp_exists_from_hour_one(date: Date, time: Time)
    ensures
        stamp(date, time) is Ok <==> time.hour >= 1,
        stamp(date, time) is Err ==> stamp(date, time) == Err::<Seq<char>, FormatError>(
            FormatError::HourZero,
        ),
{
}

/// Every stamp has at least nine characters and ends in `00Z`.
pub proof fn stamp_ends_in_seconds_and_zone(date: Date, time: Time)
    requires
        time.hour >= 1,
    ensures
        stamp_text(date, time).len() >= 9,
        stamp_text(date, time).subrange(
            stamp_text(date, time).len() - 3,
            stamp_text(date, time).len() as int,
        ) == seq!['0', '0', 'Z'],
{
}

} // verus!

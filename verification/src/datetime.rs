//! The date and the times of an agenda entry, read from their fragments.
//!
//! A date fragment ends in `DD.MM.YYYY`, after a weekday or any other text
//! that ends in a space; a time fragment is `HH:MM`. The digits say which
//! date or time is written. Whether the calendar has such a day and the clock
//! such a time is left to `chrono`: a fragment counts only if `chrono` reads
//! it too, and reads the numbers that are written.
use vstd::prelude::*;
use vstd::string::StrSliceExecFns;
use chrono::{Datelike, NaiveDate, NaiveTime, Timelike};
use crate::error::AgendaError;
use crate::talk::{Date, Time};
use crate::text::{digit_char, is_digit};

verus! {

/// The date format handed to `chrono`.
pub const DATE_FORMAT: &'static str = "%d.%m.%Y";

/// The time format handed to `chrono`.
pub const TIME_FORMAT: &'static str = "%H:%M";

/// Year, month and day that `chrono` reads from `text` under `format`, or
/// `None` where it reports an error.
pub uninterp spec fn parsed_date(text: Seq<char>, format: Seq<char>) -> Option<(i32, u32, u32)>;

/// Hour and minute that `chrono` reads from `text` under `format`, or `None`
/// where it reports an error.
pub uninterp spec fn parsed_time(text: Seq<char>, format: Seq<char>) -> Option<(u32, u32)>;

/// Trusted: `NaiveDate::parse_from_str`, with its date handed out as year,
/// month and day. The result depends on the two texts alone, so it has a
/// name; nothing else is claimed of it.
#[verifier::external_body]
fn chrono_date(text: &str, format: &str) -> (date: Option<(i32, u32, u32)>)
    ensures
        date == parsed_date(text@, format@),
{
    match NaiveDate::parse_from_str(text, format) {
        Ok(date) => Some((date.year(), date.month(), date.day())),
        Err(_) => None,
    }
}

/// Trusted: `NaiveTime::parse_from_str`, with its time handed out as hour and
/// minute. The result depends on the two texts alone, so it has a name;
/// nothing else is claimed of it.
#[verifier::external_body]
fn chrono_time(text: &str, format: &str) -> (time: Option<(u32, u32)>)
    ensures
        time == parsed_time(text@, format@),
{
    match NaiveTime::parse_from_str(text, format) {
        Ok(time) => Some((time.hour(), time.minute())),
        Err(_) => None,
    }
}

/// The index of the last space in `s`, or -1 when it has none.
pub open spec fn last_space(s: Seq<char>) -> int
    decreases s.len(),
{
    if s.len() == 0 {
        -1
    } else if s.last() == ' ' {
        s.len() - 1
    } else {
        last_space(s.drop_last())
    }
}

/// What follows the last space of `s`; all of `s` when it has no space.
pub open spec fn after_last_space(s: Seq<char>) -> Seq<char> {
    s.subrange(last_space(s) + 1, s.len() as int)
}

/// Says that position `k` of `s` holds `mark` if it is one of the two marked
/// positions, and a digit otherwise.
pub open spec fn fits_at(s: Seq<char>, k: int, mark: char, first: int, second: int) -> bool {
    if k == first || k == second {
        s[k] == mark
    } else {
        is_digit(s[k])
    }
}

/// Says that `s` has exactly `width` characters: `mark` at the positions
/// `first` and `second`, digits everywhere else.
pub open spec fn shaped(s: Seq<char>, width: int, mark: char, first: int, second: int) -> bool {
    s.len() == width && forall|k: int| 0 <= k < width ==> fits_at(s, k, mark, first, second)
}

/// `DD.MM.YYYY`: two digits, a dot, two digits, a dot, four digits.
pub open spec fn is_date_shape(s: Seq<char>) -> bool {
    shaped(s, 10, '.', 2, 5)
}

/// `HH:MM`: two digits, a colon, two digits.
pub open spec fn is_time_shape(s: Seq<char>) -> bool {
    shaped(s, 5, ':', 2, 2)
}

/// The number that the digit `c` stands for.
pub open spec fn digit_value(c: char) -> nat
    recommends
        is_digit(c),
{
    (c as u32 - '0' as u32) as nat
}

/// The number written by the two digits of `s` that start at `at`.
pub open spec fn two_digits(s: Seq<char>, at: int) -> nat {
    10 * digit_value(s[at]) + digit_value(s[at + 1])
}

/// The number written by the four digits of `s` that start at `at`.
pub open spec fn four_digits(s: Seq<char>, at: int) -> nat {
    100 * two_digits(s, at) + two_digits(s, at + 2)
}

/// The date that a text of the shape `DD.MM.YYYY` writes down, whether the
/// calendar has such a day or not.
pub open spec fn written_date(s: Seq<char>) -> Date
    recommends
        is_date_shape(s),
{
    Date {
        year: four_digits(s, 6) as i32,
        month: two_digits(s, 3) as u32,
        day: two_digits(s, 0) as u32,
    }
}

/// The time that a text of the shape `HH:MM` writes down, whether the clock
/// has such a time or not.
pub open spec fn written_time(s: Seq<char>) -> Time
    recommends
        is_time_shape(s),
{
    Time { hour: two_digits(s, 0) as u32, minute: two_digits(s, 3) as u32 }
}

/// A written date counts when `chrono` read a date and read the same three
/// numbers.
pub open spec fn confirmed_date(written: Date, reading: Option<(i32, u32, u32)>) -> Result<
    Date,
    AgendaError,
> {
    if reading == Some((written.year, written.month, written.day)) {
        Ok(written)
    } else {
        Err(AgendaError::BadDate)
    }
}

/// A written time counts when `chrono` read a time and read the same two
/// numbers.
pub open spec fn confirmed_time(written: Time, reading: Option<(u32, u32)>) -> Result<
    Time,
    AgendaError,
> {
    if reading == Some((written.hour, written.minute)) {
        Ok(written)
    } else {
        Err(AgendaError::BadTime)
    }
}

/// The date that a date fragment stands for: what follows its last space must
/// have the shape `DD.MM.YYYY`, and `chrono` must take it for the date that
/// it writes down.
pub open spec fn date_of(fragment: Seq<char>) -> Result<Date, AgendaError> {
    let tail = after_last_space(fragment);
    if is_date_shape(tail) {
        confirmed_date(written_date(tail), parsed_date(tail, DATE_FORMAT@))
    } else {
        Err(AgendaError::BadDate)
    }
}

/// The time that a time fragment stands for: it must have the shape `HH:MM`,
/// and `chrono` must take it for the time that it writes down.
pub open spec fn time_of(fragment: Seq<char>) -> Result<Time, AgendaError> {
    if is_time_shape(fragment) {
        confirmed_time(written_time(fragment), parsed_time(fragment, TIME_FORMAT@))
    } else {
        Err(AgendaError::BadTime)
    }
}

/// The last space is a space, and no space comes after it.
pub proof fn last_space_is_last(s: Seq<char>)
    ensures
        -1 <= last_space(s) < s.len(),
        last_space(s) >= 0 ==> s[last_space(s)] == ' ',
        forall|k: int| last_space(s) < k < s.len() ==> s[k] != ' ',
    decreases s.len(),
{
    if s.len() > 0 && s.last() != ' ' {
        let front = s.drop_last();
        last_space_is_last(front);
        assert forall|k: int| last_space(s) < k < s.len() implies s[k] != ' ' by {
            if k < front.len() {
                assert(s[k] == front[k]);
            }
        }
    }
}

/// What follows the last space is the longest end of the text that holds no
/// space: it ends the text, holds no space, and is all of the text or comes
/// right after a space.
pub proof fn after_last_space_is_last_word(s: Seq<char>)
    ensures
        after_last_space(s).len() <= s.len(),
        after_last_space(s) == s.subrange(s.len() - after_last_space(s).len(), s.len() as int),
        forall|k: int| 0 <= k < after_last_space(s).len() ==> after_last_space(s)[k] != ' ',
        after_last_space(s).len() < s.len() ==> s[s.len() - after_last_space(s).len() - 1] == ' ',
{
    last_space_is_last(s);
}

/// Adding a character moves the last space to it if it is a space, and
/// leaves it where it was if not.
proof fn last_space_step(s: Seq<char>, k: int)
    requires
        0 <= k < s.len(),
    ensures
        last_space(s.take(k + 1)) == if s[k] == ' ' {
            k
        } else {
            last_space(s.take(k))
        },
{
    assert(s.take(k + 1).drop_last() =~= s.take(k));
}

/// The part of `s` after its last space; all of `s` when it has no space.
pub fn tail_after_last_space(s: &str) -> (tail: &str)
    ensures
        tail@ == after_last_space(s@),
{
    let n: usize = s.unicode_len();
    let mut k: usize = 0;
    let mut start: usize = 0;
    for c in it: s.chars()
        invariant
            it.seq() == s@,
            n == s@.len(),
            k == it.index(),
            k <= n,
            start == last_space(s@.take(k as int)) + 1,
            start <= k,
    {
        proof {
            last_space_step(s@, k as int);
        }
        k = k + 1;
        if c == ' ' {
            start = k;
        }
    }
    assert(s@.take(k as int) =~= s@);
    s.substring_char(start, n)
}

/// Tests whether `s` has exactly `width` characters, `mark` at the positions
/// `first` and `second` and digits everywhere else.
pub fn has_shape(s: &str, width: usize, mark: char, first: usize, second: usize) -> (b: bool)
    ensures
        b == shaped(s@, width as int, mark, first as int, second as int),
{
    let mut k: usize = 0;
    for c in it: s.chars()
        invariant
            it.seq() == s@,
            k == it.index(),
            k <= width,
            forall|j: int| 0 <= j < k ==> fits_at(s@, j, mark, first as int, second as int),
    {
        if k >= width {
            return false;
        }
        let fits = if k == first || k == second {
            c == mark
        } else {
            '0' <= c && c <= '9'
        };
        if !fits {
            assert(!fits_at(s@, k as int, mark, first as int, second as int));
            return false;
        }
        k = k + 1;
    }
    k == width
}

/// A text of the shape `DD.MM.YYYY` holds digits at the eight places of its
/// three numbers.
pub proof fn date_shape_has_digits(s: Seq<char>)
    requires
        is_date_shape(s),
    ensures
        s.len() == 10,
        is_digit(s[0]) && is_digit(s[1]),
        is_digit(s[3]) && is_digit(s[4]),
        is_digit(s[6]) && is_digit(s[7]) && is_digit(s[8]) && is_digit(s[9]),
        s[2] == '.' && s[5] == '.',
{
    assert(fits_at(s, 0, '.', 2, 5) && fits_at(s, 1, '.', 2, 5) && fits_at(s, 2, '.', 2, 5));
    assert(fits_at(s, 3, '.', 2, 5) && fits_at(s, 4, '.', 2, 5) && fits_at(s, 5, '.', 2, 5));
    assert(fits_at(s, 6, '.', 2, 5) && fits_at(s, 7, '.', 2, 5));
    assert(fits_at(s, 8, '.', 2, 5) && fits_at(s, 9, '.', 2, 5));
}

/// A text of the shape `HH:MM` holds digits at the four places of its two
/// numbers.
pub proof fn time_shape_has_digits(s: Seq<char>)
    requires
        is_time_shape(s),
    ensures
        s.len() == 5,
        is_digit(s[0]) && is_digit(s[1]),
        is_digit(s[3]) && is_digit(s[4]),
        s[2] == ':',
{
    assert(fits_at(s, 0, ':', 2, 2) && fits_at(s, 1, ':', 2, 2) && fits_at(s, 2, ':', 2, 2));
    assert(fits_at(s, 3, ':', 2, 2) && fits_at(s, 4, ':', 2, 2));
}

/// The numbers of a written date are those of its digits: the day and the
/// month are below 100 and the year is below 10000.
pub proof fn written_date_is_bounded(s: Seq<char>)
    requires
        is_date_shape(s),
    ensures
        written_date(s).day == 10 * digit_value(s[0]) + digit_value(s[1]),
        written_date(s).month == 10 * digit_value(s[3]) + digit_value(s[4]),
        written_date(s).year == 1000 * digit_value(s[6]) + 100 * digit_value(s[7]) + 10
            * digit_value(s[8]) + digit_value(s[9]),
        written_date(s).day <= 99,
        written_date(s).month <= 99,
        0 <= written_date(s).year <= 9999,
{
    date_shape_has_digits(s);
}

/// The numbers of a written time are those of its digits, and both are below
/// 100.
pub proof fn written_time_is_bounded(s: Seq<char>)
    requires
        is_time_shape(s),
    ensures
        written_time(s).hour == 10 * digit_value(s[0]) + digit_value(s[1]),
        written_time(s).minute == 10 * digit_value(s[3]) + digit_value(s[4]),
        written_time(s).hour <= 99,
        written_time(s).minute <= 99,
{
    time_shape_has_digits(s);
}

/// A date that reads is the date written after the last space of its
/// fragment, and a time that reads is the time written in its fragment.
pub proof fn what_reads_is_what_is_written(fragment: Seq<char>)
    ensures
        date_of(fragment) is Ok ==> is_date_shape(after_last_space(fragment)) && date_of(
            fragment,
        )->Ok_0 == written_date(after_last_space(fragment)),
        date_of(fragment) is Err ==> date_of(fragment)->Err_0 == AgendaError::BadDate,
        time_of(fragment) is Ok ==> is_time_shape(fragment) && time_of(fragment)->Ok_0
            == written_time(fragment),
        time_of(fragment) is Err ==> time_of(fragment)->Err_0 == AgendaError::BadTime,
{
}

/// Reading a digit undoes writing it: the digit character of a number below
/// ten stands for that number.
pub proof fn digit_value_of_digit_char(d: nat)
    requires
        d < 10,
    ensures
        is_digit(digit_char(d)),
        digit_value(digit_char(d)) == d,
{
}

/// The number that a digit stands for.
pub fn value_of_digit(c: char) -> (d: u32)
    requires
        is_digit(c),
    ensures
        d == digit_value(c),
        d < 10,
{
    c as u32 - '0' as u32
}

/// Reads the number written by the two digits of `s` that start at `at`.
fn read_two_digits(s: &str, at: usize) -> (n: u32)
    requires
        at + 2 <= s@.len() <= usize::MAX,
        is_digit(s@[at as int]),
        is_digit(s@[at + 1]),
    ensures
        n == two_digits(s@, at as int),
        n < 100,
{
    10 * value_of_digit(s.get_char(at)) + value_of_digit(s.get_char(at + 1))
}

/// Reads the date that `text` writes down, if it has the shape `DD.MM.YYYY`.
/// Whether the calendar has such a day is not asked here.
pub fn read_written_date(text: &str) -> (r: Option<Date>)
    ensures
        r == if is_date_shape(text@) {
            Some(written_date(text@))
        } else {
            None
        },
{
    if !has_shape(text, 10, '.', 2, 5) {
        return None;
    }
    proof {
        date_shape_has_digits(text@);
    }
    let day = read_two_digits(text, 0);
    let month = read_two_digits(text, 3);
    let year = 100 * read_two_digits(text, 6) + read_two_digits(text, 8);
    Some(Date { year: year as i32, month, day })
}

/// Reads the time that `text` writes down, if it has the shape `HH:MM`.
/// Whether the clock has such a time is not asked here.
pub fn read_written_time(text: &str) -> (r: Option<Time>)
    ensures
        r == if is_time_shape(text@) {
            Some(written_time(text@))
        } else {
            None
        },
{
    if !has_shape(text, 5, ':', 2, 2) {
        return None;
    }
    proof {
        time_shape_has_digits(text@);
    }
    let hour = read_two_digits(text, 0);
    let minute = read_two_digits(text, 3);
    Some(Time { hour, minute })
}

/// Decides whether a written date counts, given what `chrono` read from the
/// same text.
///
/// Succeeds, with the written date, exactly when there is a reading and its
/// year, month and day are those written. Every other case is `BadDate`.
pub fn confirm_date(written: Date, reading: Option<(i32, u32, u32)>) -> (r: Result<
    Date,
    AgendaError,
>)
    ensures
        r == confirmed_date(written, reading),
{
    match reading {
        Some((year, month, day)) => if year == written.year && month == written.month && day
            == written.day {
            Ok(written)
        } else {
            Err(AgendaError::BadDate)
        },
        None => Err(AgendaError::BadDate),
    }
}

/// Decides whether a written time counts, given what `chrono` read from the
/// same text.
///
/// Succeeds, with the written time, exactly when there is a reading and its
/// hour and minute are those written. Every other case is `BadTime`.
pub fn confirm_time(written: Time, reading: Option<(u32, u32)>) -> (r: Result<Time, AgendaError>)
    ensures
        r == confirmed_time(written, reading),
{
    match reading {
        Some((hour, minute)) => if hour == written.hour && minute == written.minute {
            Ok(written)
        } else {
            Err(AgendaError::BadTime)
        },
        None => Err(AgendaError::BadTime),
    }
}

/// Reads the date of a date fragment.
///
/// Succeeds exactly when what follows the last space of the fragment has the
/// shape `DD.MM.YYYY` and `chrono`, under `%d.%m.%Y`, takes it for the date
/// that its digits write down; the result is then that date. Every other
/// case is `BadDate`.
pub fn parse_date(fragment: &str) -> (r: Result<Date, AgendaError>)
    ensures
        r == date_of(fragment@),
{
    let tail = tail_after_last_space(fragment);
    match read_written_date(tail) {
        Some(written) => confirm_date(written, chrono_date(tail, DATE_FORMAT)),
        None => Err(AgendaError::BadDate),
    }
}

/// Reads the time of a time fragment.
///
/// Succeeds exactly when the fragment has the shape `HH:MM` and `chrono`,
/// under `%H:%M`, takes it for the time that its digits write down; the
/// result is then that time. Every other case is `BadTime`.
pub fn parse_time(fragment: &str) -> (r: Result<Time, AgendaError>)
    ensures
        r == time_of(fragment@),
{
    match read_written_time(fragment) {
        Some(written) => confirm_time(written, chrono_time(fragment, TIME_FORMAT)),
        None => Err(AgendaError::BadTime),
    }
}

} // verus!

//! The local date and time, as the texts that tags and log lines carry.

use crate::text::all_digits;
use crate::text::decimal;
use crate::text::decimal_denotes;
use crate::text::digit;
use crate::text::number_of;
use vstd::prelude::*;

verus! {

/// The pattern of a date stamp: year, month and day without separators.
pub const DATE_PATTERN: &'static str = "%Y%m%d";

/// The pattern of a clock stamp: hours, minutes and seconds.
pub const CLOCK_PATTERN: &'static str = "%H:%M:%S";

/// The number `n` as two decimal digits.
pub open spec fn two_digits(n: nat) -> Seq<char> {
    seq![digit(n / 10), digit(n % 10)]
}

/// A year as a date stamp writes it: years of more than four digits have a sign.
pub open spec fn year_text(year: nat) -> Seq<char> {
    if year > 9999 {
        seq!['+'] + decimal(year)
    } else {
        decimal(year)
    }
}

/// The date stamp of a day.
pub open spec fn date_text(year: nat, month: nat, day: nat) -> Seq<char> {
    year_text(year) + two_digits(month) + two_digits(day)
}

/// The clock stamp of a time of day.
pub open spec fn clock_text(hour: nat, minute: nat, second: nat) -> Seq<char> {
    two_digits(hour) + seq![':'] + two_digits(minute) + seq![':'] + two_digits(second)
}

/// The text is the date stamp of some day since the end of 1969.
pub open spec fn is_date_stamp(text: Seq<char>) -> bool {
    exists|year: nat, month: nat, day: nat|
        year >= 1969 && 1 <= month <= 12 && 1 <= day <= 31 && text == #[trigger] date_text(
            year,
            month,
            day,
        )
}

/// The text is the clock stamp of some time of day, leap seconds among them.
pub open spec fn is_clock_stamp(text: Seq<char>) -> bool {
    exists|hour: nat, minute: nat, second: nat|
        hour <= 23 && minute <= 59 && second <= 60 && text == #[trigger] clock_text(
            hour,
            minute,
            second,
        )
}

/// `chrono::Local::now` and `DateTime::format`: the local time, in one of the
/// two patterns that this crate uses. Which moment it is depends on the clock
/// and on the time zone; claimed is the form of the text alone. `now` panics
/// where the system clock stands before 1970, which no condition on the
/// pattern can rule out.
#[verifier::external_body]
fn local_time(pattern: &str) -> (r: String)
    requires
        pattern@ == DATE_PATTERN@ || pattern@ == CLOCK_PATTERN@,
    ensures
        pattern@ == DATE_PATTERN@ ==> is_date_stamp(r@),
        pattern@ == CLOCK_PATTERN@ ==> is_clock_stamp(r@),
{
    chrono::Local::now().format(pattern).to_string()
}

/// Today's date stamp.
pub fn today() -> (r: String)
    ensures
        is_date_stamp(r@),
{
    local_time(DATE_PATTERN)
}

/// The current clock stamp.
pub fn clock_now() -> (r: String)
    ensures
        is_clock_stamp(r@),
{
    local_time(CLOCK_PATTERN)
}

/// Two digits denote their number.
pub proof fn two_digits_denote(n: nat)
    requires
        n < 100,
    ensures
        two_digits(n).len() == 2,
        all_digits(two_digits(n)),
        number_of(two_digits(n)) == n,
{
    reveal_with_fuel(number_of, 3);
    assert(two_digits(n).drop_last() =~= seq![digit(n / 10)]);
    assert(seq![digit(n / 10)].drop_last() =~= seq![]);
}

/// A date stamp is the year and, behind it, the month and the day with two digits
/// each; a year of more than four digits has a plus sign.
pub proof fn date_stamps_tell_the_day(year: nat, month: nat, day: nat)
    requires
        1 <= month <= 12,
        1 <= day <= 31,
    ensures
        ({
            let stamp = date_text(year, month, day);
            let n = stamp.len() - 4;
            &&& n > 0
            &&& number_of(stamp.subrange(n, n + 2)) == month
            &&& number_of(stamp.subrange(n + 2, n + 4)) == day
            &&& year <= 9999 ==> stamp.take(n) == decimal(year) && number_of(stamp.take(n)) == year
            &&& year > 9999 ==> stamp[0] == '+' && number_of(stamp.subrange(1, n)) == year
        }),
{
    let stamp = date_text(year, month, day);
    let n = stamp.len() - 4;
    decimal_denotes(year);
    two_digits_denote(month);
    two_digits_denote(day);
    assert(stamp.subrange(n, n + 2) =~= two_digits(month));
    assert(stamp.subrange(n + 2, n + 4) =~= two_digits(day));
    if year <= 9999 {
        assert(stamp.take(n) =~= decimal(year));
    } else {
        assert(stamp.subrange(1, n) =~= decimal(year));
    }
}

/// A clock stamp is the hour, the minute and the second with two digits each and a
/// colon between them.
pub proof fn clock_stamps_tell_the_time(hour: nat, minute: nat, second: nat)
    requires
        hour <= 23,
        minute <= 59,
        second <= 60,
    ensures
        ({
            let stamp = clock_text(hour, minute, second);
            &&& stamp.len() == 8
            &&& number_of(stamp.subrange(0, 2)) == hour
            &&& stamp[2] == ':'
            &&& number_of(stamp.subrange(3, 5)) == minute
            &&& stamp[5] == ':'
            &&& number_of(stamp.subrange(6, 8)) == second
        }),
{
    let stamp = clock_text(hour, minute, second);
    two_digits_denote(hour);
    two_digits_denote(minute);
    two_digits_denote(second);
    assert(stamp.subrange(0, 2) =~= two_digits(hour));
    assert(stamp.subrange(3, 5) =~= two_digits(minute));
    assert(stamp.subrange(6, 8) =~= two_digits(second));
}

/// A stamp is that of a day of the calendar, or of a time of the day, and every
/// such day and time has its stamp.
pub proof fn stamps_are_those_of_days_and_times(
    year: nat,
    month: nat,
    day: nat,
    hour: nat,
    minute: nat,
    second: nat,
)
    ensures
        year >= 1969 && 1 <= month <= 12 && 1 <= day <= 31 ==> is_date_stamp(
            date_text(year, month, day),
        ),
        hour <= 23 && minute <= 59 && second <= 60 ==> is_clock_stamp(
            clock_text(hour, minute, second),
        ),
{
}

} // verus!

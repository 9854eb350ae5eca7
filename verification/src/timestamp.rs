//! Instants, and the text form in which a request states one: a date and a
//! time of day with an offset from UTC, as in `2024-05-17T09:30:00.250+02:00`.
//!
//! The form is `YYYY-MM-DD`, one of `T`, `t` or a space, `HH:MM:SS`, then
//! optionally a point and one or more digits, then `Z`, `z` or a signed
//! `HH:MM`. Nothing may precede or follow. Of a fraction the first nine digits
//! count. A second of 60 is not accepted.

use vstd::prelude::*;

verus! {

/// A point in time, counted in nanoseconds from the start of 1970 in UTC.
#[derive(Clone, Copy, Debug, PartialEq, Eq, Structural)]
pub struct Instant {
    nanos: i128,
}

impl View for Instant {
    type V = int;

    closed spec fn view(&self) -> int {
        self.nanos as int
    }
}

pub const NANOS_PER_SECOND: i128 = 1_000_000_000;

impl Instant {
    /// The instant that lies so many nanoseconds after the start of 1970.
    pub fn from_unix_nanos(nanos: i128) -> (instant: Instant)
        ensures
            instant@ == nanos,
    {
        Instant { nanos }
    }

    /// The instant that lies so many whole seconds after the start of 1970.
    pub fn from_unix_seconds(seconds: i64) -> (instant: Instant)
        ensures
            instant@ == seconds * NANOS_PER_SECOND,
    {
        Instant { nanos: (seconds as i128) * NANOS_PER_SECOND }
    }

    /// The nanoseconds from the start of 1970 to this instant.
    pub fn unix_nanos(&self) -> (nanos: i128)
        ensures
            nanos == self@,
    {
        self.nanos
    }
}

/// The value of a decimal digit.
pub open spec fn spec_digit(byte: u8) -> Option<int> {
    if 0x30 <= byte <= 0x39 {
        Some(byte - 0x30)
    } else {
        None
    }
}

/// The number that `count` digits from `start` on spell, if they all are digits.
pub open spec fn spec_digits(text: Seq<u8>, start: int, count: int) -> Option<int>
    decreases count,
{
    if count <= 0 {
        Some(0)
    } else {
        match (spec_digits(text, start, count - 1), spec_digit(text[start + count - 1])) {
            (Some(high), Some(low)) => Some(high * 10 + low),
            _ => None,
        }
    }
}

/// How many digits stand in a row from `start` on.
pub open spec fn spec_digit_run(text: Seq<u8>, start: int) -> int
    decreases text.len() - start,
{
    if 0 <= start < text.len() && spec_digit(text[start]) is Some {
        1 + spec_digit_run(text, start + 1)
    } else {
        0
    }
}

/// Ten to a power.
pub open spec fn spec_pow10(exponent: int) -> int
    decreases exponent,
{
    if exponent <= 0 {
        1
    } else {
        10 * spec_pow10(exponent - 1)
    }
}

/// The nanoseconds that the digits from `start` on stand for, the first of
/// them counting units of ten to the power `places - 1`; digits beyond
/// `places` do not count.
pub open spec fn spec_fraction(text: Seq<u8>, start: int, places: int) -> int
    decreases places,
{
    if places <= 0 || !(0 <= start < text.len()) {
        0
    } else {
        match spec_digit(text[start]) {
            Some(digit) => digit * spec_pow10(places - 1) + spec_fraction(
                text,
                start + 1,
                places - 1,
            ),
            None => 0,
        }
    }
}

/// Whether a year of the Gregorian calendar has a 29th of February.
pub open spec fn spec_is_leap(year: int) -> bool {
    year % 4 == 0 && (year % 100 != 0 || year % 400 == 0)
}

/// The days of a year.
pub open spec fn spec_days_in_year(year: int) -> int {
    if spec_is_leap(year) {
        366
    } else {
        365
    }
}

/// The days of a month of a year.
pub open spec fn spec_days_in_month(year: int, month: int) -> int {
    if month == 2 {
        if spec_is_leap(year) {
            29
        } else {
            28
        }
    } else if month == 4 || month == 6 || month == 9 || month == 11 {
        30
    } else {
        31
    }
}

/// The days from the first day of the year 0 to the first day of a year.
pub open spec fn spec_days_before_year(year: int) -> int
    decreases year,
{
    if year <= 0 {
        0
    } else {
        spec_days_before_year(year - 1) + spec_days_in_year(year - 1)
    }
}

/// The days from the first day of a year to the first day of a month of it.
pub open spec fn spec_days_before_month(year: int, month: int) -> int
    decreases month,
{
    if month <= 1 {
        0
    } else {
        spec_days_before_month(year, month - 1) + spec_days_in_month(year, month - 1)
    }
}

/// The days from the first day of 1970 to a day of the calendar.
pub open spec fn spec_days_from_epoch(year: int, month: int, day: int) -> int {
    spec_days_before_year(year) + spec_days_before_month(year, month) + (day - 1)
        - spec_days_before_year(1970)
}

/// A date and a time of day, as the text states them.
pub struct CivilTime {
    pub year: int,
    pub month: int,
    pub day: int,
    pub hour: int,
    pub minute: int,
    pub second: int,
}

/// Whether there is such a day and such a time of day.
pub open spec fn spec_civil_valid(civil: CivilTime) -> bool {
    &&& 1 <= civil.month <= 12
    &&& 1 <= civil.day <= spec_days_in_month(civil.year, civil.month)
    &&& civil.hour <= 23
    &&& civil.minute <= 59
    &&& civil.second <= 59
}

/// The seconds from the start of 1970 to a date and time of day of UTC.
pub open spec fn spec_civil_seconds(civil: CivilTime) -> int {
    spec_days_from_epoch(civil.year, civil.month, civil.day) * 86400 + civil.hour * 3600
        + civil.minute * 60 + civil.second
}

/// The six numbers in the first nineteen bytes, `YYYY-MM-DDTHH:MM:SS`, where
/// the punctuation is in place.
pub open spec fn spec_civil_fields(text: Seq<u8>) -> Option<CivilTime> {
    if text.len() < 19 {
        None
    } else if text[4] != 0x2d || text[7] != 0x2d || !(text[10] == 0x54 || text[10] == 0x74
        || text[10] == 0x20) || text[13] != 0x3a || text[16] != 0x3a {
        None
    } else {
        match (
            spec_digits(text, 0, 4),
            spec_digits(text, 5, 2),
            spec_digits(text, 8, 2),
            spec_digits(text, 11, 2),
            spec_digits(text, 14, 2),
            spec_digits(text, 17, 2),
        ) {
            (Some(year), Some(month), Some(day), Some(hour), Some(minute), Some(second)) => Some(
                CivilTime { year, month, day, hour, minute, second },
            ),
            _ => None,
        }
    }
}

/// The date and time of day in the first nineteen bytes, if there is such a day and time.
pub open spec fn spec_civil(text: Seq<u8>) -> Option<CivilTime> {
    match spec_civil_fields(text) {
        Some(civil) => if spec_civil_valid(civil) {
            Some(civil)
        } else {
            None
        },
        None => None,
    }
}

/// Where the offset begins: after the seconds, or after a point and its digits.
pub open spec fn spec_offset_start(text: Seq<u8>) -> Option<int> {
    if text.len() > 19 && text[19] == 0x2e {
        if spec_digit_run(text, 20) >= 1 {
            Some(20 + spec_digit_run(text, 20))
        } else {
            None
        }
    } else {
        Some(19)
    }
}

/// The nanoseconds of the fraction, none where there is no fraction.
pub open spec fn spec_fraction_nanos(text: Seq<u8>) -> int {
    if text.len() > 19 && text[19] == 0x2e {
        spec_fraction(text, 20, 9)
    } else {
        0
    }
}

/// The seconds that local time is ahead of UTC, as the text from `start` to
/// its end states them: `Z` or `z`, or a sign with hours and minutes.
pub open spec fn spec_offset_seconds(text: Seq<u8>, start: int) -> Option<int> {
    if start + 1 == text.len() && (text[start] == 0x5a || text[start] == 0x7a) {
        Some(0)
    } else if start + 6 == text.len() && (text[start] == 0x2b || text[start] == 0x2d)
        && text[start + 3] == 0x3a {
        match (spec_digits(text, start + 1, 2), spec_digits(text, start + 4, 2)) {
            (Some(hours), Some(minutes)) => if hours <= 23 && minutes <= 59 {
                if text[start] == 0x2b {
                    Some(hours * 3600 + minutes * 60)
                } else {
                    Some(-(hours * 3600 + minutes * 60))
                }
            } else {
                None
            },
            _ => None,
        }
    } else {
        None
    }
}

/// The instant that a text states, in nanoseconds from the start of 1970, if
/// the text has the form.
pub open spec fn spec_parse_timestamp(text: Seq<u8>) -> Option<int> {
    match spec_civil(text) {
        None => None,
        Some(civil) => match spec_offset_start(text) {
            None => None,
            Some(start) => match spec_offset_seconds(text, start) {
                None => None,
                Some(offset) => Some(
                    (spec_civil_seconds(civil) - offset) * NANOS_PER_SECOND + spec_fraction_nanos(
                        text,
                    ),
                ),
            },
        },
    }
}

/// What an optional instant holds.
pub open spec fn spec_instant(instant: Option<Instant>) -> Option<int> {
    match instant {
        Some(i) => Some(i@),
        None => None,
    }
}


/// The closed form of the days before a year: 365 for every year, and one more
/// for every leap year before it.
pub proof fn lemma_days_before_year(year: int)
    requires
        0 <= year,
    ensures
        spec_days_before_year(year) == 365 * year + (year + 3) / 4 - (year + 99) / 100 + (year
            + 399) / 400,
    decreases year,
{
    if year > 0 {
        lemma_days_before_year(year - 1);
    }
}

/// The days before each month of a year.
pub proof fn lemma_days_before_month(year: int, month: int)
    requires
        1 <= month <= 12,
    ensures
        spec_days_before_month(year, month) == (if month == 1 {
            0int
        } else if month == 2 {
            31
        } else if month == 3 {
            59
        } else if month == 4 {
            90
        } else if month == 5 {
            120
        } else if month == 6 {
            151
        } else if month == 7 {
            181
        } else if month == 8 {
            212
        } else if month == 9 {
            243
        } else if month == 10 {
            273
        } else if month == 11 {
            304
        } else {
            334
        }) + (if month > 2 && spec_is_leap(year) {
            1int
        } else {
            0
        }),
{
    reveal_with_fuel(spec_days_before_month, 13);
}

/// The value of a decimal digit.
fn digit_value(byte: u8) -> (value: Option<u8>)
    ensures
        match value {
            Some(v) => spec_digit(byte) == Some(v as int),
            None => spec_digit(byte) is None,
        },
{
    if 0x30 <= byte && byte <= 0x39 {
        Some(byte - 0x30)
    } else {
        None
    }
}

/// The number that two digits spell.
fn two_digits(text: &[u8], start: usize) -> (number: Option<i64>)
    requires
        start + 2 <= text.len(),
    ensures
        match number {
            Some(n) => spec_digits(text@, start as int, 2) == Some(n as int) && 0 <= n <= 99,
            None => spec_digits(text@, start as int, 2) is None,
        },
{
    proof {
        reveal_with_fuel(spec_digits, 3);
    }
    match (digit_value(text[start]), digit_value(text[start + 1])) {
        (Some(high), Some(low)) => Some((high as i64) * 10 + (low as i64)),
        _ => None,
    }
}

/// The number that four digits spell.
fn four_digits(text: &[u8], start: usize) -> (number: Option<i64>)
    requires
        start + 4 <= text.len(),
    ensures
        match number {
            Some(n) => spec_digits(text@, start as int, 4) == Some(n as int) && 0 <= n <= 9999,
            None => spec_digits(text@, start as int, 4) is None,
        },
{
    proof {
        reveal_with_fuel(spec_digits, 5);
    }
    match (
        digit_value(text[start]),
        digit_value(text[start + 1]),
        digit_value(text[start + 2]),
        digit_value(text[start + 3]),
    ) {
        (Some(a), Some(b), Some(c), Some(d)) => Some(
            (a as i64) * 1000 + (b as i64) * 100 + (c as i64) * 10 + (d as i64),
        ),
        _ => None,
    }
}

/// Whether a year has a 29th of February.
pub fn is_leap(year: i64) -> (leap: bool)
    ensures
        leap == spec_is_leap(year as int),
{
    year % 4 == 0 && (year % 100 != 0 || year % 400 == 0)
}

/// The days of a month of a year.
pub fn days_in_month(year: i64, month: i64) -> (days: i64)
    ensures
        days == spec_days_in_month(year as int, month as int),
{
    if month == 2 {
        if is_leap(year) {
            29
        } else {
            28
        }
    } else if month == 4 || month == 6 || month == 9 || month == 11 {
        30
    } else {
        31
    }
}

/// The days from the first day of 1970 to a day of the calendar; negative before 1970.
pub fn days_from_epoch(year: i64, month: i64, day: i64) -> (days: i64)
    requires
        0 <= year <= 9999,
        1 <= month <= 12,
        1 <= day <= 31,
    ensures
        days == spec_days_from_epoch(year as int, month as int, day as int),
        -719_528 <= days <= 2_932_896,
{
    proof {
        lemma_days_before_year(year as int);
        lemma_days_before_year(1970);
        lemma_days_before_month(year as int, month as int);
    }
    let before_year: i64 = 365 * year + (year + 3) / 4 - (year + 99) / 100 + (year + 399) / 400;
    let table: i64 = if month == 1 {
        0
    } else if month == 2 {
        31
    } else if month == 3 {
        59
    } else if month == 4 {
        90
    } else if month == 5 {
        120
    } else if month == 6 {
        151
    } else if month == 7 {
        181
    } else if month == 8 {
        212
    } else if month == 9 {
        243
    } else if month == 10 {
        273
    } else if month == 11 {
        304
    } else {
        334
    };
    let leap_day: i64 = if month > 2 && is_leap(year) {
        1
    } else {
        0
    };
    before_year + table + leap_day + (day - 1) - 719528
}

/// The numbers of a date and a time of day, as read and not yet checked.
struct CivilFields {
    year: i64,
    month: i64,
    day: i64,
    hour: i64,
    minute: i64,
    second: i64,
}

impl CivilFields {
    /// The same numbers, as the specification speaks of them.
    spec fn civil(self) -> CivilTime {
        CivilTime {
            year: self.year as int,
            month: self.month as int,
            day: self.day as int,
            hour: self.hour as int,
            minute: self.minute as int,
            second: self.second as int,
        }
    }
}

/// The six numbers in the first nineteen bytes.
fn civil_fields(text: &[u8]) -> (fields: Option<CivilFields>)
    ensures
        match fields {
            Some(f) => spec_civil_fields(text@) == Some(f.civil()) && 0 <= f.year <= 9999 && 0
                <= f.month <= 99 && 0 <= f.day <= 99 && 0 <= f.hour <= 99 && 0 <= f.minute <= 99
                && 0 <= f.second <= 99,
            None => spec_civil_fields(text@) is None,
        },
{
    if text.len() < 19 {
        return None;
    }
    if text[4] != 0x2d || text[7] != 0x2d || !(text[10] == 0x54 || text[10] == 0x74 || text[10]
        == 0x20) || text[13] != 0x3a || text[16] != 0x3a {
        return None;
    }
    let year = four_digits(text, 0);
    let month = two_digits(text, 5);
    let day = two_digits(text, 8);
    let hour = two_digits(text, 11);
    let minute = two_digits(text, 14);
    let second = two_digits(text, 17);
    match (year, month, day, hour, minute, second) {
        (Some(year), Some(month), Some(day), Some(hour), Some(minute), Some(second)) => Some(
            CivilFields { year, month, day, hour, minute, second },
        ),
        _ => None,
    }
}

/// The date and time of day in the first nineteen bytes, in seconds from the
/// start of 1970 as if they were UTC.
fn civil_seconds(text: &[u8]) -> (seconds: Option<i64>)
    ensures
        match seconds {
            Some(s) => spec_civil(text@) matches Some(civil) && spec_civil_seconds(civil) == s
                && -62_167_219_200 <= s <= 253_402_300_799,
            None => spec_civil(text@) is None,
        },
{
    let fields = match civil_fields(text) {
        Some(f) => f,
        None => {
            return None;
        },
    };
    if fields.month < 1 || fields.month > 12 || fields.day < 1 || fields.day > days_in_month(
        fields.year,
        fields.month,
    ) || fields.hour > 23 || fields.minute > 59 || fields.second > 59 {
        return None;
    }
    let days = days_from_epoch(fields.year, fields.month, fields.day);
    Some(days * 86400 + fields.hour * 3600 + fields.minute * 60 + fields.second)
}

/// The fraction after the point at byte 19: its nanoseconds, and where it ends.
fn fraction(text: &[u8]) -> (parsed: (u64, usize))
    requires
        text.len() > 19,
    ensures
        parsed.0 == spec_fraction(text@, 20, 9),
        parsed.0 <= 999_999_999,
        parsed.1 == 20 + spec_digit_run(text@, 20),
        20 <= parsed.1 <= text.len(),
{
    let mut pos: usize = 20;
    let mut places: u64 = 9;
    let mut weight: u64 = 100_000_000;
    let mut nanos: u64 = 0;
    let mut more: bool = true;
    proof {
        reveal_with_fuel(spec_pow10, 10);
    }
    while more && pos < text.len() && places > 0
        invariant
            20 <= pos <= text.len(),
            places <= 9,
            places >= 1 ==> weight == spec_pow10(places - 1),
            weight <= 100_000_000,
            spec_fraction(text@, 20, 9) == nanos + spec_fraction(text@, pos as int, places as int),
            spec_digit_run(text@, 20) == (pos - 20) + spec_digit_run(text@, pos as int),
            nanos + spec_pow10(places as int) <= 1_000_000_000,
            spec_pow10(places as int) >= 1,
            !more ==> pos < text.len() && spec_digit(text@[pos as int]) is None,
        decreases (if more { 1int } else { 0int }) + text.len() - pos,
    {
        proof {
            reveal_with_fuel(spec_pow10, 10);
        }
        match digit_value(text[pos]) {
            Some(digit) => {
                assert((digit as u64) * weight + weight <= 10 * weight) by (nonlinear_arith)
                    requires
                        digit <= 9,
                        0 <= weight,
                ;
                assert((digit as u64) * weight >= 0) by (nonlinear_arith)
                    requires
                        0 <= weight,
                ;
                nanos = nanos + (digit as u64) * weight;
                weight = weight / 10;
                places = places - 1;
                pos = pos + 1;
            },
            None => {
                more = false;
            },
        }
    }
    while more && pos < text.len()
        invariant
            20 <= pos <= text.len(),
            spec_fraction(text@, 20, 9) == nanos,
            nanos <= 999_999_999,
            spec_digit_run(text@, 20) == (pos - 20) + spec_digit_run(text@, pos as int),
            !more ==> pos < text.len() && spec_digit(text@[pos as int]) is None,
        decreases (if more { 1int } else { 0int }) + text.len() - pos,
    {
        match digit_value(text[pos]) {
            Some(_) => {
                pos = pos + 1;
            },
            None => {
                more = false;
            },
        }
    }
    (nanos, pos)
}

/// The seconds that local time is ahead of UTC, as the text from `start` to its end states them.
fn offset_seconds(text: &[u8], start: usize) -> (offset: Option<i64>)
    requires
        start <= text.len(),
    ensures
        match offset {
            Some(o) => spec_offset_seconds(text@, start as int) == Some(o as int) && -86_400 < o
                < 86_400,
            None => spec_offset_seconds(text@, start as int) is None,
        },
{
    let rest = text.len() - start;
    if rest == 1 && (text[start] == 0x5a || text[start] == 0x7a) {
        Some(0)
    } else if rest == 6 && (text[start] == 0x2b || text[start] == 0x2d) && text[start + 3]
        == 0x3a {
        match (two_digits(text, start + 1), two_digits(text, start + 4)) {
            (Some(hours), Some(minutes)) => {
                if hours <= 23 && minutes <= 59 {
                    if text[start] == 0x2b {
                        Some(hours * 3600 + minutes * 60)
                    } else {
                        Some(-(hours * 3600 + minutes * 60))
                    }
                } else {
                    None
                }
            },
            _ => None,
        }
    } else {
        None
    }
}

/// The instant that a text states, if the text has the form.
pub fn parse_timestamp(text: &[u8]) -> (instant: Option<Instant>)
    ensures
        spec_instant(instant) == spec_parse_timestamp(text@),
{
    let seconds = match civil_seconds(text) {
        Some(s) => s,
        None => {
            return None;
        },
    };
    let mut nanos: u64 = 0;
    let mut start: usize = 19;
    if text.len() > 19 && text[19] == 0x2e {
        let parsed = fraction(text);
        if parsed.1 == 20 {
            return None;
        }
        nanos = parsed.0;
        start = parsed.1;
    }
    let offset = match offset_seconds(text, start) {
        Some(o) => o,
        None => {
            return None;
        },
    };
    let total: i128 = ((seconds - offset) as i128) * NANOS_PER_SECOND + (nanos as i128);
    Some(Instant { nanos: total })
}

} // verus!

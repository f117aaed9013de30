//! Date-time bounds of statistics queries: text of the fixed shape
//! `YYYY-MM-DD hh:mm`, read as UTC, sent as Unix seconds.
use chrono::Datelike;
use chrono::Timelike;
use vstd::prelude::*;
use vstd::string::*;

use crate::outcome::{Report, Stream};
use crate::text::{digit_char, digit_value, is_digit};
use crate::EXIT_CODE_INVALID_INPUT;

verus! {

/// The format handed to chrono.
pub const DATE_TIME_FORMAT: &'static str = "%Y-%m-%d %H:%M";

/// A calendar minute, with its Unix time.
#[derive(Clone, Copy, Debug, PartialEq, Eq, Structural)]
pub struct DateTimeMinute {
    pub year: i32,
    pub month: u32,
    pub day: u32,
    pub hour: u32,
    pub minute: u32,
    /// Seconds since 1970-01-01 00:00 UTC.
    pub timestamp: i64,
}

/// Year, month, day, hour and minute.
pub type WallClock = (int, int, int, int, int);

pub open spec fn wall_clock(d: DateTimeMinute) -> WallClock {
    (d.year as int, d.month as int, d.day as int, d.hour as int, d.minute as int)
}

impl DateTimeMinute {
    /// The fields name a minute that exists, and the timestamp is its Unix time.
    pub open spec fn wf(self) -> bool {
        is_valid_wall_clock(wall_clock(self)) && self.timestamp == epoch_seconds(wall_clock(self))
    }
}

pub open spec fn is_leap_year(y: int) -> bool {
    (y % 4 == 0 && y % 100 != 0) || y % 400 == 0
}

pub open spec fn days_in_month(y: int, m: int) -> int {
    if m == 2 {
        if is_leap_year(y) {
            29
        } else {
            28
        }
    } else if m == 4 || m == 6 || m == 9 || m == 11 {
        30
    } else {
        31
    }
}

/// A minute that exists on the proleptic Gregorian calendar.
pub open spec fn is_valid_wall_clock(w: WallClock) -> bool {
    &&& 1 <= w.1 <= 12
    &&& 1 <= w.2 <= days_in_month(w.0, w.1)
    &&& 0 <= w.3 < 24
    &&& 0 <= w.4 < 60
}

/// Days of the months before `m` in year `y`.
pub open spec fn days_before_month(y: int, m: int) -> int
    decreases m,
{
    if m <= 1 {
        0
    } else {
        days_before_month(y, m - 1) + days_in_month(y, m - 1)
    }
}

/// Leap years in `[0, y)`, for `y >= 0` (year 0 is a leap year).
pub open spec fn leap_years_before(y: int) -> int {
    1 + (y - 1) / 4 - (y - 1) / 100 + (y - 1) / 400
}

/// Days from 1970-01-01 to the given date.
pub open spec fn days_since_epoch(y: int, m: int, d: int) -> int {
    365 * (y - 1970) + leap_years_before(y) - leap_years_before(1970) + days_before_month(y, m) + d
        - 1
}

/// Unix time of a minute read as UTC.
pub open spec fn epoch_seconds(w: WallClock) -> int {
    days_since_epoch(w.0, w.1, w.2) * 86400 + w.3 * 3600 + w.4 * 60
}

/// Positions of the separators in `YYYY-MM-DD hh:mm`.
pub open spec fn is_separator_position(i: int) -> bool {
    i == 4 || i == 7 || i == 10 || i == 13
}

/// Text of the shape `YYYY-MM-DD hh:mm`: sixteen characters, digits but for the separators.
pub open spec fn has_date_time_shape(s: Seq<char>) -> bool {
    &&& s.len() == 16
    &&& s[4] == '-'
    &&& s[7] == '-'
    &&& s[10] == ' '
    &&& s[13] == ':'
    &&& forall|i: int| 0 <= i < 16 && !is_separator_position(i) ==> is_digit(#[trigger] s[i])
}

pub open spec fn two_digits(s: Seq<char>, i: int) -> int {
    (digit_value(s[i]) * 10 + digit_value(s[i + 1])) as int
}

/// The numbers written in text of the fixed shape.
pub open spec fn shape_fields(s: Seq<char>) -> WallClock {
    (
        (digit_value(s[0]) * 1000 + digit_value(s[1]) * 100 + digit_value(s[2]) * 10
            + digit_value(s[3])) as int,
        two_digits(s, 5),
        two_digits(s, 8),
        two_digits(s, 11),
        two_digits(s, 14),
    )
}

/// What a date-time argument denotes: the minute it writes, when the text has
/// the fixed shape and the minute exists.
pub open spec fn date_time_of(s: Seq<char>) -> Option<WallClock> {
    if has_date_time_shape(s) && is_valid_wall_clock(shape_fields(s)) {
        Some(shape_fields(s))
    } else {
        None
    }
}

/// A minute of the years 0 to 9999 written as `YYYY-MM-DD hh:mm`.
pub open spec fn date_time_text(w: WallClock) -> Seq<char> {
    seq![
        digit_char((w.0 / 1000) as nat),
        digit_char(((w.0 / 100) % 10) as nat),
        digit_char(((w.0 / 10) % 10) as nat),
        digit_char((w.0 % 10) as nat),
        '-',
        digit_char((w.1 / 10) as nat),
        digit_char((w.1 % 10) as nat),
        '-',
        digit_char((w.2 / 10) as nat),
        digit_char((w.2 % 10) as nat),
        ' ',
        digit_char((w.3 / 10) as nat),
        digit_char((w.3 % 10) as nat),
        ':',
        digit_char((w.4 / 10) as nat),
        digit_char((w.4 % 10) as nat),
    ]
}

/// Relies on chrono's `NaiveDateTime::parse_from_str` with `%Y-%m-%d %H:%M`:
/// on text of the fixed shape it succeeds exactly for the minutes that exist,
/// and reads the numbers as written; `and_utc().timestamp()` then gives their
/// Unix time.
#[verifier::external_body]
fn chrono_parse_minute(s: &str, fmt: &str) -> (r: Option<DateTimeMinute>)
    requires
        has_date_time_shape(s@),
        fmt@ == DATE_TIME_FORMAT@,
    ensures
        r is Some <==> is_valid_wall_clock(shape_fields(s@)),
        r is Some ==> wall_clock(r->0) == shape_fields(s@) && r->0.timestamp == epoch_seconds(
            shape_fields(s@),
        ),
{
    match chrono::NaiveDateTime::parse_from_str(s, fmt) {
        Ok(dt) => Some(
            DateTimeMinute {
                year: dt.year(),
                month: dt.month(),
                day: dt.day(),
                hour: dt.hour(),
                minute: dt.minute(),
                timestamp: dt.and_utc().timestamp(),
            },
        ),
        Err(_) => None,
    }
}

/// Checks that `s` has the shape `YYYY-MM-DD hh:mm`.
pub fn is_date_time_shaped(s: &str) -> (r: bool)
    ensures
        r == has_date_time_shape(s@),
{
    if s.unicode_len() != 16 {
        return false;
    }
    let mut i: usize = 0;
    while i < 16
        invariant
            s@.len() == 16,
            i <= 16,
            forall|j: int| 0 <= j < i && !is_separator_position(j) ==> is_digit(#[trigger] s@[j]),
            i > 4 ==> s@[4] == '-',
            i > 7 ==> s@[7] == '-',
            i > 10 ==> s@[10] == ' ',
            i > 13 ==> s@[13] == ':',
        decreases 16 - i,
    {
        let c = s.get_char(i);
        let ok = if i == 4 || i == 7 {
            c == '-'
        } else if i == 10 {
            c == ' '
        } else if i == 13 {
            c == ':'
        } else {
            '0' <= c && c <= '9'
        };
        if !ok {
            return false;
        }
        i = i + 1;
    }
    true
}

/// Parses a date-time argument of the shape `YYYY-MM-DD hh:mm` (UTC). Text of
/// another shape, or a minute that does not exist, gives `error_msg` and the
/// invalid-input exit code.
pub fn parse_date_time_or_exit(input: &str, error_msg: &str) -> (r: Result<DateTimeMinute, Report>)
    ensures
        r is Ok <==> date_time_of(input@) is Some,
        r is Ok ==> r->Ok_0.wf() && wall_clock(r->Ok_0) == date_time_of(input@)->0,
        r is Err ==> r->Err_0.message@ == error_msg@ && r->Err_0.stream == Stream::Stdout
            && r->Err_0.exit_code == EXIT_CODE_INVALID_INPUT,
{
    if !is_date_time_shaped(input) {
        return Err(Report::new(String::from_str(error_msg), Stream::Stdout, EXIT_CODE_INVALID_INPUT));
    }
    match chrono_parse_minute(input, DATE_TIME_FORMAT) {
        Some(d) => Ok(d),
        None => Err(Report::new(String::from_str(error_msg), Stream::Stdout, EXIT_CODE_INVALID_INPUT)),
    }
}

proof fn lemma_digit_round_trip(d: nat)
    requires
        d < 10,
    ensures
        digit_value(digit_char(d)) == d,
{
    assert(digit_value('0') == 0);
    assert(digit_value('9') == 9);
}

proof fn lemma_char_round_trip(c: char)
    requires
        is_digit(c),
    ensures
        digit_value(c) < 10,
        digit_char(digit_value(c)) == c,
{
}

proof fn lemma_split_two(n: int)
    requires
        0 <= n < 100,
    ensures
        0 <= n / 10 < 10,
        0 <= n % 10 < 10,
        (n / 10) * 10 + n % 10 == n,
{
}

proof fn lemma_split_four(y: int)
    requires
        0 <= y <= 9999,
    ensures
        0 <= y / 1000 < 10,
        0 <= (y / 100) % 10 < 10,
        0 <= (y / 10) % 10 < 10,
        0 <= y % 10 < 10,
        (y / 1000) * 1000 + ((y / 100) % 10) * 100 + ((y / 10) % 10) * 10 + y % 10 == y,
{
}

proof fn lemma_join_two(a: int, b: int)
    requires
        0 <= a < 10,
        0 <= b < 10,
    ensures
        (a * 10 + b) / 10 == a,
        (a * 10 + b) % 10 == b,
{
}

proof fn lemma_join_four(a: int, b: int, c: int, d: int)
    requires
        0 <= a < 10,
        0 <= b < 10,
        0 <= c < 10,
        0 <= d < 10,
    ensures
        (a * 1000 + b * 100 + c * 10 + d) / 1000 == a,
        ((a * 1000 + b * 100 + c * 10 + d) / 100) % 10 == b,
        ((a * 1000 + b * 100 + c * 10 + d) / 10) % 10 == c,
        (a * 1000 + b * 100 + c * 10 + d) % 10 == d,
{
    let y = a * 1000 + b * 100 + c * 10 + d;
    let high = a * 10 + b;
    let low = c * 10 + d;
    assert(y == high * 100 + low);
    assert(0 <= low < 100);
    assert(y / 100 == high);
    lemma_join_two(a, b);
    let q = a * 100 + b * 10 + c;
    assert(y == q * 10 + d);
    assert(y / 10 == q);
    assert(q == (a * 10 + b) * 10 + c);
    assert(q % 10 == c);
    assert(y == a * 1000 + (b * 100 + c * 10 + d));
}

/// Every minute of the years 0 to 9999 that exists, written as
/// `YYYY-MM-DD hh:mm`, parses back to the same minute.
#[verifier::rlimit(50)]
pub proof fn lemma_date_time_round_trip(w: WallClock)
    requires
        0 <= w.0 <= 9999,
        is_valid_wall_clock(w),
    ensures
        date_time_of(date_time_text(w)) == Some(w),
{
    let t = date_time_text(w);
    lemma_split_four(w.0);
    lemma_split_two(w.1);
    lemma_split_two(w.2);
    lemma_split_two(w.3);
    lemma_split_two(w.4);
    lemma_digit_round_trip((w.0 / 1000) as nat);
    lemma_digit_round_trip(((w.0 / 100) % 10) as nat);
    lemma_digit_round_trip(((w.0 / 10) % 10) as nat);
    lemma_digit_round_trip((w.0 % 10) as nat);
    lemma_digit_round_trip((w.1 / 10) as nat);
    lemma_digit_round_trip((w.1 % 10) as nat);
    lemma_digit_round_trip((w.2 / 10) as nat);
    lemma_digit_round_trip((w.2 % 10) as nat);
    lemma_digit_round_trip((w.3 / 10) as nat);
    lemma_digit_round_trip((w.3 % 10) as nat);
    lemma_digit_round_trip((w.4 / 10) as nat);
    lemma_digit_round_trip((w.4 % 10) as nat);
    assert(t.len() == 16);
    assert forall|i: int| 0 <= i < 16 && !is_separator_position(i) implies is_digit(#[trigger] t[i]) by {
    }
    assert(has_date_time_shape(t));
    assert(shape_fields(t) == w);
}

/// Only the text of the fixed shape for an existing minute is accepted: any
/// other separator, length, or an out-of-range field is rejected.
#[verifier::rlimit(50)]
pub proof fn lemma_date_time_only_canonical(s: Seq<char>)
    requires
        date_time_of(s) is Some,
    ensures
        s == date_time_text(date_time_of(s)->0),
{
    let w = shape_fields(s);
    let d0 = digit_value(s[0]) as int;
    let d1 = digit_value(s[1]) as int;
    let d2 = digit_value(s[2]) as int;
    let d3 = digit_value(s[3]) as int;
    lemma_char_round_trip(s[0]);
    lemma_char_round_trip(s[1]);
    lemma_char_round_trip(s[2]);
    lemma_char_round_trip(s[3]);
    lemma_char_round_trip(s[5]);
    lemma_char_round_trip(s[6]);
    lemma_char_round_trip(s[8]);
    lemma_char_round_trip(s[9]);
    lemma_char_round_trip(s[11]);
    lemma_char_round_trip(s[12]);
    lemma_char_round_trip(s[14]);
    lemma_char_round_trip(s[15]);
    lemma_join_four(d0, d1, d2, d3);
    lemma_join_two(digit_value(s[5]) as int, digit_value(s[6]) as int);
    lemma_join_two(digit_value(s[8]) as int, digit_value(s[9]) as int);
    lemma_join_two(digit_value(s[11]) as int, digit_value(s[12]) as int);
    lemma_join_two(digit_value(s[14]) as int, digit_value(s[15]) as int);
    let t = date_time_text(w);
    assert(t =~= s);
}

} // verus!

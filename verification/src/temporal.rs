//! Dates, instants and durations, each held as the count that the engine
//! exchanges: days since 1970-01-01, nanoseconds since the start of that
//! day in UTC, and nanoseconds of elapsed time.
//!
//! Which counts name a date or an instant of the calendar, how one reads
//! as text, and what count a calendar date has, is asked of the `time`
//! crate.

use vstd::prelude::*;

verus! {

/// Division that rounds toward zero, for a positive divisor.
pub open spec fn trunc_div(a: int, b: int) -> int
    recommends
        b > 0,
{
    if a >= 0 {
        a / b
    } else {
        -((-a) / b)
    }
}

/// The day counts that name a date of the calendar: 1 January of the year
/// -9999 up to 31 December 9999.
pub open spec fn date_in_range(days: int) -> bool {
    -4_371_587 <= days <= 2_932_896
}

/// The nanosecond counts that name an instant of the calendar: from the
/// start of its first day to the last nanosecond of its last day.
pub open spec fn date_time_in_range(nanos: int) -> bool {
    -377_705_116_800_000_000_000 <= nanos <= 253_402_300_799_999_999_999
}

/// The nanosecond counts that a duration can hold: whole seconds that fit
/// 64 bits, and less than a second beside them.
pub open spec fn duration_in_range(nanos: int) -> bool {
    -9_223_372_036_854_775_808_999_999_999 <= nanos <= 9_223_372_036_854_775_807_999_999_999
}

/// The text that `time` gives the date so many days from 1970-01-01.
pub uninterp spec fn date_text(days: int) -> Seq<char>;

/// The text that `time` gives the UTC instant so many seconds and
/// nanoseconds from the start of 1970.
pub uninterp spec fn offset_date_time_text(seconds: int, nanoseconds: int) -> Seq<char>;

/// The text that `time` gives a duration of so many seconds and
/// nanoseconds.
pub uninterp spec fn signed_duration_text(seconds: int, nanoseconds: int) -> Seq<char>;

/// The text of the instant so many nanoseconds from the start of 1970:
/// that of its whole seconds and of the nanoseconds beside them.
pub open spec fn date_time_text(nanos: int) -> Seq<char> {
    offset_date_time_text(
        trunc_div(nanos, 1_000_000_000),
        nanos - trunc_div(nanos, 1_000_000_000) * 1_000_000_000,
    )
}

/// The text of a duration of so many nanoseconds: that of its whole
/// seconds and of the nanoseconds beside them.
pub open spec fn duration_text(nanos: int) -> Seq<char> {
    signed_duration_text(
        trunc_div(nanos, 1_000_000_000),
        nanos - trunc_div(nanos, 1_000_000_000) * 1_000_000_000,
    )
}

/// The days from 1970-01-01 to the date that `time` makes of a year, a
/// month and a day of the month, where it makes one.
pub uninterp spec fn calendar_unix_days(year: int, month: int, day: int) -> Option<int>;

/// Asks `time::Date::checked_add` for 1970-01-01 plus a number of days.
/// Claims what its documentation says: a date comes back unless the sum
/// leaves the calendar, whose ends `Date::MIN` and `Date::MAX` are, in the
/// crate without its feature for large dates, the first day of -9999 and
/// the last day of 9999.
#[verifier::external_body]
fn date_is_representable(days: i32) -> (r: bool)
    ensures
        r == date_in_range(days as int),
{
    time::Date::from_calendar_date(1970, time::Month::January, 1).unwrap().checked_add(
        time::Duration::days(days as i64),
    ).is_some()
}

/// Asks `time::Date::from_calendar_date` for a date and counts its days
/// from 1970-01-01.  Claims that the count is a function of the three
/// numbers, and that the date, being one of the calendar, is in range.
#[verifier::external_body]
fn calendar_to_unix_days(year: i32, month: u8, day: u8) -> (r: Option<i32>)
    ensures
        r matches Some(d) ==> date_in_range(d as int),
        calendar_unix_days(year as int, month as int, day as int) == match r {
            Some(d) => Some(d as int),
            None => None,
        },
{
    let epoch = time::Date::from_calendar_date(1970, time::Month::January, 1).unwrap();
    let month = time::Month::try_from(month).ok()?;
    let date = time::Date::from_calendar_date(year, month, day).ok()?;
    Some((date - epoch).whole_days() as i32)
}

/// Formats a date with `time`'s `Display` for `Date`.  Claims only that
/// the text is a function of the day count.
#[verifier::external_body]
fn date_to_string(days: i32) -> (s: String)
    requires
        date_in_range(days as int),
    ensures
        s@ == date_text(days as int),
{
    let epoch = time::Date::from_calendar_date(1970, time::Month::January, 1).unwrap();
    (epoch + time::Duration::days(days as i64)).to_string()
}

/// Asks `time::OffsetDateTime::checked_add` for the start of 1970 in UTC
/// plus a duration.  Claims what its documentation says: an instant comes
/// back unless the sum leaves the calendar, which for an instant in UTC
/// runs from the start of `Date::MIN` to the last nanosecond of
/// `Date::MAX`.
#[verifier::external_body]
fn date_time_is_representable(seconds: i64, nanoseconds: i32) -> (r: bool)
    requires
        -1_000_000_000 < nanoseconds < 1_000_000_000,
    ensures
        r == date_time_in_range(seconds * 1_000_000_000 + nanoseconds),
{
    time::OffsetDateTime::UNIX_EPOCH.checked_add(time::Duration::new(seconds, nanoseconds)).is_some()
}

/// Formats an instant with `time`'s `Display` for `OffsetDateTime`.
/// Claims only that the text is a function of the two counts.
#[verifier::external_body]
fn date_time_to_string(seconds: i64, nanoseconds: i32) -> (s: String)
    requires
        -1_000_000_000 < nanoseconds < 1_000_000_000,
        date_time_in_range(seconds * 1_000_000_000 + nanoseconds),
    ensures
        s@ == offset_date_time_text(seconds as int, nanoseconds as int),
{
    (time::OffsetDateTime::UNIX_EPOCH + time::Duration::new(seconds, nanoseconds)).to_string()
}

/// Formats a duration with `time`'s `Display` for `Duration`.  Claims only
/// that the text is a function of the two counts.
#[verifier::external_body]
fn duration_to_string(seconds: i64, nanoseconds: i32) -> (s: String)
    requires
        -1_000_000_000 < nanoseconds < 1_000_000_000,
    ensures
        s@ == signed_duration_text(seconds as int, nanoseconds as int),
{
    time::Duration::new(seconds, nanoseconds).to_string()
}

/// A date of the proleptic Gregorian calendar, held as its days from
/// 1970-01-01.  Its view is that count.
#[derive(Debug, Clone, Copy, PartialEq, Eq, PartialOrd, Ord, Hash)]
pub struct Date {
    days: i32,
}

impl View for Date {
    type V = int;

    closed spec fn view(&self) -> int {
        self.days as int
    }
}

impl Date {
    #[verifier::type_invariant]
    spec fn inv(self) -> bool {
        date_in_range(self.days as int)
    }

    /// The date so many days from 1970-01-01, if the calendar has it.
    pub fn from_unix_days(days: i32) -> (r: Option<Date>)
        ensures
            r is Some <==> date_in_range(days as int),
            r matches Some(d) ==> d@ == days,
    {
        if date_is_representable(days) {
            Some(Date { days })
        } else {
            None
        }
    }

    /// The days from 1970-01-01 to this date.
    pub fn unix_days(&self) -> (r: i32)
        ensures
            r == self@,
            date_in_range(self@),
    {
        proof {
            use_type_invariant(self);
        }
        self.days
    }

    /// The date with this year, month (1 to 12) and day of the month, if
    /// there is one.
    pub fn from_calendar_date(year: i32, month: u8, day: u8) -> (r: Option<Date>)
        ensures
            match calendar_unix_days(year as int, month as int, day as int) {
                Some(d) => r matches Some(date) && date@ == d,
                None => r is None,
            },
    {
        match calendar_to_unix_days(year, month, day) {
            Some(days) => Some(Date { days }),
            None => None,
        }
    }

    /// The date as text.
    pub fn display(&self) -> (s: String)
        ensures
            s@ == date_text(self@),
    {
        proof {
            use_type_invariant(self);
        }
        date_to_string(self.days)
    }
}

/// An instant, held as its nanoseconds from the start of 1970 in UTC.  Its
/// view is that count.
#[derive(Debug, Clone, Copy, PartialEq, Eq, PartialOrd, Ord, Hash)]
pub struct DateTime {
    nanos: i128,
}

impl View for DateTime {
    type V = int;

    closed spec fn view(&self) -> int {
        self.nanos as int
    }
}

impl DateTime {
    #[verifier::type_invariant]
    spec fn inv(self) -> bool {
        date_time_in_range(self.nanos as int)
    }

    /// The instant so many nanoseconds from the start of 1970, if the
    /// calendar has it.
    pub fn from_unix_nanos(nanos: i128) -> (r: Option<DateTime>)
        ensures
            r is Some <==> date_time_in_range(nanos as int),
            r matches Some(t) ==> t@ == nanos,
    {
        if nanos < -1_000_000_000_000_000_000_000_000 || nanos > 1_000_000_000_000_000_000_000_000 {
            return None;
        }
        let seconds: i64 = (nanos / 1_000_000_000) as i64;
        let nanoseconds: i32 = (nanos % 1_000_000_000) as i32;
        if date_time_is_representable(seconds, nanoseconds) {
            Some(DateTime { nanos })
        } else {
            None
        }
    }

    /// The nanoseconds from the start of 1970 to this instant.
    pub fn unix_nanos(&self) -> (r: i128)
        ensures
            r == self@,
            date_time_in_range(self@),
    {
        proof {
            use_type_invariant(self);
        }
        self.nanos
    }

    /// The instant as text.
    pub fn display(&self) -> (s: String)
        ensures
            s@ == date_time_text(self@),
    {
        proof {
            use_type_invariant(self);
        }
        let seconds: i64 = (self.nanos / 1_000_000_000) as i64;
        let nanoseconds: i32 = (self.nanos % 1_000_000_000) as i32;
        date_time_to_string(seconds, nanoseconds)
    }
}

/// A signed span of time, held as its nanoseconds.  Its view is that
/// count.
#[derive(Debug, Clone, Copy, PartialEq, Eq, PartialOrd, Ord, Hash)]
pub struct Duration {
    nanos: i128,
}

impl View for Duration {
    type V = int;

    closed spec fn view(&self) -> int {
        self.nanos as int
    }
}

/// The nanoseconds of an interval of months, days and microseconds, a
/// month counting as 30 days.
pub open spec fn interval_nanos(months: int, days: int, micros: int) -> int {
    ((months * 30 + days) * 86_400_000_000 + micros) * 1000
}

/// The months that a span of nanoseconds holds: its whole days, 30 to a
/// month.
pub open spec fn interval_months(nanos: int) -> int {
    trunc_div(trunc_div(nanos, 86_400_000_000_000), 30)
}

/// The whole days that are left of a span beside its months.
pub open spec fn interval_days(nanos: int) -> int {
    trunc_div(nanos - interval_months(nanos) * 30 * 86_400_000_000_000, 86_400_000_000_000)
}

/// The whole microseconds that are left of a span beside its months and
/// days.
pub open spec fn interval_micros(nanos: int) -> int {
    trunc_div(
        nanos - (interval_months(nanos) * 30 + interval_days(nanos)) * 86_400_000_000_000,
        1000,
    )
}

/// The spans that an interval holds exactly: whole microseconds, with
/// months that fit 32 bits.
pub open spec fn interval_exact(nanos: int) -> bool {
    nanos % 1000 == 0 && -0x8000_0000 <= interval_months(nanos) <= 0x7fff_ffff
}

/// A span that an interval holds exactly is the span of its months, days
/// and microseconds.
pub proof fn lemma_interval_round_trip(nanos: int)
    requires
        interval_exact(nanos),
    ensures
        interval_nanos(
            interval_months(nanos) as i32 as int,
            interval_days(nanos) as i32 as int,
            interval_micros(nanos) as i64 as int,
        ) == nanos,
        -30 < interval_days(nanos) < 30,
        -86_400_000_000 < interval_micros(nanos) < 86_400_000_000,
{
}

/// A span that an interval does not hold exactly is not the span of its
/// months, days and microseconds, the months cut to 32 bits.
pub proof fn lemma_interval_inexact(nanos: int)
    requires
        !interval_exact(nanos),
    ensures
        interval_nanos(
            interval_months(nanos) as i32 as int,
            interval_days(nanos) as i32 as int,
            interval_micros(nanos) as i64 as int,
        ) != nanos,
{
    if nanos % 1000 == 0 {
        let cut = interval_months(nanos) as i32 as int;
        assert(cut != interval_months(nanos));
        assert(-30 < interval_days(nanos) < 30);
        assert(-86_400_000_000 < interval_micros(nanos) < 86_400_000_000);
    }
}

impl Duration {
    #[verifier::type_invariant]
    spec fn inv(self) -> bool {
        duration_in_range(self.nanos as int)
    }

    /// The span of so many nanoseconds, if a duration can hold it.
    pub fn from_nanoseconds(nanos: i128) -> (r: Option<Duration>)
        ensures
            r is Some <==> duration_in_range(nanos as int),
            r matches Some(d) ==> d@ == nanos,
    {
        if nanos < -9_223_372_036_854_775_808_999_999_999 || nanos
            > 9_223_372_036_854_775_807_999_999_999 {
            None
        } else {
            Some(Duration { nanos })
        }
    }

    /// The span of `seconds` seconds and `nanoseconds` nanoseconds, if a
    /// duration can hold it.
    pub fn new(seconds: i64, nanoseconds: i32) -> (r: Option<Duration>)
        ensures
            r is Some <==> duration_in_range(seconds * 1_000_000_000 + nanoseconds),
            r matches Some(d) ==> d@ == seconds * 1_000_000_000 + nanoseconds,
    {
        let nanos: i128 = (seconds as i128) * 1_000_000_000 + (nanoseconds as i128);
        Duration::from_nanoseconds(nanos)
    }

    /// The span in nanoseconds.
    pub fn whole_nanoseconds(&self) -> (r: i128)
        ensures
            r == self@,
            duration_in_range(self@),
    {
        proof {
            use_type_invariant(self);
        }
        self.nanos
    }

    /// The whole seconds of the span, rounded toward zero.
    pub fn whole_seconds(&self) -> (r: i64)
        ensures
            r == trunc_div(self@, 1_000_000_000),
    {
        proof {
            use_type_invariant(self);
        }
        (self.nanos / 1_000_000_000) as i64
    }

    /// The nanoseconds of the span beside its whole seconds.
    pub fn subsec_nanoseconds(&self) -> (r: i32)
        ensures
            r == self@ - trunc_div(self@, 1_000_000_000) * 1_000_000_000,
            -1_000_000_000 < r < 1_000_000_000,
    {
        proof {
            use_type_invariant(self);
        }
        (self.nanos % 1_000_000_000) as i32
    }

    /// The span of an interval of months, days and microseconds, a month
    /// counting as 30 days.
    pub fn from_interval(months: i32, days: i32, micros: i64) -> (r: Duration)
        ensures
            r@ == interval_nanos(months as int, days as int, micros as int),
    {
        let whole_days: i128 = (months as i128) * 30 + (days as i128);
        let nanos: i128 = (whole_days * 86_400_000_000 + (micros as i128)) * 1000;
        Duration { nanos }
    }

    /// Splits the span into months of 30 days, days and microseconds.
    /// What is left beside whole microseconds is dropped, and months
    /// beyond 32 bits are cut to their low 32 bits.
    pub fn to_interval(&self) -> (r: (i32, i32, i64))
        ensures
            r.0 == interval_months(self@) as i32,
            r.1 == interval_days(self@),
            r.2 == interval_micros(self@),
    {
        proof {
            use_type_invariant(self);
        }
        let whole_days: i128 = self.nanos / 86_400_000_000_000;
        let months: i128 = whole_days / 30;
        let rest: i128 = self.nanos - months * 30 * 86_400_000_000_000;
        let days: i128 = rest / 86_400_000_000_000;
        let rest: i128 = rest - days * 86_400_000_000_000;
        let micros: i128 = rest / 1000;
        (#[verifier::truncate] (months as i32), days as i32, micros as i64)
    }

    /// The span as text.
    pub fn display(&self) -> (s: String)
        ensures
            s@ == duration_text(self@),
    {
        proof {
            use_type_invariant(self);
        }
        let seconds: i64 = (self.nanos / 1_000_000_000) as i64;
        let nanoseconds: i32 = (self.nanos % 1_000_000_000) as i32;
        duration_to_string(seconds, nanoseconds)
    }
}

} // verus!

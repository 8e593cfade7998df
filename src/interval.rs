//! Calendar intervals for the analytics that are computed per day, week, month or year.
use vstd::prelude::*;

use crate::addresses::{AddressActivityMeasurement, AddressSet};
use crate::types::Address;

verus! {

/// Whether `y` is a leap year of the proleptic Gregorian calendar.
pub open spec fn is_leap_year(y: int) -> bool {
    (y % 4 == 0 && y % 100 != 0) || y % 400 == 0
}

/// The number of days of month `m` of year `y`.
pub open spec fn days_in_month(y: int, m: int) -> int {
    if m == 2 {
        if is_leap_year(y) {
            29
        } else {
            28
        }
    } else if m == 4 || m == 6 || m == 9 || m == 11 {
        30
    } else {
        31
    }
}

/// The number of days of year `y`.
pub open spec fn days_in_year(y: int) -> int {
    if is_leap_year(y) {
        366
    } else {
        365
    }
}

/// The number of days from the first day of year 0 to the first day of year `y` (negative
/// for years before 0).
pub open spec fn days_before_year(y: int) -> int {
    365 * y + (y + 3) / 4 - (y + 99) / 100 + (y + 399) / 400
}

/// The number of days of year `y` before the first day of month `m`.
pub open spec fn days_before_month(y: int, m: int) -> int
    decreases m,
{
    if m <= 1 {
        0
    } else {
        days_before_month(y, m - 1) + days_in_month(y, m - 1)
    }
}

/// A date of the proleptic Gregorian calendar.
#[derive(Clone, Copy, Debug, PartialEq, Eq, Structural)]
pub struct CalendarDate {
    pub year: i32,
    pub month: u8,
    pub day: u8,
}

impl CalendarDate {
    /// A real date, within the years that dates can take.
    pub open spec fn wf(self) -> bool {
        &&& -9999 <= self.year <= 9999
        &&& 1 <= self.month <= 12
        &&& 1 <= self.day <= days_in_month(self.year as int, self.month as int)
    }

    /// The number of days from the first day of year 0 to this date.
    pub open spec fn day_number(self) -> int {
        days_before_year(self.year as int) + days_before_month(self.year as int, self.month as int)
            + self.day - 1
    }
}

/// Relies on `time::util::days_in_month`: the length of a month of the proleptic Gregorian
/// calendar.
#[verifier::external_body]
fn month_length(year: i32, month: u8) -> (r: u8)
    requires
        1 <= month <= 12,
    ensures
        r == days_in_month(year as int, month as int),
{
    time::util::days_in_month(time::Month::try_from(month).unwrap(), year)
}

/// Relies on `time::util::days_in_year`: the length of a year of the proleptic Gregorian
/// calendar.
#[verifier::external_body]
fn year_length(year: i32) -> (r: u16)
    ensures
        r == days_in_year(year as int),
{
    time::util::days_in_year(year)
}

/// The day number of 9999-12-31, the last date that `time` represents.
pub open spec fn last_day_number() -> int {
    (CalendarDate { year: 9999, month: 12, day: 31 }).day_number()
}

/// Relies on `time::Date::from_calendar_date` and on adding a `time::Duration` of whole days
/// to a `time::Date`: the date that many days later. The addition panics past 9999-12-31,
/// which the requirement on the end rules out.
#[verifier::external_body]
fn add_days(date: &CalendarDate, days: u16) -> (r: CalendarDate)
    requires
        date.wf(),
        date.day_number() + days <= last_day_number(),
    ensures
        r.wf(),
        r.day_number() == date.day_number() + days,
{
    let month = time::Month::try_from(date.month).unwrap();
    let start = time::Date::from_calendar_date(date.year, month, date.day).unwrap();
    let end = start + time::Duration::days(days as i64);
    CalendarDate { year: end.year(), month: u8::from(end.month()), day: end.day() }
}

/// The calendar intervals over which analytics are computed.
#[derive(Clone, Copy, Debug, PartialEq, Eq, Structural)]
pub enum AnalyticsInterval {
    Day,
    Week,
    Month,
    Year,
}

impl AnalyticsInterval {
    /// The number of days of the interval that starts at `start`.
    pub open spec fn days_from(self, start: CalendarDate) -> int {
        match self {
            AnalyticsInterval::Day => 1,
            AnalyticsInterval::Week => 7,
            AnalyticsInterval::Month => days_in_month(start.year as int, start.month as int),
            AnalyticsInterval::Year => days_in_year(start.year as int),
        }
    }

    /// Get the duration, in days, based on the start date and interval.
    pub fn to_duration(&self, start_date: &CalendarDate) -> (r: u16)
        requires
            start_date.wf(),
        ensures
            r == self.days_from(*start_date),
    {
        match self {
            AnalyticsInterval::Day => 1,
            AnalyticsInterval::Week => 7,
            AnalyticsInterval::Month => month_length(start_date.year, start_date.month) as u16,
            AnalyticsInterval::Year => year_length(start_date.year),
        }
    }

    /// Get the exclusive end date based on the start date and interval. The end must be a
    /// date that can be represented, at the latest 9999-12-31.
    pub fn end_date(&self, start_date: &CalendarDate) -> (r: CalendarDate)
        requires
            start_date.wf(),
            start_date.day_number() + self.days_from(*start_date) <= last_day_number(),
        ensures
            r.wf(),
            r.day_number() == start_date.day_number() + self.days_from(*start_date),
    {
        let days = self.to_duration(start_date);
        add_days(start_date, days)
    }

    /// The name under which the interval's measurements are stored.
    pub fn name(&self) -> (r: &'static str)
        ensures
            r@ == match self {
                AnalyticsInterval::Day => "daily"@,
                AnalyticsInterval::Week => "weekly"@,
                AnalyticsInterval::Month => "monthly"@,
                AnalyticsInterval::Year => "yearly"@,
            },
    {
        match self {
            AnalyticsInterval::Day => "daily",
            AnalyticsInterval::Week => "weekly",
            AnalyticsInterval::Month => "monthly",
            AnalyticsInterval::Year => "yearly",
        }
    }
}

proof fn lemma_year_lengths(y: int)
    ensures
        days_before_year(y + 1) == days_before_year(y) + days_in_year(y),
        days_before_month(y, 13) == days_in_year(y),
{
    reveal_with_fuel(days_before_month, 13);
    assert((y + 4) / 4 == (y + 3) / 4 + if y % 4 == 0 { 1int } else { 0 });
    assert((y + 100) / 100 == (y + 99) / 100 + if y % 100 == 0 { 1int } else { 0 });
    assert((y + 400) / 400 == (y + 399) / 400 + if y % 400 == 0 { 1int } else { 0 });
}

proof fn lemma_months_before(y: int, m1: int, m2: int)
    requires
        1 <= m1 < m2 <= 13,
    ensures
        days_before_month(y, m1) + days_in_month(y, m1) <= days_before_month(y, m2),
    decreases m2 - m1,
{
    if m1 + 1 < m2 {
        lemma_months_before(y, m1 + 1, m2);
    }
}

proof fn lemma_years_before(y1: int, y2: int)
    requires
        y1 < y2,
    ensures
        days_before_year(y1) + days_in_year(y1) <= days_before_year(y2),
    decreases y2 - y1,
{
    lemma_year_lengths(y1);
    if y1 + 1 < y2 {
        lemma_years_before(y1 + 1, y2);
    }
}

proof fn lemma_day_within_year(d: CalendarDate)
    requires
        d.wf(),
    ensures
        days_before_year(d.year as int) <= d.day_number() < days_before_year(d.year as int) + days_in_year(
            d.year as int,
        ),
{
    lemma_year_lengths(d.year as int);
    if d.month > 1 {
        lemma_months_before(d.year as int, 1, d.month as int);
    }
    if d.month < 12 {
        lemma_months_before(d.year as int, d.month as int, 13);
    } else {
        reveal_with_fuel(days_before_month, 13);
    }
}

/// Different real dates have different day numbers.
pub proof fn day_numbers_are_distinct(a: CalendarDate, b: CalendarDate)
    requires
        a.wf(),
        b.wf(),
        a.day_number() == b.day_number(),
    ensures
        a == b,
{
    lemma_day_within_year(a);
    lemma_day_within_year(b);
    if a.year < b.year {
        lemma_years_before(a.year as int, b.year as int);
    } else if b.year < a.year {
        lemma_years_before(b.year as int, a.year as int);
    }
    assert(a.year == b.year);
    if a.month < b.month {
        lemma_months_before(a.year as int, a.month as int, b.month as int);
    } else if b.month < a.month {
        lemma_months_before(a.year as int, b.month as int, a.month as int);
    }
}

/// An interval of a month that starts on the first of a month ends on the first of the next
/// month: their day numbers are one month apart, and an end with that day number (as
/// `end_date` returns) is that date.
pub proof fn month_from_first_ends_on_next_first(d: CalendarDate, end: CalendarDate)
    requires
        d.wf(),
        d.day == 1,
        end.wf(),
        end.day_number() == d.day_number() + AnalyticsInterval::Month.days_from(d),
    ensures
        d.month < 12 ==> end == (CalendarDate { year: d.year, month: (d.month + 1) as u8, day: 1 }),
        d.month == 12 ==> end == (CalendarDate { year: (d.year + 1) as i32, month: 1, day: 1 }),
        d.month < 12 ==> (CalendarDate { year: d.year, month: (d.month + 1) as u8, day: 1 }).day_number()
            == d.day_number() + AnalyticsInterval::Month.days_from(d),
        d.month == 12 && d.year < 9999 ==> (CalendarDate { year: (d.year + 1) as i32, month: 1, day: 1 }).day_number()
            == d.day_number() + AnalyticsInterval::Month.days_from(d),
{
    lemma_year_lengths(d.year as int);
    reveal_with_fuel(days_before_month, 13);
    if d.month < 12 {
        day_numbers_are_distinct(end, CalendarDate { year: d.year, month: (d.month + 1) as u8, day: 1 });
    } else {
        lemma_day_within_year(end);
        if d.year == 9999 {
            assert(end.day_number() >= days_before_year(10000));
            if end.year < 9999 {
                lemma_years_before(end.year as int, 9999);
            }
        } else {
            day_numbers_are_distinct(end, CalendarDate { year: (d.year + 1) as i32, month: 1, day: 1 });
        }
    }
}

/// An interval of a year that starts on the first of January ends on the first of January of
/// the next year: an end one year of days later (as `end_date` returns) is that date.
pub proof fn year_from_new_year_ends_on_next_new_year(d: CalendarDate, end: CalendarDate)
    requires
        d.wf(),
        d.month == 1,
        d.day == 1,
        end.wf(),
        end.day_number() == d.day_number() + AnalyticsInterval::Year.days_from(d),
    ensures
        end == (CalendarDate { year: (d.year + 1) as i32, month: 1, day: 1 }),
{
    lemma_year_lengths(d.year as int);
    lemma_day_within_year(end);
    if d.year == 9999 {
        if end.year < 9999 {
            lemma_years_before(end.year as int, 9999);
        }
    } else {
        day_numbers_are_distinct(end, CalendarDate { year: (d.year + 1) as i32, month: 1, day: 1 });
    }
}

/// The analytics that are computed per calendar interval.
#[derive(Clone, Copy, Debug, PartialEq, Eq, Structural)]
pub enum IntervalAnalyticsChoice {
    ActiveAddresses,
}

/// A measurement tagged with the interval it covers.
#[derive(Clone, Copy, Debug, PartialEq, Eq, Structural)]
pub struct PerInterval<M> {
    pub start_date: CalendarDate,
    pub interval: AnalyticsInterval,
    pub inner: M,
}

/// An analytic computed per calendar interval.
#[derive(Clone, Copy, Debug, PartialEq, Eq, Structural)]
pub enum IntervalAnalytic {
    /// The number of distinct addresses that transactions of the interval consumed from or
    /// created for.
    ActiveAddresses,
}

impl IntervalAnalytic {
    /// Init an analytic from a choice.
    pub fn init(choice: &IntervalAnalyticsChoice) -> (r: Self)
        ensures
            r == IntervalAnalytic::ActiveAddresses,
    {
        match choice {
            IntervalAnalyticsChoice::ActiveAddresses => IntervalAnalytic::ActiveAddresses,
        }
    }

    /// Measures the interval that starts at `start_date`, given the owners of every output
    /// that the transactions of the interval consumed or created.
    pub fn handle_date_range(
        &self,
        start_date: CalendarDate,
        interval: AnalyticsInterval,
        touched: &[Address],
    ) -> (r: PerInterval<AddressActivityMeasurement>)
        ensures
            r.start_date == start_date,
            r.interval == interval,
            r.inner.count == touched@.to_set().len(),
    {
        let mut seen = AddressSet::new();
        let mut i: usize = 0;
        while i < touched.len()
            invariant
                i <= touched.len(),
                seen.wf(),
                seen@ == touched@.take(i as int).to_set(),
            decreases touched.len() - i,
        {
            seen.insert(touched[i]);
            proof {
                assert(touched@.take(i + 1) =~= touched@.take(i as int).push(touched@[i as int]));
                touched@.take(i as int).lemma_push_to_set_commute(touched@[i as int]);
            }
            i = i + 1;
        }
        proof {
            assert(touched@.take(touched@.len() as int) =~= touched@);
        }
        let count = seen.len();
        PerInterval { start_date, interval, inner: AddressActivityMeasurement { count } }
    }
}

} // verus!

//! The proleptic Gregorian calendar on the range of years that dates cover,
//! and the `Date` type that every other module computes with.

use crate::text::{day_and_month_text, day_text, iso_date_text};
use chrono::{Datelike, Days, NaiveDate};
use vstd::prelude::*;

verus! {

/// First year a `Date` can hold; it is the year of `chrono::NaiveDate::MIN`.
pub const MIN_YEAR: i32 = -262143;

/// Last year a `Date` can hold; it is the year of `chrono::NaiveDate::MAX`.
pub const MAX_YEAR: i32 = 262142;

/// Whether `year` has a 29th of February.
pub open spec fn is_leap_year(year: int) -> bool {
    year % 4 == 0 && (year % 100 != 0 || year % 400 == 0)
}

/// Number of days of `month` (1 to 12) in `year`.
pub open spec fn days_in_month(year: int, month: int) -> int {
    if month == 2 {
        if is_leap_year(year) {
            29
        } else {
            28
        }
    } else if month == 4 || month == 6 || month == 9 || month == 11 {
        30
    } else {
        31
    }
}

/// Whether the triple names a day that exists and lies in the supported years.
pub open spec fn is_calendar_date(year: int, month: int, day: int) -> bool {
    &&& MIN_YEAR <= year <= MAX_YEAR
    &&& 1 <= month <= 12
    &&& 1 <= day <= days_in_month(year, month)
}

/// Days of `year` that lie in the months before `month`.
pub open spec fn days_before_month(year: int, month: int) -> int
    decreases month,
{
    if month <= 1 {
        0
    } else {
        days_before_month(year, month - 1) + days_in_month(year, month - 1)
    }
}

/// Days between the start of year 1 and the start of `year`; negative before year 1.
pub open spec fn days_before_year(year: int) -> int {
    365 * (year - 1) + (year - 1) / 4 - (year - 1) / 100 + (year - 1) / 400
}

/// Position of a day on the line of all days, where 0001-01-01 is day 1.
pub open spec fn day_number_of(year: int, month: int, day: int) -> int {
    days_before_year(year) + days_before_month(year, month) + day
}

/// Day number of the first day a `Date` can hold.
pub open spec fn first_day_number() -> int {
    day_number_of(MIN_YEAR as int, 1, 1)
}

/// Day number of the last day a `Date` can hold.
pub open spec fn last_day_number() -> int {
    day_number_of(MAX_YEAR as int, 12, 31)
}

/// A day of the calendar, always one that exists.
#[derive(Clone, Copy, Debug, PartialEq, Eq, Structural)]
pub struct Date {
    year: i32,
    month: u32,
    day: u32,
}

impl Date {
    /// The year, as specifications read it; `year()` stands for it there.
    pub closed spec fn spec_year(&self) -> i32 {
        self.year
    }

    /// The month, as specifications read it; `month()` stands for it there.
    pub closed spec fn spec_month(&self) -> u32 {
        self.month
    }

    /// The day of the month, as specifications read it; `day()` stands for it there.
    pub closed spec fn spec_day(&self) -> u32 {
        self.day
    }

    /// Every `Date` held by running code names an existing day.
    #[verifier::type_invariant]
    pub open spec fn well_formed(&self) -> bool {
        is_calendar_date(self.year() as int, self.month() as int, self.day() as int)
    }

    /// Position of this date on the line of all days.
    pub open spec fn day_number(&self) -> int {
        day_number_of(self.year() as int, self.month() as int, self.day() as int)
    }

    /// The date that stands at `number` on the line of all days.
    pub open spec fn on_day(number: int) -> Date {
        choose|d: Date| d.well_formed() && d.day_number() == number
    }

    /// This date moved by `delta` days, forward or, if negative, back; nothing
    /// where that day lies outside the supported years.
    pub open spec fn shifted(&self, delta: int) -> Option<Date> {
        if first_day_number() <= self.day_number() + delta <= last_day_number() {
            Some(Date::on_day(self.day_number() + delta))
        } else {
            None
        }
    }

    /// The date with the given year, month and day, if that day exists.
    pub fn new(year: i32, month: u32, day: u32) -> (r: Option<Date>)
        ensures
            match r {
                Some(d) => is_calendar_date(year as int, month as int, day as int)
                    && d.year() == year && d.month() == month && d.day() == day,
                None => !is_calendar_date(year as int, month as int, day as int),
            },
    {
        if year < MIN_YEAR || year > MAX_YEAR || month < 1 || month > 12 || day < 1 {
            return None;
        }
        if day > month_length(year, month) {
            return None;
        }
        Some(Date { year, month, day })
    }

    /// The date `days` days later, or `None` past the last supported day.
    pub fn plus_days(&self, days: u64) -> (r: Option<Date>)
        ensures
            r == self.shifted(days as int),
    {
        proof {
            use_type_invariant(self);
        }
        let r = match days_after(self.year, self.month, self.day, days) {
            Some((year, month, day)) => Some(Date { year, month, day }),
            None => None,
        };
        proof {
            lemma_shifted(*self, days as int, r);
        }
        r
    }

    /// The date `days` days earlier, or `None` before the first supported day.
    pub fn minus_days(&self, days: u64) -> (r: Option<Date>)
        ensures
            r == self.shifted(-(days as int)),
    {
        proof {
            use_type_invariant(self);
        }
        let r = match days_before(self.year, self.month, self.day, days) {
            Some((year, month, day)) => Some(Date { year, month, day }),
            None => None,
        };
        proof {
            lemma_shifted(*self, -(days as int), r);
        }
        r
    }

    /// The day of the month and a full stop, as in `5.`.
    pub fn day_text(&self) -> (r: String)
        ensures
            r@ == day_text(self.day() as int),
    {
        proof {
            use_type_invariant(self);
        }
        format_date(self.year, self.month, self.day, "%-d.")
    }

    /// The day of the month, a full stop and the month's short name, as in `5. Jun`.
    pub fn day_and_month_text(&self) -> (r: String)
        ensures
            r@ == day_and_month_text(self.month() as int, self.day() as int),
    {
        proof {
            use_type_invariant(self);
        }
        format_date(self.year, self.month, self.day, "%-d. %b")
    }

    /// This date as `YYYY-MM-DD`, written through a pattern.
    pub fn iso_text(&self) -> (r: String)
        ensures
            r@ == iso_date_text(self.year() as int, self.month() as int, self.day() as int),
    {
        proof {
            use_type_invariant(self);
        }
        format_date(self.year, self.month, self.day, "%Y-%m-%d")
    }

    /// This date as `YYYY-MM-DD`.
    pub fn to_text(&self) -> (r: String)
        ensures
            r@ == iso_date_text(self.year() as int, self.month() as int, self.day() as int),
    {
        proof {
            use_type_invariant(self);
        }
        display_date(self.year, self.month, self.day)
    }

    /// Position of this date on the line of all days, where 0001-01-01 is day 1.
    pub fn to_day_number(&self) -> (r: i64)
        ensures
            r == self.day_number(),
    {
        proof {
            use_type_invariant(self);
            reveal_with_fuel(days_before_month, 14);
        }
        // 262400 is a multiple of 400 that lifts every supported year above zero.
        let lifted: i64 = (self.year as i64 - 1) + 262400;
        let before_year: i64 = 365 * (self.year as i64 - 1) + (lifted / 4 - 65600) - (lifted / 100
            - 2624) + (lifted / 400 - 656);
        let mut before_month: i64 = 0;
        let mut month: u32 = 1;
        while month < self.month
            invariant
                1 <= month <= self.month <= 12,
                MIN_YEAR <= self.year <= MAX_YEAR,
                before_month == days_before_month(self.year as int, month as int),
                0 <= before_month <= 31 * (month - 1),
            decreases self.month - month,
        {
            before_month = before_month + month_length(self.year, month) as i64;
            month = month + 1;
        }
        before_year + before_month + self.day as i64
    }

    /// Whether this date lies strictly after `other`.
    pub fn is_after(&self, other: &Date) -> (r: bool)
        ensures
            r == (self.day_number() > other.day_number()),
    {
        proof {
            use_type_invariant(self);
            use_type_invariant(other);
            lemma_day_numbers_follow_the_calendar(*self, *other);
            lemma_day_numbers_follow_the_calendar(*other, *self);
        }
        self.year > other.year || (self.year == other.year && (self.month > other.month || (
        self.month == other.month && self.day > other.day)))
    }

    /// The year.
    #[verifier::when_used_as_spec(spec_year)]
    pub fn year(&self) -> (r: i32)
        ensures
            r == self.year(),
    {
        self.year
    }

    /// The month, from 1 to 12.
    #[verifier::when_used_as_spec(spec_month)]
    pub fn month(&self) -> (r: u32)
        ensures
            r == self.month(),
    {
        self.month
    }

    /// The day of the month, from 1.
    #[verifier::when_used_as_spec(spec_day)]
    pub fn day(&self) -> (r: u32)
        ensures
            r == self.day(),
    {
        self.day
    }
}

/// Whether `a` comes before `b` when years, then months, then days are compared.
pub open spec fn earlier_in_calendar(a: Date, b: Date) -> bool {
    a.year() < b.year() || (a.year() == b.year() && (a.month() < b.month() || (a.month()
        == b.month() && a.day() < b.day())))
}

/// `chrono::NaiveDate::checked_add_days`, on a date given by year, month and
/// day. Claimed of it: the result is the calendar day that lies `days` days
/// after the given one, and it is `None` exactly when that day would fall
/// after `chrono::NaiveDate::MAX`, the 31st of December of `MAX_YEAR`.
#[verifier::external_body]
fn days_after(year: i32, month: u32, day: u32, days: u64) -> (r: Option<(i32, u32, u32)>)
    requires
        is_calendar_date(year as int, month as int, day as int),
    ensures
        match r {
            Some(t) => is_calendar_date(t.0 as int, t.1 as int, t.2 as int) && day_number_of(
                t.0 as int,
                t.1 as int,
                t.2 as int,
            ) == day_number_of(year as int, month as int, day as int) + days,
            None => day_number_of(year as int, month as int, day as int) + days
                > last_day_number(),
        },
{
    let date = NaiveDate::from_ymd_opt(year, month, day)?;
    match date.checked_add_days(Days::new(days)) {
        Some(d) => Some((d.year(), d.month(), d.day())),
        None => None,
    }
}

/// `chrono::NaiveDate::checked_sub_days`, on a date given by year, month and
/// day. Claimed of it: the result is the calendar day that lies `days` days
/// before the given one, and it is `None` exactly when that day would fall
/// before `chrono::NaiveDate::MIN`, the 1st of January of `MIN_YEAR`.
#[verifier::external_body]
fn days_before(year: i32, month: u32, day: u32, days: u64) -> (r: Option<(i32, u32, u32)>)
    requires
        is_calendar_date(year as int, month as int, day as int),
    ensures
        match r {
            Some(t) => is_calendar_date(t.0 as int, t.1 as int, t.2 as int) && day_number_of(
                t.0 as int,
                t.1 as int,
                t.2 as int,
            ) == day_number_of(year as int, month as int, day as int) - days,
            None => day_number_of(year as int, month as int, day as int) - days
                < first_day_number(),
        },
{
    let date = NaiveDate::from_ymd_opt(year, month, day)?;
    match date.checked_sub_days(Days::new(days)) {
        Some(d) => Some((d.year(), d.month(), d.day())),
        None => None,
    }
}

/// The pattern that writes the day of the month and a full stop.
pub open spec fn day_pattern() -> Seq<char> {
    "%-d."@
}

/// The pattern that writes the day of the month, a full stop and the month's short name.
pub open spec fn day_and_month_pattern() -> Seq<char> {
    "%-d. %b"@
}

/// The pattern that writes year, month and day with hyphens between.
pub open spec fn iso_pattern() -> Seq<char> {
    "%Y-%m-%d"@
}

/// `chrono::NaiveDate::format`, followed by `to_string`, on a date given by
/// year, month and day, for the three patterns named above. Claimed of
/// it: `%-d` writes the day of the month without padding, `%b` the English
/// three-letter month name, `%m` and `%d` two digits each, `%Y` the year as
/// `year_text` has it, and every other character of these patterns is copied.
#[verifier::external_body]
fn format_date(year: i32, month: u32, day: u32, pattern: &str) -> (r: String)
    requires
        is_calendar_date(year as int, month as int, day as int),
        pattern@ == day_pattern() || pattern@ == day_and_month_pattern() || pattern@
            == iso_pattern(),
    ensures
        pattern@ == day_pattern() ==> r@ == day_text(day as int),
        pattern@ == day_and_month_pattern() ==> r@ == day_and_month_text(
            month as int,
            day as int,
        ),
        pattern@ == iso_pattern() ==> r@ == iso_date_text(year as int, month as int, day as int),
{
    NaiveDate::from_ymd_opt(year, month, day).unwrap_or_default().format(pattern).to_string()
}

/// The `Display` of `chrono::NaiveDate`, through `to_string`, on a date given
/// by year, month and day. Claimed of it: the text is the year as `year_text`
/// has it, then month and day as two digits each, with hyphens between.
#[verifier::external_body]
fn display_date(year: i32, month: u32, day: u32) -> (r: String)
    requires
        is_calendar_date(year as int, month as int, day as int),
    ensures
        r@ == iso_date_text(year as int, month as int, day as int),
{
    NaiveDate::from_ymd_opt(year, month, day).unwrap_or_default().to_string()
}

/// A year is 365 days long, or 366 when it is a leap year.
proof fn lemma_year_length(year: int)
    ensures
        days_before_year(year + 1) == days_before_year(year) + 365 + if is_leap_year(year) {
            1int
        } else {
            0int
        },
{
}

/// Later years start later, by at least 365 days for each year between.
proof fn lemma_years_apart(earlier: int, later: int)
    requires
        earlier <= later,
    ensures
        days_before_year(later) >= days_before_year(earlier) + 365 * (later - earlier),
    decreases later - earlier,
{
    if earlier < later {
        lemma_years_apart(earlier, later - 1);
        lemma_year_length(later - 1);
    }
}

/// Where a day stands inside its year.
proof fn lemma_day_of_year_bounds(year: int, month: int, day: int)
    requires
        1 <= month <= 12,
        1 <= day <= days_in_month(year, month),
    ensures
        1 <= days_before_month(year, month) + day <= 365 + if is_leap_year(year) {
            1int
        } else {
            0int
        },
        month < 12 ==> days_before_month(year, month) + day <= days_before_month(
            year,
            month + 1,
        ),
{
    reveal_with_fuel(days_before_month, 14);
}

/// Months of one year start in calendar order.
proof fn lemma_months_apart(year: int, earlier: int, later: int)
    requires
        1 <= earlier <= later <= 12,
    ensures
        days_before_month(year, later) >= days_before_month(year, earlier),
    decreases later - earlier,
{
    if earlier < later {
        lemma_months_apart(year, earlier, later - 1);
    }
}

/// Day numbers order dates as the calendar does, and tell them apart.
pub proof fn lemma_day_numbers_follow_the_calendar(a: Date, b: Date)
    requires
        a.well_formed(),
        b.well_formed(),
    ensures
        earlier_in_calendar(a, b) <==> a.day_number() < b.day_number(),
        a.day_number() == b.day_number() <==> a == b,
{
    let (ay, am, ad) = (a.year() as int, a.month() as int, a.day() as int);
    let (by, bm, bd) = (b.year() as int, b.month() as int, b.day() as int);
    lemma_day_of_year_bounds(ay, am, ad);
    lemma_day_of_year_bounds(by, bm, bd);
    if ay < by {
        lemma_year_length(ay);
        lemma_years_apart(ay + 1, by);
    } else if by < ay {
        lemma_year_length(by);
        lemma_years_apart(by + 1, ay);
    } else if am < bm {
        lemma_months_apart(ay, am + 1, bm);
    } else if bm < am {
        lemma_months_apart(ay, bm + 1, am);
    }
}

/// Every date lies between the first and the last supported day.
pub proof fn lemma_day_number_in_range(d: Date)
    requires
        d.well_formed(),
    ensures
        first_day_number() <= d.day_number() <= last_day_number(),
{
    let first = Date { year: MIN_YEAR, month: 1, day: 1 };
    let last = Date { year: MAX_YEAR, month: 12, day: 31 };
    lemma_day_numbers_follow_the_calendar(first, d);
    lemma_day_numbers_follow_the_calendar(d, last);
}

/// The day after a date that is not the last one.
proof fn lemma_next_day(d: Date) -> (next: Date)
    requires
        d.well_formed(),
        d.day_number() < last_day_number(),
    ensures
        next.well_formed(),
        next.day_number() == d.day_number() + 1,
{
    let (y, m, day) = (d.year() as int, d.month() as int, d.day() as int);
    reveal_with_fuel(days_before_month, 14);
    lemma_year_length(y);
    if day < days_in_month(y, m) {
        Date { year: d.year, month: d.month, day: (d.day + 1) as u32 }
    } else if m < 12 {
        Date { year: d.year, month: (d.month + 1) as u32, day: 1 }
    } else {
        Date { year: (d.year + 1) as i32, month: 1, day: 1 }
    }
}

/// Every day between the first and the last has a date.
pub proof fn lemma_every_day_has_a_date(number: int) -> (d: Date)
    requires
        first_day_number() <= number <= last_day_number(),
    ensures
        d.well_formed(),
        d.day_number() == number,
        Date::on_day(number) == d,
    decreases number - first_day_number(),
{
    if number == first_day_number() {
        let d = Date { year: MIN_YEAR, month: 1, day: 1 };
        lemma_day_numbers_follow_the_calendar(Date::on_day(number), d);
        d
    } else {
        let before = lemma_every_day_has_a_date(number - 1);
        let d = lemma_next_day(before);
        lemma_day_numbers_follow_the_calendar(Date::on_day(number), d);
        d
    }
}

/// A date found at the right distance from `base` is `base` moved by that
/// distance, and where none is in range the move gives nothing.
pub proof fn lemma_shifted(base: Date, delta: int, r: Option<Date>)
    requires
        match r {
            Some(d) => d.well_formed() && d.day_number() == base.day_number() + delta,
            None => !(first_day_number() <= base.day_number() + delta <= last_day_number()),
        },
    ensures
        r == base.shifted(delta),
{
    if r is Some {
        lemma_day_number_in_range(r->0);
        lemma_every_day_has_a_date(r->0.day_number());
        lemma_day_numbers_follow_the_calendar(Date::on_day(r->0.day_number()), r->0);
    }
}

/// What moving a date gives is a date, the right number of days away.
pub proof fn lemma_shifted_is_a_date(base: Date, delta: int)
    requires
        base.shifted(delta) is Some,
    ensures
        base.shifted(delta)->0.well_formed(),
        base.shifted(delta)->0.day_number() == base.day_number() + delta,
{
    lemma_every_day_has_a_date(base.day_number() + delta);
}

/// Moving a date and then moving the result back by as many days returns it.
pub proof fn lemma_there_and_back(base: Date, delta: int)
    requires
        base.well_formed(),
        base.shifted(delta) is Some,
    ensures
        base.shifted(delta)->0.shifted(-delta) == Some(base),
{
    lemma_shifted_is_a_date(base, delta);
    lemma_day_number_in_range(base);
    lemma_shifted(base.shifted(delta)->0, -delta, Some(base));
}

/// Length of a month, computed.
fn month_length(year: i32, month: u32) -> (r: u32)
    requires
        MIN_YEAR <= year <= MAX_YEAR,
        1 <= month <= 12,
    ensures
        r == days_in_month(year as int, month as int),
{
    if month == 2 {
        // 262400 is a multiple of 400 that lifts every supported year above zero.
        let lifted: u32 = (year + 262400) as u32;
        if lifted % 4 == 0 && (lifted % 100 != 0 || lifted % 400 == 0) {
            29
        } else {
            28
        }
    } else if month == 4 || month == 6 || month == 9 || month == 11 {
        30
    } else {
        31
    }
}

} // verus!

//! Store timestamps: whole seconds since 2001-01-01T00:00:00 UTC, written as
//! `YYYY-MM-DDTHH:MM:SS` in the proleptic Gregorian calendar.

use vstd::prelude::*;
use vstd::string::*;
use crate::digits::{pad2, pad4, push_pad2, push_pad4};

verus! {

/// Seconds in a day.
pub const SECONDS_PER_DAY: i64 = 86400;

/// Days from 0001-01-01 to 2001-01-01, the annotation store's epoch.
pub const EPOCH_DAY: i64 = 730485;

/// First year that has no four-digit representation.
pub const YEAR_LIMIT: i64 = 10000;

/// Days from 0001-01-01 to 10000-01-01.
pub const DAY_LIMIT: i64 = 3652059;

/// Seconds from 0001-01-01T00:00:00 to 2001-01-01T00:00:00.
pub const EPOCH_SECONDS: i64 = 63113904000;

/// Seconds from 0001-01-01T00:00:00 to 10000-01-01T00:00:00.
pub const LIMIT_SECONDS: i64 = 315537897600;

/// Gregorian leap year rule.
pub open spec fn is_leap(y: int) -> bool {
    (y % 4 == 0 && y % 100 != 0) || y % 400 == 0
}

/// Number of days in year `y`.
pub open spec fn year_days(y: int) -> int {
    if is_leap(y) {
        366
    } else {
        365
    }
}

/// Number of days in month `m` of year `y`.
pub open spec fn month_days(y: int, m: int) -> int {
    if m == 2 {
        if is_leap(y) {
            29
        } else {
            28
        }
    } else if m == 4 || m == 6 || m == 9 || m == 11 {
        30
    } else {
        31
    }
}

/// Days from 0001-01-01 to the first day of year `y` (for `y >= 1`).
pub open spec fn days_before_year(y: int) -> int {
    365 * (y - 1) + (y - 1) / 4 - (y - 1) / 100 + (y - 1) / 400
}

/// Days from the first day of year `y` to the first day of month `m`.
pub open spec fn days_before_month(y: int, m: int) -> int
    decreases m,
{
    if m <= 1 {
        0
    } else {
        days_before_month(y, m - 1) + month_days(y, m - 1)
    }
}

/// A calendar date and a time of day in UTC.
#[derive(Clone, Copy, PartialEq, Eq, Debug)]
pub struct DateTime {
    pub year: i64,
    pub month: i64,
    pub day: i64,
    pub hour: i64,
    pub minute: i64,
    pub second: i64,
}

impl DateTime {
    /// The fields name an existing date with a four-digit year and a time of day.
    pub open spec fn valid(self) -> bool {
        &&& 1 <= self.year < YEAR_LIMIT
        &&& 1 <= self.month <= 12
        &&& 1 <= self.day <= month_days(self.year as int, self.month as int)
        &&& 0 <= self.hour < 24
        &&& 0 <= self.minute < 60
        &&& 0 <= self.second < 60
    }

    /// Days from 0001-01-01 to this date.
    pub open spec fn day_number(self) -> int {
        days_before_year(self.year as int) + days_before_month(self.year as int, self.month as int)
            + self.day - 1
    }

    /// Seconds from 0001-01-01T00:00:00 to this instant.
    pub open spec fn seconds(self) -> int {
        self.day_number() * 86400 + self.hour * 3600 + self.minute * 60 + self.second
    }

    /// Seconds from 2001-01-01T00:00:00 to this instant.
    pub open spec fn store_seconds(self) -> int {
        self.seconds() - EPOCH_DAY * 86400
    }

    /// `YYYY-MM-DDTHH:MM:SS`.
    pub open spec fn text(self) -> Seq<char> {
        pad4(self.year as int) + seq!['-'] + pad2(self.month as int) + seq!['-'] + pad2(
            self.day as int,
        ) + seq!['T'] + pad2(self.hour as int) + seq![':'] + pad2(self.minute as int) + seq![':']
            + pad2(self.second as int)
    }
}

/// A store timestamp whose date has a four-digit year.
pub open spec fn in_calendar_range(t: int) -> bool {
    0 <= t + EPOCH_DAY * 86400 < DAY_LIMIT * 86400
}

proof fn lemma_year_step(y: int)
    requires
        y >= 1,
    ensures
        days_before_year(y + 1) == days_before_year(y) + year_days(y),
{
    let k = y - 1;
    assert(y / 4 == k / 4 + (if y % 4 == 0 { 1int } else { 0 }));
    assert(y / 100 == k / 100 + (if y % 100 == 0 { 1int } else { 0 }));
    assert(y / 400 == k / 400 + (if y % 400 == 0 { 1int } else { 0 }));
}

proof fn lemma_year_of_month_days(y: int)
    ensures
        days_before_month(y, 13) == year_days(y),
{
    reveal_with_fuel(days_before_month, 13);
}

proof fn lemma_era(q: int)
    requires
        q >= 0,
    ensures
        days_before_year(400 * q + 1) == 146097 * q,
{
    assert((400 * q) / 4 == 100 * q);
    assert((400 * q) / 100 == 4 * q);
    assert((400 * q) / 400 == q);
}

proof fn lemma_years_increase(a: int, b: int)
    requires
        1 <= a < b,
    ensures
        days_before_year(a + 1) <= days_before_year(b),
    decreases b - a,
{
    if a + 1 < b {
        lemma_years_increase(a, b - 1);
        lemma_year_step(b - 1);
    }
}

proof fn lemma_months_increase(y: int, a: int, b: int)
    requires
        1 <= a < b,
    ensures
        days_before_month(y, a + 1) <= days_before_month(y, b),
    decreases b - a,
{
    if a + 1 < b {
        lemma_months_increase(y, a, b - 1);
    }
}

/// A valid date lies within its year: its day number is below the next year's first day.
proof fn lemma_day_in_year(dt: DateTime)
    requires
        dt.valid(),
    ensures
        days_before_year(dt.year as int) <= dt.day_number() < days_before_year(dt.year + 1),
        days_before_month(dt.year as int, dt.month as int) <= dt.day_number() - days_before_year(
            dt.year as int,
        ) < days_before_month(dt.year as int, dt.month + 1),
{
    let y = dt.year as int;
    lemma_year_step(y);
    lemma_year_of_month_days(y);
    if dt.month < 12 {
        lemma_months_increase(y, dt.month as int, 13);
    }
    if dt.month > 1 {
        lemma_months_increase(y, 1, dt.month as int);
    }
    assert(days_before_month(y, 2) == 31) by {
        reveal_with_fuel(days_before_month, 2);
    }
    assert(days_before_month(y, dt.month + 1) == days_before_month(y, dt.month as int)
        + month_days(y, dt.month as int));
}

/// Two valid date-times that denote the same instant are the same.
pub proof fn lemma_date_time_unique(a: DateTime, b: DateTime)
    requires
        a.valid(),
        b.valid(),
        a.seconds() == b.seconds(),
    ensures
        a == b,
{
    lemma_day_in_year(a);
    lemma_day_in_year(b);
    let ta = a.hour * 3600 + a.minute * 60 + a.second;
    let tb = b.hour * 3600 + b.minute * 60 + b.second;
    assert(a.day_number() == b.day_number());
    assert(ta == tb);
    if a.year < b.year {
        lemma_years_increase(a.year as int, b.year as int);
    } else if b.year < a.year {
        lemma_years_increase(b.year as int, a.year as int);
    }
    assert(a.year == b.year);
    if a.month < b.month {
        lemma_months_increase(a.year as int, a.month as int, b.month as int);
    } else if b.month < a.month {
        lemma_months_increase(a.year as int, b.month as int, a.month as int);
    }
    assert(a.month == b.month);
    assert(a.hour == b.hour);
    assert(a.minute == b.minute);
}

/// The valid date-time that lies `t` seconds after 2001-01-01T00:00:00.
pub open spec fn date_time_at(t: int) -> DateTime {
    choose|dt: DateTime| dt.valid() && dt.store_seconds() == t
}

/// The text of the store timestamp `t`.
pub open spec fn date_text(t: int) -> Seq<char> {
    date_time_at(t).text()
}

/// Whatever valid date-time lies at `t` is the one that `date_time_at` picks.
pub proof fn lemma_date_time_at(dt: DateTime)
    requires
        dt.valid(),
    ensures
        date_time_at(dt.store_seconds()) == dt,
        date_text(dt.store_seconds()) == dt.text(),
{
    let t = dt.store_seconds();
    assert(exists|d: DateTime| d.valid() && d.store_seconds() == t);
    let c = date_time_at(t);
    lemma_date_time_unique(c, dt);
}

fn days_before_year_exec(y: i64) -> (r: i64)
    requires
        1 <= y <= YEAR_LIMIT,
    ensures
        r == days_before_year(y as int),
{
    let k = y - 1;
    365 * k + k / 4 - k / 100 + k / 400
}

fn month_days_exec(y: i64, m: i64) -> (r: i64)
    ensures
        r == month_days(y as int, m as int),
{
    if m == 2 {
        if (y % 4 == 0 && y % 100 != 0) || y % 400 == 0 {
            29
        } else {
            28
        }
    } else if m == 4 || m == 6 || m == 9 || m == 11 {
        30
    } else {
        31
    }
}

/// The UTC date and time `t` seconds after 2001-01-01T00:00:00, if its year has
/// four digits.
pub fn date_time_of(t: i64) -> (r: Option<DateTime>)
    ensures
        r is Some <==> in_calendar_range(t as int),
        r matches Some(dt) ==> dt.valid() && dt.store_seconds() == t && dt == date_time_at(
            t as int,
        ),
{
    let offset: i64 = EPOCH_DAY * SECONDS_PER_DAY;
    if t < -offset || t >= DAY_LIMIT * SECONDS_PER_DAY - offset {
        return None;
    }
    let total: i64 = t + offset;
    let n: i64 = total / SECONDS_PER_DAY;
    let secs: i64 = total % SECONDS_PER_DAY;
    let q: i64 = n / 146097;
    let mut y: i64 = 400 * q + 1;
    proof {
        lemma_era(q as int);
    }
    while days_before_year_exec(y + 1) <= n
        invariant
            1 <= y < YEAR_LIMIT,
            0 <= n < DAY_LIMIT,
            days_before_year(y as int) <= n,
        decreases n - days_before_year(y as int),
    {
        proof {
            lemma_year_step(y as int);
        }
        if y + 1 == YEAR_LIMIT {
            assert(days_before_year(YEAR_LIMIT as int) == DAY_LIMIT);
        }
        y = y + 1;
    }
    proof {
        lemma_year_step(y as int);
        lemma_year_of_month_days(y as int);
    }
    let doy: i64 = n - days_before_year_exec(y);
    let mut m: i64 = 1;
    let mut rem: i64 = doy;
    while rem >= month_days_exec(y, m)
        invariant
            1 <= y < YEAR_LIMIT,
            1 <= m <= 12,
            0 <= rem,
            days_before_month(y as int, m as int) + rem == doy,
            doy < year_days(y as int),
            days_before_month(y as int, 13) == year_days(y as int),
        decreases rem,
    {
        rem = rem - month_days_exec(y, m);
        m = m + 1;
        if m == 13 {
            assert(false);
        }
    }
    let dt = DateTime {
        year: y,
        month: m,
        day: rem + 1,
        hour: secs / 3600,
        minute: (secs % 3600) / 60,
        second: secs % 60,
    };
    assert(dt.seconds() == total);
    proof {
        lemma_date_time_at(dt);
    }
    Some(dt)
}

impl DateTime {
    /// Formats the date and time as `YYYY-MM-DDTHH:MM:SS`.
    pub fn to_text(&self) -> (r: String)
        requires
            self.valid(),
        ensures
            r@ == self.text(),
    {
        let mut s = String::new();
        proof {
            reveal_strlit("-");
            reveal_strlit("T");
            reveal_strlit(":");
        }
        push_pad4(&mut s, self.year as u64);
        s.append("-");
        push_pad2(&mut s, self.month as u64);
        s.append("-");
        push_pad2(&mut s, self.day as u64);
        s.append("T");
        push_pad2(&mut s, self.hour as u64);
        s.append(":");
        push_pad2(&mut s, self.minute as u64);
        s.append(":");
        push_pad2(&mut s, self.second as u64);
        assert(s@ =~= self.text());
        s
    }
}

/// The date-time text of store timestamp `t`: the UTC instant `t` seconds after
/// 2001-01-01T00:00:00. Absent when that instant's year does not have four digits.
pub fn normalize(t: i64) -> (r: Option<String>)
    ensures
        r is Some <==> in_calendar_range(t as int),
        r matches Some(s) ==> s@ == date_text(t as int),
{
    match date_time_of(t) {
        Some(dt) => Some(dt.to_text()),
        None => None,
    }
}

} // verus!

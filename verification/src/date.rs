//! Calendar dates as plain year / month / day values, with the stepping
//! operations the date-selection stage needs. Dates follow the proleptic
//! Gregorian calendar and range over the years 1 to 9999; stepping past
//! either end stays on the boundary date instead of overflowing.

use vstd::prelude::*;

verus! {

/// The earliest representable year.
pub const MIN_YEAR: u16 = 1;

/// The latest representable year.
pub const MAX_YEAR: u16 = 9999;

/// A calendar date. `new` and the stepping operations only produce valid
/// dates (see [`Date::wf`]).
#[derive(Clone, Copy, PartialEq, Eq, Structural, Debug)]
pub struct Date {
    pub year: u16,
    pub month: u8,
    pub day: u8,
}

/// The Gregorian leap-year rule.
pub open spec fn spec_is_leap_year(year: int) -> bool {
    year % 4 == 0 && (year % 100 != 0 || year % 400 == 0)
}

/// Number of days in a month of a given year.
pub open spec fn spec_days_in_month(year: int, month: int) -> int {
    if month == 2 {
        if spec_is_leap_year(year) {
            29
        } else {
            28
        }
    } else if month == 4 || month == 6 || month == 9 || month == 11 {
        30
    } else {
        31
    }
}

/// Whether a year/month/day triple denotes a calendar date in range.
pub open spec fn spec_valid_date(year: int, month: int, day: int) -> bool {
    &&& MIN_YEAR <= year <= MAX_YEAR
    &&& 1 <= month <= 12
    &&& 1 <= day <= spec_days_in_month(year, month)
}

/// Reports whether a year is a leap year.
pub fn is_leap_year(year: u16) -> (r: bool)
    ensures
        r == spec_is_leap_year(year as int),
{
    year % 4 == 0 && (year % 100 != 0 || year % 400 == 0)
}

/// Returns the number of days in a month of a given year.
pub fn days_in_month(year: u16, month: u8) -> (r: u8)
    ensures
        r == spec_days_in_month(year as int, month as int),
{
    if month == 2 {
        if is_leap_year(year) {
            29
        } else {
            28
        }
    } else if month == 4 || month == 6 || month == 9 || month == 11 {
        30
    } else {
        31
    }
}

impl Date {
    /// Well-formedness: the fields denote a real calendar date in range.
    pub open spec fn wf(self) -> bool {
        spec_valid_date(self.year as int, self.month as int, self.day as int)
    }

    /// Builds a date, rejecting any triple that is not a calendar date.
    pub fn new(year: u16, month: u8, day: u8) -> (r: Option<Date>)
        ensures
            match r {
                Some(d) => spec_valid_date(year as int, month as int, day as int) && d == (Date {
                    year,
                    month,
                    day,
                }),
                None => !spec_valid_date(year as int, month as int, day as int),
            },
    {
        if MIN_YEAR <= year && year <= MAX_YEAR && 1 <= month && month <= 12 && 1 <= day && day
            <= days_in_month(year, month) {
            Some(Date { year, month, day })
        } else {
            None
        }
    }

    /// The next calendar day; the maximum representable date is its own
    /// successor.
    pub open spec fn spec_next_day(self) -> Date {
        if self.day < spec_days_in_month(self.year as int, self.month as int) {
            Date { day: (self.day + 1) as u8, ..self }
        } else if self.month < 12 {
            Date { month: (self.month + 1) as u8, day: 1, ..self }
        } else if self.year < MAX_YEAR {
            Date { year: (self.year + 1) as u16, month: 1, day: 1 }
        } else {
            self
        }
    }

    /// The previous calendar day; the minimum representable date is its own
    /// predecessor.
    pub open spec fn spec_prev_day(self) -> Date {
        if self.day > 1 {
            Date { day: (self.day - 1) as u8, ..self }
        } else if self.month > 1 {
            Date {
                month: (self.month - 1) as u8,
                day: spec_days_in_month(self.year as int, self.month - 1) as u8,
                ..self
            }
        } else if self.year > MIN_YEAR {
            Date { year: (self.year - 1) as u16, month: 12, day: 31 }
        } else {
            self
        }
    }

    /// Steps forward one day.
    pub fn next_day(self) -> (r: Date)
        requires
            self.wf(),
        ensures
            r == self.spec_next_day(),
            r.wf(),
    {
        if self.day < days_in_month(self.year, self.month) {
            Date { day: self.day + 1, ..self }
        } else if self.month < 12 {
            Date { month: self.month + 1, day: 1, ..self }
        } else if self.year < MAX_YEAR {
            Date { year: self.year + 1, month: 1, day: 1 }
        } else {
            self
        }
    }

    /// Steps back one day.
    pub fn prev_day(self) -> (r: Date)
        requires
            self.wf(),
        ensures
            r == self.spec_prev_day(),
            r.wf(),
    {
        if self.day > 1 {
            Date { day: self.day - 1, ..self }
        } else if self.month > 1 {
            Date { month: self.month - 1, day: days_in_month(self.year, self.month - 1), ..self }
        } else if self.year > MIN_YEAR {
            Date { year: self.year - 1, month: 12, day: 31 }
        } else {
            self
        }
    }

    /// `n` forward day steps.
    pub open spec fn spec_next_days(self, n: nat) -> Date
        decreases n,
    {
        if n == 0 {
            self
        } else {
            self.spec_next_day().spec_next_days((n - 1) as nat)
        }
    }

    /// `n` backward day steps.
    pub open spec fn spec_prev_days(self, n: nat) -> Date
        decreases n,
    {
        if n == 0 {
            self
        } else {
            self.spec_prev_day().spec_prev_days((n - 1) as nat)
        }
    }

    /// Steps forward one week (seven day steps).
    pub fn next_week(self) -> (r: Date)
        requires
            self.wf(),
        ensures
            r == self.spec_next_days(7),
            r.wf(),
    {
        let mut d = self;
        let mut i: usize = 0;
        while i < 7
            invariant
                0 <= i <= 7,
                d.wf(),
                self.spec_next_days(i as nat) == d,
        decreases 7 - i,
        {
            d = d.next_day();
            i = i + 1;
            proof {
                lemma_next_days_unfold(self, i as nat);
            }
        }
        d
    }

    /// Steps back one week (seven day steps).
    pub fn prev_week(self) -> (r: Date)
        requires
            self.wf(),
        ensures
            r == self.spec_prev_days(7),
            r.wf(),
    {
        let mut d = self;
        let mut i: usize = 0;
        while i < 7
            invariant
                0 <= i <= 7,
                d.wf(),
                self.spec_prev_days(i as nat) == d,
        decreases 7 - i,
        {
            d = d.prev_day();
            i = i + 1;
            proof {
                lemma_prev_days_unfold(self, i as nat);
            }
        }
        d
    }

    /// The same day in the following month, the day clamped to the target
    /// month's length; December of the last year steps nowhere.
    pub open spec fn spec_next_month(self) -> Date {
        if self.month < 12 {
            let m = (self.month + 1) as u8;
            let dim = spec_days_in_month(self.year as int, m as int);
            Date { month: m, day: if self.day <= dim { self.day } else { dim as u8 }, ..self }
        } else if self.year < MAX_YEAR {
            let y = (self.year + 1) as u16;
            Date { year: y, month: 1, day: self.day }
        } else {
            self
        }
    }

    /// The same day in the preceding month, the day clamped to the target
    /// month's length; January of the first year steps nowhere.
    pub open spec fn spec_prev_month(self) -> Date {
        if self.month > 1 {
            let m = (self.month - 1) as u8;
            let dim = spec_days_in_month(self.year as int, m as int);
            Date { month: m, day: if self.day <= dim { self.day } else { dim as u8 }, ..self }
        } else if self.year > MIN_YEAR {
            let y = (self.year - 1) as u16;
            Date { year: y, month: 12, day: self.day }
        } else {
            self
        }
    }

    /// Steps to the following month.
    pub fn next_month(self) -> (r: Date)
        requires
            self.wf(),
        ensures
            r == self.spec_next_month(),
            r.wf(),
    {
        if self.month < 12 {
            let m = self.month + 1;
            let dim = days_in_month(self.year, m);
            Date { month: m, day: if self.day <= dim { self.day } else { dim }, ..self }
        } else if self.year < MAX_YEAR {
            Date { year: self.year + 1, month: 1, day: self.day }
        } else {
            self
        }
    }

    /// Steps to the preceding month.
    pub fn prev_month(self) -> (r: Date)
        requires
            self.wf(),
        ensures
            r == self.spec_prev_month(),
            r.wf(),
    {
        if self.month > 1 {
            let m = self.month - 1;
            let dim = days_in_month(self.year, m);
            Date { month: m, day: if self.day <= dim { self.day } else { dim }, ..self }
        } else if self.year > MIN_YEAR {
            Date { year: self.year - 1, month: 12, day: self.day }
        } else {
            self
        }
    }
}

/// Unfolding `spec_next_days` from the back: `n` steps are `n - 1` steps
/// followed by one more.
proof fn lemma_next_days_unfold(start: Date, n: nat)
    requires
        n > 0,
    ensures
        start.spec_next_days(n) == start.spec_next_days((n - 1) as nat).spec_next_day(),
    decreases n,
{
    if n == 1 {
    } else {
        lemma_next_days_unfold(start.spec_next_day(), (n - 1) as nat);
        assert(start.spec_next_days(n) == start.spec_next_day().spec_next_days((n - 1) as nat));
        assert(start.spec_next_days((n - 1) as nat) == start.spec_next_day().spec_next_days(
            (n - 2) as nat,
        ));
    }
}

/// Unfolding `spec_prev_days` from the back: `n` steps are `n - 1` steps
/// followed by one more.
proof fn lemma_prev_days_unfold(start: Date, n: nat)
    requires
        n > 0,
    ensures
        start.spec_prev_days(n) == start.spec_prev_days((n - 1) as nat).spec_prev_day(),
    decreases n,
{
    if n == 1 {
    } else {
        lemma_prev_days_unfold(start.spec_prev_day(), (n - 1) as nat);
        assert(start.spec_prev_days(n) == start.spec_prev_day().spec_prev_days((n - 1) as nat));
        assert(start.spec_prev_days((n - 1) as nat) == start.spec_prev_day().spec_prev_days(
            (n - 2) as nat,
        ));
    }
}

/// Relies on time::OffsetDateTime::now_utc and time::Date's accessors: the
/// current UTC date's year, month number and day of month. The month number
/// is between 1 and 12 and the day between 1 and 31.
#[verifier::external_body]
fn now_date_parts() -> (r: (i32, u8, u8))
    ensures
        1 <= r.1 <= 12,
        1 <= r.2 <= 31,
{
    let d = time::OffsetDateTime::now_utc().date();
    (d.year(), u8::from(d.month()), d.day())
}

/// Year/month/day parts clamped onto a valid calendar date: the year is
/// clamped into the representable range, the month is kept, and the day
/// is clamped to the month's length.
pub open spec fn spec_clamp_date(year: int, month: int, day: int) -> Date {
    let y = if year < MIN_YEAR as int {
        MIN_YEAR as u16
    } else if year > MAX_YEAR as int {
        MAX_YEAR as u16
    } else {
        year as u16
    };
    let dim = spec_days_in_month(y as int, month);
    let d = if day > dim {
        dim as u8
    } else {
        day as u8
    };
    Date { year: y, month: month as u8, day: d }
}

/// Clamps year/month/day parts, as a clock hands them back, onto a valid
/// calendar date (see [`spec_clamp_date`]).
pub fn clamp_date_parts(year: i32, month: u8, day: u8) -> (r: Date)
    requires
        1 <= month <= 12,
        1 <= day <= 31,
    ensures
        r == spec_clamp_date(year as int, month as int, day as int),
        r.wf(),
{
    let y: u16 = if year < MIN_YEAR as i32 {
        MIN_YEAR
    } else if year > MAX_YEAR as i32 {
        MAX_YEAR
    } else {
        year as u16
    };
    let dim = days_in_month(y, month);
    let d: u8 = if day > dim {
        dim
    } else {
        day
    };
    Date { year: y, month, day: d }
}

/// Returns the current UTC date, clamped onto a valid calendar date; only
/// the clock read itself is taken on trust.
pub fn today() -> (r: Date)
    ensures
        r.wf(),
{
    let (y, m, d) = now_date_parts();
    clamp_date_parts(y, m, d)
}

} // verus!

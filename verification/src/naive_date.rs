//! Zone-independent proleptic-Gregorian calendar dates.
//!
//! A date is held as a year and a one-based ordinal (day of year). Its
//! mathematical model is `DateView`; dates are also measured by `day_index`,
//! the signed count of days since the first day of year 0, which orders all
//! representable dates on one line and is the frame every day-stepping
//! operation is specified in.

use vstd::prelude::*;
use vstd::arithmetic::div_mod::lemma_mod_multiples_vanish;

verus! {

/// The first representable year.
pub const MIN_YEAR: i32 = -262144;
/// The last representable year.
pub const MAX_YEAR: i32 = 262143;

/// Mathematical model of a calendar date: a year and a one-based day of year.
pub ghost struct DateView {
    pub year: int,
    pub ordinal: int,
}

/// Leap years of the proleptic Gregorian calendar.
pub open spec fn is_leap_year(y: int) -> bool {
    y % 4 == 0 && (y % 100 != 0 || y % 400 == 0)
}

/// Days in year `y`.
pub open spec fn days_in_year(y: int) -> int {
    if is_leap_year(y) {
        366
    } else {
        365
    }
}

/// Days from the first day of year 0 to the first day of year `y` (negative
/// for years before year 0).
pub open spec fn days_before_year(y: int) -> int
    decreases
            (if y >= 0 {
                y
            } else {
                -y
            }),
{
    if y == 0 {
        0
    } else if y > 0 {
        days_before_year(y - 1) + days_in_year(y - 1)
    } else {
        days_before_year(y + 1) - days_in_year(y)
    }
}

/// The position of a date on the day line: 0 is the first day of year 0.
pub open spec fn day_index(v: DateView) -> int {
    days_before_year(v.year) + v.ordinal - 1
}

/// A representable calendar date.
pub open spec fn date_valid(v: DateView) -> bool {
    &&& MIN_YEAR <= v.year <= MAX_YEAR
    &&& 1 <= v.ordinal <= days_in_year(v.year)
}

/// The date one day later, ignoring the year range.
pub open spec fn succ_view(v: DateView) -> DateView {
    if v.ordinal < days_in_year(v.year) {
        DateView { year: v.year, ordinal: v.ordinal + 1 }
    } else {
        DateView { year: v.year + 1, ordinal: 1 }
    }
}

/// The date one day earlier, ignoring the year range.
pub open spec fn pred_view(v: DateView) -> DateView {
    if v.ordinal > 1 {
        DateView { year: v.year, ordinal: v.ordinal - 1 }
    } else {
        DateView { year: v.year - 1, ordinal: days_in_year(v.year - 1) }
    }
}

/// The date standing at position `i` of the day line.
pub open spec fn date_of_index(i: int) -> DateView
    decreases
            (if i >= 0 {
                i
            } else {
                -i
            }),
{
    if i == 0 {
        DateView { year: 0, ordinal: 1 }
    } else if i > 0 {
        succ_view(date_of_index(i - 1))
    } else {
        pred_view(date_of_index(i + 1))
    }
}

/// The day-line position of the first representable date.
pub open spec fn min_day_index() -> int {
    days_before_year(MIN_YEAR as int)
}

/// The day-line position of the last representable date.
pub open spec fn max_day_index() -> int {
    days_before_year(MAX_YEAR + 1) - 1
}

/// Stepping one year changes `days_before_year` by that year's length.
pub proof fn lemma_dby_step(y: int)
    ensures
        days_before_year(y + 1) == days_before_year(y) + days_in_year(y),
{
    if y + 1 <= 0 {
        assert(days_before_year(y) == days_before_year(y + 1) - days_in_year(y));
    }
}

/// `days_before_year` grows by at least 365 and at most 366 per year.
pub proof fn lemma_dby_between(a: int, b: int)
    requires
        a <= b,
    ensures
        days_before_year(a) + 365 * (b - a) <= days_before_year(b) <= days_before_year(a) + 366 * (
        b - a),
    decreases b - a,
{
    if a < b {
        lemma_dby_between(a, b - 1);
        lemma_dby_step(b - 1);
    }
}

/// A valid date's day-line position falls inside its year's span of days.
pub proof fn lemma_index_in_year(v: DateView)
    requires
        1 <= v.ordinal <= days_in_year(v.year),
    ensures
        days_before_year(v.year) <= day_index(v),
        day_index(v) < days_before_year(v.year + 1),
{
    lemma_dby_step(v.year);
}

/// Every representable date sits between the extreme day-line positions.
pub proof fn lemma_index_bounds(v: DateView)
    requires
        date_valid(v),
    ensures
        min_day_index() <= day_index(v) <= max_day_index(),
        -96_000_000 < day_index(v) < 96_000_000,
{
    lemma_index_in_year(v);
    lemma_dby_between(MIN_YEAR as int, v.year);
    lemma_dby_between(v.year + 1, MAX_YEAR + 1);
    lemma_dby_between(MIN_YEAR as int, 0);
    lemma_dby_between(0, MAX_YEAR + 1);
}

/// The day line holds each date at one position only.
pub proof fn lemma_index_injective(v: DateView, w: DateView)
    requires
        1 <= v.ordinal <= days_in_year(v.year),
        1 <= w.ordinal <= days_in_year(w.year),
        day_index(v) == day_index(w),
    ensures
        v == w,
{
    lemma_index_in_year(v);
    lemma_index_in_year(w);
    if v.year < w.year {
        lemma_dby_between(v.year + 1, w.year);
    } else if w.year < v.year {
        lemma_dby_between(w.year + 1, v.year);
    }
}

/// `date_of_index` produces a date with a well-formed ordinal at the asked
/// position.
pub proof fn lemma_date_of_index(i: int)
    ensures
        1 <= date_of_index(i).ordinal <= days_in_year(date_of_index(i).year),
        day_index(date_of_index(i)) == i,
    decreases
            (if i >= 0 {
                i
            } else {
                -i
            }),
{
    if i == 0 {
    } else if i > 0 {
        lemma_date_of_index(i - 1);
        let v = date_of_index(i - 1);
        lemma_dby_step(v.year);
    } else {
        lemma_date_of_index(i + 1);
        let v = date_of_index(i + 1);
        lemma_dby_step(v.year - 1);
    }
}

/// Positions within the representable range give representable dates.
pub proof fn lemma_date_of_index_valid(i: int)
    requires
        min_day_index() <= i <= max_day_index(),
    ensures
        date_valid(date_of_index(i)),
{
    lemma_date_of_index(i);
    let v = date_of_index(i);
    lemma_index_in_year(v);
    if v.year < MIN_YEAR {
        lemma_dby_between(v.year + 1, MIN_YEAR as int);
    }
    if v.year > MAX_YEAR {
        lemma_dby_between(MAX_YEAR + 1, v.year);
    }
}

/// Measuring a date and placing the measure back gives the date again.
pub proof fn lemma_index_roundtrip(v: DateView)
    requires
        1 <= v.ordinal <= days_in_year(v.year),
    ensures
        date_of_index(day_index(v)) == v,
{
    lemma_date_of_index(day_index(v));
    lemma_index_injective(date_of_index(day_index(v)), v);
}

/// Days in month `m` of year `y` (months are one-based).
pub open spec fn days_in_month(y: int, m: int) -> int {
    if m == 2 {
        if is_leap_year(y) {
            29
        } else {
            28
        }
    } else if m == 4 || m == 6 || m == 9 || m == 11 {
        30
    } else {
        31
    }
}

/// Days of year `y` that pass before month `m` begins.
pub open spec fn days_before_month(y: int, m: int) -> int
    decreases m,
{
    if m <= 1 {
        0
    } else {
        days_before_month(y, m - 1) + days_in_month(y, m - 1)
    }
}

/// A representable year-month-day combination.
pub open spec fn valid_ymd(y: int, m: int, d: int) -> bool {
    &&& MIN_YEAR <= y <= MAX_YEAR
    &&& 1 <= m <= 12
    &&& 1 <= d <= days_in_month(y, m)
}

/// The month that day `o` of year `y` falls in, counted from month `m`.
pub open spec fn month_of_from(y: int, o: int, m: int) -> int
    decreases 12 - m,
{
    if m >= 12 || o <= days_before_month(y, m + 1) {
        m
    } else {
        month_of_from(y, o, m + 1)
    }
}

/// The month that day `o` of year `y` falls in.
pub open spec fn month_of(y: int, o: int) -> int {
    month_of_from(y, o, 1)
}

/// The day of the month that day `o` of year `y` falls on.
pub open spec fn day_of(y: int, o: int) -> int {
    o - days_before_month(y, month_of(y, o))
}

/// The year's days are exactly the days of its twelve months.
pub proof fn lemma_dbm_whole_year(y: int)
    ensures
        days_before_month(y, 13) == days_in_year(y),
{
    reveal_with_fuel(days_before_month, 14);
}

/// `month_of`/`day_of` invert the month-day to ordinal computation.
pub proof fn lemma_month_of_inverse(y: int, m: int, d: int)
    requires
        1 <= m <= 12,
        1 <= d <= days_in_month(y, m),
    ensures
        month_of(y, days_before_month(y, m) + d) == m,
        day_of(y, days_before_month(y, m) + d) == d,
{
    let o = days_before_month(y, m) + d;
    lemma_month_of_from_inverse(y, o, m, 1);
}

/// Helper induction for [`lemma_month_of_inverse`]: scanning from any month
/// at or before the true one lands on the true one.
proof fn lemma_month_of_from_inverse(y: int, o: int, m: int, k: int)
    requires
        1 <= k <= m <= 12,
        days_before_month(y, m) < o <= days_before_month(y, m) + days_in_month(y, m),
    ensures
        month_of_from(y, o, k) == m,
    decreases m - k,
{
    if k < m {
        lemma_dbm_nondecreasing(y, k + 1, m);
        lemma_month_of_from_inverse(y, o, m, k + 1);
    }
}

/// `days_before_month` never decreases as the month grows.
pub proof fn lemma_dbm_nondecreasing(y: int, a: int, b: int)
    requires
        a <= b,
    ensures
        days_before_month(y, a) <= days_before_month(y, b),
    decreases b - a,
{
    if a < b {
        lemma_dbm_nondecreasing(y, a, b - 1);
    }
}

} // verus!

use vstd::prelude::*;

verus! {

/// A zone-independent calendar date, held as year plus day of year.
#[derive(Clone, Copy, PartialEq, Eq, Structural, Debug)]
pub struct NaiveDate {
    year: i32,
    ordinal: u32,
}

impl View for NaiveDate {
    type V = DateView;

    closed spec fn view(&self) -> DateView {
        DateView { year: self.year as int, ordinal: self.ordinal as int }
    }
}

/// The date value holding a given model (meaningful on valid models).
pub closed spec fn date_of_view(v: DateView) -> NaiveDate {
    NaiveDate { year: v.year as i32, ordinal: v.ordinal as u32 }
}

/// On representable models, `date_of_view` holds exactly that model.
pub proof fn lemma_date_of_view(v: DateView)
    requires
        date_valid(v),
    ensures
        date_of_view(v)@ == v,
        date_of_view(v).wf(),
{
}

/// Days in year `y`.
pub fn days_in_year_exec(y: i32) -> (r: u32)
    ensures
        r == days_in_year(y as int),
        365 <= r <= 366,
{
    let z: i64 = y as i64 + 4_000_000_000;
    let zu: u64 = z as u64;
    proof {
        lemma_mod_multiples_vanish(1_000_000_000int, y as int, 4int);
        lemma_mod_multiples_vanish(40_000_000int, y as int, 100int);
        lemma_mod_multiples_vanish(10_000_000int, y as int, 400int);
    }
    if zu % 4 == 0 && (zu % 100 != 0 || zu % 400 == 0) {
        366
    } else {
        365
    }
}

/// Days in month `m` of year `y`.
pub fn days_in_month_exec(y: i32, m: u32) -> (r: u32)
    requires
        1 <= m <= 12,
    ensures
        r == days_in_month(y as int, m as int),
        28 <= r <= 31,
{
    if m == 2 {
        let diy = days_in_year_exec(y);
        if diy == 366 {
            29
        } else {
            28
        }
    } else if m == 4 || m == 6 || m == 9 || m == 11 {
        30
    } else {
        31
    }
}

impl NaiveDate {
    /// The date is representable.
    pub open spec fn wf(self) -> bool {
        date_valid(self@)
    }

    /// Builds the date of the given year and day of year; `None` when the
    /// combination is not a representable date.
    pub fn from_yo_opt(year: i32, ordinal: u32) -> (r: Option<NaiveDate>)
        ensures
            match r {
                Some(d) => {
                    &&& d.wf()
                    &&& d@.year == year as int
                    &&& d@.ordinal == ordinal as int
                    &&& MIN_YEAR <= year <= MAX_YEAR
                    &&& 1 <= ordinal <= days_in_year(year as int)
                },
                None => !(MIN_YEAR <= year <= MAX_YEAR && 1 <= ordinal <= days_in_year(
                    year as int,
                )),
            },
    {
        if year < MIN_YEAR || year > MAX_YEAR || ordinal < 1 {
            return None;
        }
        if ordinal > days_in_year_exec(year) {
            return None;
        }
        Some(NaiveDate { year, ordinal })
    }

    /// Builds the date of the given year, month and day; `None` when the
    /// fields are not a representable calendar date.
    pub fn from_ymd_opt(year: i32, month: u32, day: u32) -> (r: Option<NaiveDate>)
        ensures
            match r {
                Some(d) => {
                    &&& valid_ymd(year as int, month as int, day as int)
                    &&& d.wf()
                    &&& d@.year == year as int
                    &&& d@.ordinal == days_before_month(year as int, month as int) + day
                },
                None => !valid_ymd(year as int, month as int, day as int),
            },
    {
        if year < MIN_YEAR || year > MAX_YEAR || month < 1 || month > 12 {
            return None;
        }
        if day < 1 || day > days_in_month_exec(year, month) {
            return None;
        }
        let mut m: u32 = 1;
        let mut acc: u32 = 0;
        while m < month
            invariant
                1 <= m <= month <= 12,
                acc == days_before_month(year as int, m as int),
                acc <= 31 * (m - 1),
            decreases month - m,
        {
            acc = acc + days_in_month_exec(year, m);
            m = m + 1;
        }
        let d = NaiveDate { year, ordinal: acc + day };
        proof {
            lemma_dbm_whole_year(year as int);
            lemma_dbm_nondecreasing(year as int, month as int + 1, 13);
            assert(days_before_month(year as int, month as int + 1) == days_before_month(
                year as int,
                month as int,
            ) + days_in_month(year as int, month as int));
        }
        Some(d)
    }

    /// The date's year.
    pub fn year(&self) -> (r: i32)
        ensures
            r == self@.year,
    {
        self.year
    }

    /// The date's day of year, one-based.
    pub fn ordinal(&self) -> (r: u32)
        ensures
            r == self@.ordinal,
    {
        self.ordinal
    }

    /// The date's day of year, zero-based.
    pub fn ordinal0(&self) -> (r: u32)
        requires
            self.wf(),
        ensures
            r == self@.ordinal - 1,
    {
        self.ordinal - 1
    }

    /// The date's month and day of month.
    pub fn month_day(&self) -> (md: (u32, u32))
        requires
            self.wf(),
        ensures
            md.0 == month_of(self@.year, self@.ordinal),
            md.1 == day_of(self@.year, self@.ordinal),
            1 <= md.0 <= 12,
            1 <= md.1 <= days_in_month(self@.year, md.0 as int),
    {
        let mut m: u32 = 1;
        let mut rem: u32 = self.ordinal;
        while rem > days_in_month_exec(self.year, m)
            invariant
                self.wf(),
                1 <= m <= 12,
                rem == self@.ordinal - days_before_month(self@.year, m as int),
                1 <= rem,
            decreases 12 - m,
        {
            proof {
                lemma_dbm_whole_year(self@.year);
                if m == 12 {
                    assert(days_before_month(self@.year, 13) == days_before_month(self@.year, 12)
                        + days_in_month(self@.year, 12));
                    assert(false);
                }
            }
            rem = rem - days_in_month_exec(self.year, m);
            m = m + 1;
        }
        proof {
            lemma_month_of_inverse(self@.year, m as int, rem as int);
        }
        (m, rem)
    }

    /// The date's month, one-based.
    pub fn month(&self) -> (r: u32)
        requires
            self.wf(),
        ensures
            r == month_of(self@.year, self@.ordinal),
            1 <= r <= 12,
    {
        self.month_day().0
    }

    /// The date's month, zero-based.
    pub fn month0(&self) -> (r: u32)
        requires
            self.wf(),
        ensures
            r == month_of(self@.year, self@.ordinal) - 1,
    {
        self.month_day().0 - 1
    }

    /// The date's day of month, one-based.
    pub fn day(&self) -> (r: u32)
        requires
            self.wf(),
        ensures
            r == day_of(self@.year, self@.ordinal),
            1 <= r <= 31,
    {
        self.month_day().1
    }

    /// The date's day of month, zero-based.
    pub fn day0(&self) -> (r: u32)
        requires
            self.wf(),
        ensures
            r == day_of(self@.year, self@.ordinal) - 1,
    {
        self.month_day().1 - 1
    }

    /// The date's position on the day line.
    pub fn day_index_exec(&self) -> (r: i64)
        requires
            self.wf(),
        ensures
            r == day_index(self@),
            -96_000_000 < r < 96_000_000,
    {
        proof {
            lemma_index_bounds(self@);
        }
        let dby = days_before_year_exec(self.year);
        dby + self.ordinal as i64 - 1
    }

    /// The next calendar date; `None` at the last representable date.
    pub fn succ_opt(&self) -> (r: Option<NaiveDate>)
        requires
            self.wf(),
        ensures
            match r {
                Some(d) => {
                    &&& d.wf()
                    &&& d@ == succ_view(self@)
                    &&& day_index(d@) == day_index(self@) + 1
                },
                None => day_index(self@) == max_day_index(),
            },
    {
        if self.ordinal < days_in_year_exec(self.year) {
            Some(NaiveDate { year: self.year, ordinal: self.ordinal + 1 })
        } else if self.year >= MAX_YEAR {
            proof {
                lemma_dby_step(self@.year);
            }
            None
        } else {
            proof {
                lemma_dby_step(self@.year);
            }
            Some(NaiveDate { year: self.year + 1, ordinal: 1 })
        }
    }

    /// The previous calendar date; `None` at the first representable date.
    pub fn pred_opt(&self) -> (r: Option<NaiveDate>)
        requires
            self.wf(),
        ensures
            match r {
                Some(d) => {
                    &&& d.wf()
                    &&& d@ == pred_view(self@)
                    &&& day_index(d@) == day_index(self@) - 1
                },
                None => day_index(self@) == min_day_index(),
            },
    {
        if self.ordinal > 1 {
            Some(NaiveDate { year: self.year, ordinal: self.ordinal - 1 })
        } else if self.year <= MIN_YEAR {
            None
        } else {
            proof {
                lemma_dby_step(self@.year - 1);
            }
            Some(NaiveDate { year: self.year - 1, ordinal: days_in_year_exec(self.year - 1) })
        }
    }

    /// The date `n` days later (earlier for negative `n`); `None` when that
    /// leaves the representable range.
    pub fn checked_add_days(&self, n: i64) -> (r: Option<NaiveDate>)
        requires
            self.wf(),
        ensures
            match r {
                Some(d) => {
                    &&& d.wf()
                    &&& day_index(d@) == day_index(self@) + n
                    &&& d@ == date_of_index(day_index(self@) + n)
                },
                None => day_index(self@) + n < min_day_index() || day_index(self@) + n
                    > max_day_index(),
            },
    {
        proof {
            lemma_index_bounds(self@);
            lemma_dby_between(MIN_YEAR as int, 0);
            lemma_dby_between(0, MAX_YEAR + 1);
        }
        if n > 200_000_000 || n < -200_000_000 {
            return None;
        }
        let ghost target = day_index(self@) + n;
        let mut year: i32 = self.year;
        let mut ord: i64 = self.ordinal as i64 + n;
        while ord < 1
            invariant
                MIN_YEAR <= year <= MAX_YEAR,
                target == day_index(self@) + n,
                days_before_year(year as int) + ord - 1 == target,
                -300_000_000 <= ord <= 300_000_000,
            decreases
                    (if ord < 1 {
                        1 - ord
                    } else {
                        0
                    }),
        {
            if year == MIN_YEAR {
                return None;
            }
            year = year - 1;
            let diy = days_in_year_exec(year);
            proof {
                lemma_dby_step(year as int);
            }
            ord = ord + diy as i64;
        }
        while ord > days_in_year_exec(year) as i64
            invariant
                MIN_YEAR <= year <= MAX_YEAR,
                target == day_index(self@) + n,
                days_before_year(year as int) + ord - 1 == target,
                1 <= ord <= 300_000_000,
            decreases ord,
        {
            if year == MAX_YEAR {
                proof {
                    lemma_dby_step(MAX_YEAR as int);
                }
                return None;
            }
            let diy = days_in_year_exec(year);
            ord = ord - diy as i64;
            year = year + 1;
            proof {
                lemma_dby_step(year as int - 1);
            }
        }
        let d = NaiveDate { year, ordinal: ord as u32 };
        proof {
            lemma_index_roundtrip(d@);
        }
        Some(d)
    }

    /// The date standing at position `i` of the day line; `None` when `i`
    /// lies outside the representable range.
    pub fn from_day_index(i: i64) -> (r: Option<NaiveDate>)
        ensures
            match r {
                Some(d) => {
                    &&& d.wf()
                    &&& day_index(d@) == i
                    &&& d@ == date_of_index(i as int)
                },
                None => i < min_day_index() || i > max_day_index(),
            },
    {
        let base = NaiveDate { year: 0, ordinal: 1 };
        base.checked_add_days(i)
    }

    /// The same date with the year replaced, keeping month and day of month;
    /// `None` when the new combination is not a representable date.
    pub fn with_year(&self, year: i32) -> (r: Option<NaiveDate>)
        requires
            self.wf(),
        ensures
            ({
                let m = month_of(self@.year, self@.ordinal);
                let d = day_of(self@.year, self@.ordinal);
                match r {
                    Some(nd) => {
                        &&& valid_ymd(year as int, m, d)
                        &&& nd.wf()
                        &&& nd@.year == year as int
                        &&& nd@.ordinal == days_before_month(year as int, m) + d
                    },
                    None => !valid_ymd(year as int, m, d),
                }
            }),
    {
        let (m, d) = self.month_day();
        NaiveDate::from_ymd_opt(year, m, d)
    }

    /// The same date with the month replaced (one-based), keeping day of
    /// month; `None` when the combination is not representable.
    pub fn with_month(&self, month: u32) -> (r: Option<NaiveDate>)
        requires
            self.wf(),
        ensures
            ({
                let d = day_of(self@.year, self@.ordinal);
                match r {
                    Some(nd) => {
                        &&& valid_ymd(self@.year, month as int, d)
                        &&& nd.wf()
                        &&& nd@.year == self@.year
                        &&& nd@.ordinal == days_before_month(self@.year, month as int) + d
                    },
                    None => !valid_ymd(self@.year, month as int, d),
                }
            }),
    {
        let (_, d) = self.month_day();
        NaiveDate::from_ymd_opt(self.year, month, d)
    }

    /// The same date with the month replaced (zero-based).
    pub fn with_month0(&self, month0: u32) -> (r: Option<NaiveDate>)
        requires
            self.wf(),
        ensures
            ({
                let d = day_of(self@.year, self@.ordinal);
                match r {
                    Some(nd) => {
                        &&& valid_ymd(self@.year, month0 + 1, d)
                        &&& nd.wf()
                        &&& nd@.year == self@.year
                        &&& nd@.ordinal == days_before_month(self@.year, month0 + 1) + d
                    },
                    None => !valid_ymd(self@.year, month0 + 1, d),
                }
            }),
    {
        if month0 >= 12 {
            return None;
        }
        self.with_month(month0 + 1)
    }

    /// The same date with the day of month replaced (one-based); `None` when
    /// the combination is not representable.
    pub fn with_day(&self, day: u32) -> (r: Option<NaiveDate>)
        requires
            self.wf(),
        ensures
            ({
                let m = month_of(self@.year, self@.ordinal);
                match r {
                    Some(nd) => {
                        &&& valid_ymd(self@.year, m, day as int)
                        &&& nd.wf()
                        &&& nd@.year == self@.year
                        &&& nd@.ordinal == days_before_month(self@.year, m) + day
                    },
                    None => !valid_ymd(self@.year, m, day as int),
                }
            }),
    {
        let (m, _) = self.month_day();
        NaiveDate::from_ymd_opt(self.year, m, day)
    }

    /// The same date with the day of month replaced (zero-based).
    pub fn with_day0(&self, day0: u32) -> (r: Option<NaiveDate>)
        requires
            self.wf(),
        ensures
            ({
                let m = month_of(self@.year, self@.ordinal);
                match r {
                    Some(nd) => {
                        &&& valid_ymd(self@.year, m, day0 + 1)
                        &&& nd.wf()
                        &&& nd@.year == self@.year
                        &&& nd@.ordinal == days_before_month(self@.year, m) + day0 + 1
                    },
                    None => !valid_ymd(self@.year, m, day0 + 1),
                }
            }),
    {
        if day0 >= 31 {
            return None;
        }
        self.with_day(day0 + 1)
    }

    /// The same date with the day of year replaced (one-based); `None` when
    /// the combination is not representable.
    pub fn with_ordinal(&self, ordinal: u32) -> (r: Option<NaiveDate>)
        requires
            self.wf(),
        ensures
            match r {
                Some(nd) => {
                    &&& nd.wf()
                    &&& nd@.year == self@.year
                    &&& nd@.ordinal == ordinal as int
                    &&& 1 <= ordinal <= days_in_year(self@.year)
                },
                None => !(1 <= ordinal <= days_in_year(self@.year)),
            },
    {
        NaiveDate::from_yo_opt(self.year, ordinal)
    }

    /// The same date with the day of year replaced (zero-based).
    pub fn with_ordinal0(&self, ordinal0: u32) -> (r: Option<NaiveDate>)
        requires
            self.wf(),
        ensures
            match r {
                Some(nd) => {
                    &&& nd.wf()
                    &&& nd@.year == self@.year
                    &&& nd@.ordinal == ordinal0 + 1
                    &&& 1 <= ordinal0 + 1 <= days_in_year(self@.year)
                },
                None => !(1 <= ordinal0 + 1 <= days_in_year(self@.year)),
            },
    {
        if ordinal0 >= 366 {
            return None;
        }
        NaiveDate::from_yo_opt(self.year, ordinal0 + 1)
    }
}

/// Days from the first day of year 0 to the first day of year `y`.
pub fn days_before_year_exec(y: i32) -> (r: i64)
    requires
        MIN_YEAR - 2 <= y as int <= MAX_YEAR + 2,
    ensures
        r == days_before_year(y as int),
        -96_100_000 < r < 96_100_000,
{
    let mut cur: i32 = 0;
    let mut acc: i64 = 0;
    if y >= 0 {
        while cur < y
            invariant
                0 <= cur <= y,
                y as int <= MAX_YEAR + 2,
                acc == days_before_year(cur as int),
                0 <= acc <= 366 * cur,
            decreases y - cur,
        {
            proof {
                lemma_dby_step(cur as int);
            }
            acc = acc + days_in_year_exec(cur) as i64;
            cur = cur + 1;
        }
    } else {
        while cur > y
            invariant
                y <= cur <= 0,
                MIN_YEAR - 2 <= y as int,
                acc == days_before_year(cur as int),
                366 * cur <= acc <= 0,
            decreases cur - y,
        {
            cur = cur - 1;
            proof {
                lemma_dby_step(cur as int);
            }
            acc = acc - days_in_year_exec(cur) as i64;
        }
    }
    acc
}

} // verus!

verus! {

/// Two dates with one model are one value.
pub proof fn lemma_date_value_injective(a: NaiveDate, b: NaiveDate)
    requires
        a@ == b@,
    ensures
        a == b,
{
}

} // verus!

verus! {

/// The model of the date year `y`, month `m`, day `d`.
pub open spec fn ymd_view(y: int, m: int, d: int) -> DateView {
    DateView { year: y, ordinal: days_before_month(y, m) + d }
}

/// Valid year-month-day fields give a representable date model.
pub proof fn lemma_ymd_view_valid(y: int, m: int, d: int)
    requires
        valid_ymd(y, m, d),
    ensures
        date_valid(ymd_view(y, m, d)),
{
    lemma_dbm_whole_year(y);
    lemma_dbm_nondecreasing(y, m + 1, 13);
    lemma_dbm_nondecreasing(y, 1, m);
    assert(days_before_month(y, m + 1) == days_before_month(y, m) + days_in_month(y, m));
}

} // verus!

use crate::weekday::{
    spec_days_from_monday, weekday_from_monday_count, weekday_from_monday_count_exec, Weekday,
};

verus! {

/// Days since Monday of the date's day of the week: day-line position 0
/// (the first day of year 0) is a Saturday.
pub open spec fn weekday_count_of(v: DateView) -> int {
    (day_index(v) + 5) % 7
}

/// The date's day of the week.
pub open spec fn weekday_of(v: DateView) -> Weekday {
    weekday_from_monday_count(weekday_count_of(v))
}

/// The day-line position of the 4th of January of year `y` (always inside
/// the first ISO week of `y`).
pub open spec fn jan4_index(y: int) -> int {
    days_before_year(y) + 3
}

/// The day-line position of the Monday beginning ISO week 1 of year `y`.
pub open spec fn week1_monday(y: int) -> int {
    jan4_index(y) - (jan4_index(y) + 5) % 7
}

/// The ISO week-year a date belongs to: the `y` whose week 1 Monday is the
/// last one at or before the date; always the date's own year or one of its
/// neighbours.
pub open spec fn iso_year_of(v: DateView) -> int {
    if day_index(v) < week1_monday(v.year) {
        v.year - 1
    } else if day_index(v) >= week1_monday(v.year + 1) {
        v.year + 1
    } else {
        v.year
    }
}

/// The date's one-based ISO week number within its ISO week-year.
pub open spec fn iso_week_of(v: DateView) -> int {
    (day_index(v) - week1_monday(iso_year_of(v))) / 7 + 1
}

/// Week 1 Mondays sit within a few days of the year's start, and step by
/// roughly one year.
pub proof fn lemma_week1_monday_bounds(y: int)
    ensures
        days_before_year(y) - 3 <= week1_monday(y) <= days_before_year(y) + 3,
{
    vstd::arithmetic::div_mod::lemma_mod_division_less_than_divisor(jan4_index(y) + 5, 7int);
}

impl NaiveDate {
    /// The date's day of the week.
    pub fn weekday(&self) -> (r: Weekday)
        requires
            self.wf(),
        ensures
            r == weekday_of(self@),
    {
        let idx = self.day_index_exec();
        let n: u64 = ((idx + 5 + 105_000_000) as u64) % 7;
        proof {
            lemma_mod_multiples_vanish(15_000_000int, day_index(self@) + 5, 7int);
        }
        weekday_from_monday_count_exec(n as u32)
    }

    /// The date's ISO week date: week-year, one-based week number, and day
    /// of the week.
    pub fn isoweekdate(&self) -> (r: (i32, u32, Weekday))
        requires
            self.wf(),
        ensures
            r.0 == iso_year_of(self@),
            r.1 == iso_week_of(self@),
            r.2 == weekday_of(self@),
    {
        proof {
            lemma_index_bounds(self@);
            lemma_index_in_year(self@);
            lemma_week1_monday_bounds(self@.year - 1);
            lemma_week1_monday_bounds(self@.year);
            lemma_week1_monday_bounds(self@.year + 1);
            lemma_dby_step(self@.year - 1);
            lemma_dby_step(self@.year);
        }
        let idx = self.day_index_exec();
        let w1_this = week1_monday_exec(self.year);
        let w1_next = week1_monday_exec(self.year + 1);
        let (iso_year, week1): (i32, i64) = if idx < w1_this {
            (self.year - 1, week1_monday_exec(self.year - 1))
        } else if idx >= w1_next {
            (self.year + 1, w1_next)
        } else {
            (self.year, w1_this)
        };
        let week: u32 = (((idx - week1) as u64) / 7) as u32 + 1;
        proof {
            lemma_week1_monday_bounds(iso_year as int);
            lemma_week1_monday_bounds(iso_year as int - 1);
        }
        (iso_year, week, self.weekday())
    }
}

/// The day-line position of the Monday beginning ISO week 1 of year `y`.
pub fn week1_monday_exec(y: i32) -> (r: i64)
    requires
        MIN_YEAR - 1 <= y as int <= MAX_YEAR + 1,
    ensures
        r == week1_monday(y as int),
        -96_200_000 < r < 96_200_000,
{
    let j4: i64 = days_before_year_exec(y) + 3;
    let m: i64 = (((j4 + 5 + 105_000_000) as u64) % 7) as i64;
    proof {
        lemma_mod_multiples_vanish(15_000_000int, jan4_index(y as int) + 5, 7int);
    }
    j4 - m
}

} // verus!

verus! {

/// Chronological order on the day line agrees with comparing year first and
/// day of year second.
pub proof fn lemma_index_order(v: DateView, w: DateView)
    requires
        1 <= v.ordinal <= days_in_year(v.year),
        1 <= w.ordinal <= days_in_year(w.year),
    ensures
        (day_index(v) < day_index(w)) <==> (v.year < w.year || (v.year == w.year && v.ordinal
            < w.ordinal)),
{
    lemma_index_in_year(v);
    lemma_index_in_year(w);
    if v.year < w.year {
        lemma_dby_between(v.year + 1, w.year);
    } else if w.year < v.year {
        lemma_dby_between(w.year + 1, v.year);
    }
}

impl NaiveDate {
    /// Compares two dates chronologically.
    pub fn compare(&self, other: &NaiveDate) -> (r: core::cmp::Ordering)
        requires
            self.wf(),
            other.wf(),
        ensures
            r == core::cmp::Ordering::Less <==> day_index(self@) < day_index(other@),
            r == core::cmp::Ordering::Greater <==> day_index(self@) > day_index(other@),
            r == core::cmp::Ordering::Equal <==> self@ == other@,
    {
        proof {
            lemma_index_order(self@, other@);
            lemma_index_order(other@, self@);
        }
        if self.year < other.year {
            core::cmp::Ordering::Less
        } else if self.year > other.year {
            core::cmp::Ordering::Greater
        } else if self.ordinal < other.ordinal {
            core::cmp::Ordering::Less
        } else if self.ordinal > other.ordinal {
            core::cmp::Ordering::Greater
        } else {
            core::cmp::Ordering::Equal
        }
    }
}

} // verus!

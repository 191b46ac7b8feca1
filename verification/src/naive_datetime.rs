//! Zone-independent combined date and time values.

use vstd::prelude::*;
use vstd::arithmetic::div_mod::{
    lemma_fundamental_div_mod, lemma_fundamental_div_mod_converse_div, lemma_multiply_divide_lt,
};
use crate::duration::Duration;
use crate::naive_date::{
    date_valid, day_index, max_day_index, min_day_index, DateView, NaiveDate,
};
use crate::naive_time::{time_valid, NaiveTime, TimeView};

verus! {

/// Mathematical model of a combined date and time.
pub ghost struct DateTimeView {
    pub date: DateView,
    pub time: TimeView,
}

/// A representable combined value.
pub open spec fn datetime_valid(v: DateTimeView) -> bool {
    date_valid(v.date) && time_valid(v.time)
}

/// The position of a combined value on the nanosecond line; 0 is midnight of
/// the first day of year 0. A leap-second fraction counts on into the next
/// stored second, so the measure of a value is not changed by renormalizing
/// its fraction below one second.
pub open spec fn dt_index_nanos(v: DateTimeView) -> int {
    (day_index(v.date) * 86_400 + v.time.secs) * 1_000_000_000 + v.time.frac
}

/// A zone-independent calendar date with a time of day.
#[derive(Clone, Copy, PartialEq, Eq, Structural, Debug)]
pub struct NaiveDateTime {
    date: NaiveDate,
    time: NaiveTime,
}

impl View for NaiveDateTime {
    type V = DateTimeView;

    closed spec fn view(&self) -> DateTimeView {
        DateTimeView { date: self.date@, time: self.time@ }
    }
}

impl NaiveDateTime {
    /// The combined value is representable.
    pub open spec fn wf(self) -> bool {
        datetime_valid(self@)
    }

    /// Combines a date and a time of day.
    pub fn new(date: NaiveDate, time: NaiveTime) -> (r: NaiveDateTime)
        ensures
            r@.date == date@,
            r@.time == time@,
            r == datetime_of_parts(date, time),
    {
        NaiveDateTime { date, time }
    }

    /// The calendar date part, as a value.
    pub closed spec fn spec_date_part(&self) -> NaiveDate {
        self.date
    }

    /// The calendar date part.
    pub fn date(&self) -> (r: NaiveDate)
        ensures
            r == self.spec_date_part(),
            r@ == self@.date,
    {
        self.date
    }

    /// The time-of-day part.
    pub fn time(&self) -> (r: NaiveTime)
        ensures
            r@ == self@.time,
    {
        self.time
    }

    /// The combined value shifted by a signed span; the result's fraction is
    /// always below one second (a leap-second encoding does not survive
    /// arithmetic). `None` when the result's date leaves the representable
    /// range.
    pub fn checked_add_signed(&self, dur: &Duration) -> (r: Option<NaiveDateTime>)
        requires
            self.wf(),
            dur.wf(),
        ensures
            match r {
                Some(d) => {
                    &&& d.wf()
                    &&& d@.time.frac < 1_000_000_000
                    &&& dt_index_nanos(d@) == dt_index_nanos(self@) + dur@
                },
                None => (dt_index_nanos(self@) + dur@) / 86_400_000_000_000 < min_day_index() || (
                dt_index_nanos(self@) + dur@) / 86_400_000_000_000 > max_day_index(),
            },
    {
        let dtotal: i128 = (dur.secs_part() as i128) * 1_000_000_000 + (dur.subsec_nanos() as i128);
        assert(dtotal == dur@);
        self.shifted_nanos(dtotal)
    }

    /// The combined value shifted backward by a signed span; as with adding,
    /// the result's fraction is always below one second. `None` when the
    /// result's date leaves the representable range.
    pub fn checked_sub_signed(&self, dur: &Duration) -> (r: Option<NaiveDateTime>)
        requires
            self.wf(),
            dur.wf(),
        ensures
            match r {
                Some(d) => {
                    &&& d.wf()
                    &&& d@.time.frac < 1_000_000_000
                    &&& dt_index_nanos(d@) == dt_index_nanos(self@) - dur@
                },
                None => (dt_index_nanos(self@) - dur@) / 86_400_000_000_000 < min_day_index() || (
                dt_index_nanos(self@) - dur@) / 86_400_000_000_000 > max_day_index(),
            },
    {
        let dtotal: i128 = (dur.secs_part() as i128) * 1_000_000_000 + (dur.subsec_nanos() as i128);
        assert(dtotal == dur@);
        self.shifted_nanos(-dtotal)
    }

    /// The combined value at nanosecond-line position `dt_index_nanos(self@)
    /// + delta`, with the fraction renormalized below one second.
    fn shifted_nanos(&self, delta: i128) -> (r: Option<NaiveDateTime>)
        requires
            self.wf(),
            -20_000_000_000_000_000_000_000_000_000 <= delta
                <= 20_000_000_000_000_000_000_000_000_000,
        ensures
            match r {
                Some(d) => {
                    &&& d.wf()
                    &&& d@.time.frac < 1_000_000_000
                    &&& dt_index_nanos(d@) == dt_index_nanos(self@) + delta
                },
                None => (dt_index_nanos(self@) + delta) / 86_400_000_000_000 < min_day_index() || (
                dt_index_nanos(self@) + delta) / 86_400_000_000_000 > max_day_index(),
            },
    {
        let idx: i64 = self.date.day_index_exec();
        let t: i128 = ((idx * 86_400 + self.time.secs_since_midnight() as i64) as i128)
            * 1_000_000_000 + (self.time.nanosecond() as i128);
        assert(t == dt_index_nanos(self@));
        let total: i128 = t + delta;
        let ghost target = dt_index_nanos(self@) + delta;
        assert(total == target);
        let shifted: i128 = total + 86_400_000_000_000 * 300_000_000_000_000;
        let su: u128 = shifted as u128;
        let day_sh: u128 = su / 86_400_000_000_000;
        let rem: u128 = su % 86_400_000_000_000;
        proof {
            lemma_fundamental_div_mod(su as int, 86_400_000_000_000int);
            lemma_fundamental_div_mod_converse_div(
                target,
                86_400_000_000_000int,
                day_sh as int - 300_000_000_000_000,
                rem as int,
            );
            lemma_multiply_divide_lt(rem as int, 1_000_000_000int, 86_400int);
        }
        let day: i64 = (day_sh as i128 - 300_000_000_000_000) as i64;
        let secs: u32 = (rem / 1_000_000_000) as u32;
        let frac: u32 = (rem % 1_000_000_000) as u32;
        match NaiveDate::from_day_index(day) {
            None => None,
            Some(d) => {
                let time = NaiveTime::from_parts(secs, frac);
                proof {
                    lemma_fundamental_div_mod(rem as int, 1_000_000_000int);
                }
                Some(NaiveDateTime { date: d, time })
            },
        }
    }
}

} // verus!

verus! {

/// The combined value holding a given date and time.
pub closed spec fn datetime_of_parts(date: NaiveDate, time: NaiveTime) -> NaiveDateTime {
    NaiveDateTime { date, time }
}

/// `datetime_of_parts` holds exactly the given parts.
pub proof fn lemma_datetime_of_parts(date: NaiveDate, time: NaiveTime)
    ensures
        datetime_of_parts(date, time)@.date == date@,
        datetime_of_parts(date, time)@.time == time@,
{
}

/// Two combined values with one model are one value.
pub proof fn lemma_datetime_value_injective(a: NaiveDateTime, b: NaiveDateTime)
    requires
        a@ == b@,
    ensures
        a == b,
{
    crate::naive_date::lemma_date_value_injective(a.date, b.date);
    crate::naive_time::lemma_time_value_injective(a.time, b.time);
}

/// The combined value standing at position `t` of the nanosecond line, its
/// fraction below one second.
pub open spec fn datetime_of_nanos(t: int) -> NaiveDateTime {
    let day = t / 86_400_000_000_000;
    let rem = t % 86_400_000_000_000;
    datetime_of_parts(
        crate::naive_date::date_of_view(crate::naive_date::date_of_index(day)),
        crate::naive_time::time_of_view(TimeView { secs: rem / 1_000_000_000, frac: rem % 1_000_000_000 }),
    )
}

/// On positions whose day is representable, `datetime_of_nanos` is valid,
/// normal, and sits at the asked position.
pub proof fn lemma_datetime_of_nanos(t: int)
    requires
        min_day_index() <= t / 86_400_000_000_000 <= max_day_index(),
    ensures
        datetime_of_nanos(t).wf(),
        datetime_of_nanos(t)@.time.frac < 1_000_000_000,
        dt_index_nanos(datetime_of_nanos(t)@) == t,
{
    let day = t / 86_400_000_000_000;
    let rem = t % 86_400_000_000_000;
    vstd::arithmetic::div_mod::lemma_fundamental_div_mod(t, 86_400_000_000_000int);
    vstd::arithmetic::div_mod::lemma_mod_division_less_than_divisor(t, 86_400_000_000_000int);
    vstd::arithmetic::div_mod::lemma_fundamental_div_mod(rem, 1_000_000_000int);
    vstd::arithmetic::div_mod::lemma_mod_division_less_than_divisor(rem, 1_000_000_000int);
    vstd::arithmetic::div_mod::lemma_multiply_divide_lt(rem, 1_000_000_000int, 86_400int);
    crate::naive_date::lemma_date_of_index(day);
    crate::naive_date::lemma_date_of_index_valid(day);
    crate::naive_date::lemma_date_of_view(crate::naive_date::date_of_index(day));
    crate::naive_time::lemma_time_of_view(
        TimeView { secs: rem / 1_000_000_000, frac: rem % 1_000_000_000 },
    );
    lemma_datetime_of_parts(
        crate::naive_date::date_of_view(crate::naive_date::date_of_index(day)),
        crate::naive_time::time_of_view(
            TimeView { secs: rem / 1_000_000_000, frac: rem % 1_000_000_000 },
        ),
    );
}

/// Two valid normal combined values at one nanosecond position are equal.
pub proof fn lemma_dt_index_injective(a: NaiveDateTime, b: NaiveDateTime)
    requires
        a.wf(),
        b.wf(),
        a@.time.frac < 1_000_000_000,
        b@.time.frac < 1_000_000_000,
        dt_index_nanos(a@) == dt_index_nanos(b@),
    ensures
        a == b,
{
    let ra = a@.time.secs * 1_000_000_000 + a@.time.frac;
    let rb = b@.time.secs * 1_000_000_000 + b@.time.frac;
    vstd::arithmetic::div_mod::lemma_fundamental_div_mod_converse_div(
        dt_index_nanos(a@),
        86_400_000_000_000int,
        day_index(a@.date),
        ra,
    );
    vstd::arithmetic::div_mod::lemma_fundamental_div_mod_converse_div(
        dt_index_nanos(b@),
        86_400_000_000_000int,
        day_index(b@.date),
        rb,
    );
    crate::naive_date::lemma_index_injective(a@.date, b@.date);
    vstd::arithmetic::div_mod::lemma_fundamental_div_mod_converse_div(
        ra,
        1_000_000_000int,
        a@.time.secs,
        a@.time.frac,
    );
    vstd::arithmetic::div_mod::lemma_fundamental_div_mod_converse_div(
        rb,
        1_000_000_000int,
        b@.time.secs,
        b@.time.frac,
    );
    lemma_datetime_value_injective(a, b);
}

} // verus!

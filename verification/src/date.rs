//! Calendar dates with a time zone: a canonical date plus a cached offset
//! state.

use vstd::prelude::*;
use crate::duration::{whole_days_of, Duration};
use crate::datetime::{spec_datetime_from_local, DateTime};
use crate::naive_date::{
    date_of_index, date_of_view, day_index, day_of, days_in_year, lemma_date_of_view,
    lemma_date_value_injective, lemma_index_bounds, max_day_index, min_day_index, month_of,
    pred_view, succ_view, valid_ymd, ymd_view, DateView, NaiveDate,
};
use crate::naive_datetime::{datetime_of_parts, NaiveDateTime};
use crate::naive_time::{lemma_time_of_view, lemma_time_value_injective, time_of_view, NaiveTime, TimeView};
use crate::offset::{LocalResult, Offset, OffsetExt, OffsetState};

verus! {

/// A calendar date under a zone backend `Off`: the canonical date `date`
/// plus the offset state resolved when the value was built. The local view
/// is always derived, never stored. The fields are exposed for
/// specification; verified code builds values only through the constructors,
/// which keep `date.wf()`.
#[derive(Clone, Copy)]
pub struct Date<Off: Offset> {
    /// The canonical (zone-independent) date.
    pub date: NaiveDate,
    /// The offset state cached at construction.
    pub offset: Off::State,
}

/// The canonical date of a local date under a skew of `skew` nanoseconds:
/// the local date moved back by the skew's whole days, when that stays
/// representable.
pub open spec fn spec_date_minus_skew(local: NaiveDate, skew: int) -> Option<NaiveDate> {
    let target = day_index(local@) - whole_days_of(skew);
    if min_day_index() <= target <= max_day_index() {
        Some(date_of_view(date_of_index(target)))
    } else {
        Option::None
    }
}

/// Model of converting a local date through backend `z`: each resolved state
/// yields a zoned date; a candidate out of range collapses the outcome to
/// `None`.
pub open spec fn spec_date_from_local<Off: Offset>(z: Off, local: NaiveDate) -> LocalResult<
    Date<Off>,
> {
    match z.spec_local_date(local) {
        LocalResult::NoValue => LocalResult::NoValue,
        LocalResult::Single(s) => match spec_date_minus_skew(local, s.spec_skew()) {
            Some(d) => LocalResult::Single(Date { date: d, offset: s }),
            Option::None => LocalResult::NoValue,
        },
        LocalResult::Ambiguous(s1, s2) => match (
            spec_date_minus_skew(local, s1.spec_skew()),
            spec_date_minus_skew(local, s2.spec_skew()),
        ) {
            (Some(d1), Some(d2)) => LocalResult::Ambiguous(
                Date { date: d1, offset: s1 },
                Date { date: d2, offset: s2 },
            ),
            _ => LocalResult::NoValue,
        },
    }
}

impl<Off: Offset> Date<Off> {
    /// The canonical date is representable.
    pub open spec fn wf(self) -> bool {
        self.date.wf()
    }

    /// The whole-day part of the cached skew.
    pub open spec fn spec_skew_days(self) -> int {
        whole_days_of(self.offset.spec_skew())
    }

    /// The day-line position of the local view.
    pub open spec fn local_index(self) -> int {
        day_index(self.date@) + self.spec_skew_days()
    }

    /// The local view is representable.
    pub open spec fn local_in_range(self) -> bool {
        min_day_index() <= self.local_index() <= max_day_index()
    }

    /// Wraps a canonical date and an offset state. The local date should be
    /// built through the zone backend instead.
    pub fn from_utc(date: NaiveDate, offset: Off::State) -> (d: Date<Off>)
        requires
            date.wf(),
        ensures
            d.date == date,
            d.offset == offset,
            d.wf(),
    {
        Date { date, offset }
    }

    /// The canonical date.
    pub fn naive_utc(&self) -> (d: NaiveDate)
        ensures
            d == self.date,
    {
        self.date
    }

    /// The cached offset state.
    pub fn offset(&self) -> (s: &Off::State)
        ensures
            *s == self.offset,
    {
        &self.offset
    }

    /// The zone backend rebuilt from the cached state.
    pub fn timezone(&self) -> (z: Off)
        ensures
            z == Off::spec_from_state(self.offset),
    {
        Off::from_state(&self.offset)
    }

    /// The local view: the canonical date moved forward by the skew's whole
    /// days.
    pub fn naive_local(&self) -> (d: NaiveDate)
        requires
            self.wf(),
            self.local_in_range(),
        ensures
            d.wf(),
            day_index(d@) == self.local_index(),
            d@ == date_of_index(self.local_index()),
    {
        let sk = self.offset.local_minus_utc().num_days();
        match self.date.checked_add_days(sk) {
            Some(d) => d,
            None => {
                proof {
                    lemma_index_bounds(self.date@);
                }
                vstd::pervasive::unreached()
            },
        }
    }

    /// Re-expresses the same canonical date under another backend; the
    /// canonical date is unchanged, only the displayed fields and offset
    /// differ.
    pub fn with_timezone<Off2: Offset>(&self, tz: &Off2) -> (d: Date<Off2>)
        requires
            self.wf(),
        ensures
            d.date == self.date,
            d.offset == tz.spec_utc_date(self.date),
            d.wf(),
    {
        tz.from_utc_date(&self.date)
    }

    /// The next canonical date, keeping the offset state unchanged; `None`
    /// at the last representable date.
    pub fn succ_opt(&self) -> (r: Option<Date<Off>>)
        requires
            self.wf(),
        ensures
            match r {
                Some(d) => {
                    &&& d.wf()
                    &&& d.date@ == succ_view(self.date@)
                    &&& day_index(d.date@) == day_index(self.date@) + 1
                    &&& d.offset == self.offset
                },
                None => day_index(self.date@) == max_day_index(),
            },
    {
        match self.date.succ_opt() {
            Some(d) => Some(Date { date: d, offset: self.offset }),
            None => None,
        }
    }

    /// The next canonical date; the last representable date is outside this
    /// function's domain.
    pub fn succ(&self) -> (d: Date<Off>)
        requires
            self.wf(),
            day_index(self.date@) < max_day_index(),
        ensures
            d.wf(),
            d.date@ == succ_view(self.date@),
            day_index(d.date@) == day_index(self.date@) + 1,
            d.offset == self.offset,
    {
        match self.succ_opt() {
            Some(d) => d,
            None => vstd::pervasive::unreached(),
        }
    }

    /// The previous canonical date, keeping the offset state unchanged;
    /// `None` at the first representable date.
    pub fn pred_opt(&self) -> (r: Option<Date<Off>>)
        requires
            self.wf(),
        ensures
            match r {
                Some(d) => {
                    &&& d.wf()
                    &&& d.date@ == pred_view(self.date@)
                    &&& day_index(d.date@) == day_index(self.date@) - 1
                    &&& d.offset == self.offset
                },
                None => day_index(self.date@) == min_day_index(),
            },
    {
        match self.date.pred_opt() {
            Some(d) => Some(Date { date: d, offset: self.offset }),
            None => None,
        }
    }

    /// The previous canonical date; the first representable date is outside
    /// this function's domain.
    pub fn pred(&self) -> (d: Date<Off>)
        requires
            self.wf(),
            day_index(self.date@) > min_day_index(),
        ensures
            d.wf(),
            d.date@ == pred_view(self.date@),
            day_index(d.date@) == day_index(self.date@) - 1,
            d.offset == self.offset,
    {
        match self.pred_opt() {
            Some(d) => d,
            None => vstd::pervasive::unreached(),
        }
    }

    /// Zoned dates are equal exactly when their canonical dates are equal,
    /// whatever their backends or displayed fields.
    pub fn eq<Off2: Offset>(&self, other: &Date<Off2>) -> (r: bool)
        ensures
            r == (self.date == other.date),
    {
        self.date == other.date
    }

    /// The signed span from `other` to `self`, measured on canonical dates
    /// and independent of either offset.
    pub fn signed_duration_since<Off2: Offset>(&self, other: &Date<Off2>) -> (d: Duration)
        requires
            self.wf(),
            other.wf(),
        ensures
            d@ == (day_index(self.date@) - day_index(other.date@)) * 86_400_000_000_000,
            d.wf(),
    {
        let a = self.date.day_index_exec();
        let b = other.date.day_index_exec();
        Duration::days(a - b)
    }

    /// The canonical date moved by the span's whole days, keeping the offset
    /// state; `None` when that leaves the representable range.
    pub fn checked_add_signed(&self, dur: &Duration) -> (r: Option<Date<Off>>)
        requires
            self.wf(),
            dur.wf(),
        ensures
            match r {
                Some(d) => {
                    &&& d.wf()
                    &&& day_index(d.date@) == day_index(self.date@) + whole_days_of(dur@)
                    &&& d.offset == self.offset
                },
                None => day_index(self.date@) + whole_days_of(dur@) < min_day_index() || day_index(
                    self.date@,
                ) + whole_days_of(dur@) > max_day_index(),
            },
    {
        let n = dur.num_days();
        match self.date.checked_add_days(n) {
            Some(d) => Some(Date { date: d, offset: self.offset }),
            None => None,
        }
    }

    /// The canonical date moved back by the span's whole days, keeping the
    /// offset state; `None` when that leaves the representable range.
    pub fn checked_sub_signed(&self, dur: &Duration) -> (r: Option<Date<Off>>)
        requires
            self.wf(),
            dur.wf(),
        ensures
            match r {
                Some(d) => {
                    &&& d.wf()
                    &&& day_index(d.date@) == day_index(self.date@) - whole_days_of(dur@)
                    &&& d.offset == self.offset
                },
                None => day_index(self.date@) - whole_days_of(dur@) < min_day_index() || day_index(
                    self.date@,
                ) - whole_days_of(dur@) > max_day_index(),
            },
    {
        let n = dur.num_days();
        match self.date.checked_add_days(-n) {
            Some(d) => Some(Date { date: d, offset: self.offset }),
            None => None,
        }
    }
}

} // verus!

verus! {

/// The unique zoned date-time that combining zoned date `d` with local time
/// `time` resolves to, if there is exactly one; a gap, a fold, or an
/// out-of-range candidate gives nothing.
pub open spec fn spec_and_time<Off: Offset>(d: Date<Off>, time: NaiveTime) -> Option<
    DateTime<Off>,
> {
    match spec_datetime_from_local(
        Off::spec_from_state(d.offset),
        datetime_of_parts(date_of_view(date_of_index(d.local_index())), time),
    ) {
        LocalResult::Single(dt) => Some(dt),
        _ => Option::None,
    }
}

/// The unique zoned date that re-resolving mutated local date `nd` through
/// `d`'s backend gives, if there is exactly one; an invalid mutation, a gap,
/// a fold, or an out-of-range candidate gives nothing.
pub open spec fn spec_map_local<Off: Offset>(d: Date<Off>, nd: Option<NaiveDate>) -> Option<
    Date<Off>,
> {
    match nd {
        Some(l) => match spec_date_from_local(Off::spec_from_state(d.offset), l) {
            LocalResult::Single(z) => Some(z),
            _ => Option::None,
        },
        Option::None => Option::None,
    }
}

impl<Off: Offset> Date<Off> {
    /// The local date value, for specification.
    pub open spec fn spec_local(self) -> DateView {
        date_of_index(self.local_index())
    }

    /// The local view's year.
    pub fn year(&self) -> (r: i32)
        requires
            self.wf(),
            self.local_in_range(),
        ensures
            r == self.spec_local().year,
    {
        self.naive_local().year()
    }

    /// The local view's day of year, one-based.
    pub fn ordinal(&self) -> (r: u32)
        requires
            self.wf(),
            self.local_in_range(),
        ensures
            r == self.spec_local().ordinal,
    {
        self.naive_local().ordinal()
    }

    /// The local view's day of year, zero-based.
    pub fn ordinal0(&self) -> (r: u32)
        requires
            self.wf(),
            self.local_in_range(),
        ensures
            r == self.spec_local().ordinal - 1,
    {
        self.naive_local().ordinal0()
    }

    /// The local view's month, one-based.
    pub fn month(&self) -> (r: u32)
        requires
            self.wf(),
            self.local_in_range(),
        ensures
            r == month_of(self.spec_local().year, self.spec_local().ordinal),
    {
        self.naive_local().month()
    }

    /// The local view's month, zero-based.
    pub fn month0(&self) -> (r: u32)
        requires
            self.wf(),
            self.local_in_range(),
        ensures
            r == month_of(self.spec_local().year, self.spec_local().ordinal) - 1,
    {
        self.naive_local().month0()
    }

    /// The local view's day of month, one-based.
    pub fn day(&self) -> (r: u32)
        requires
            self.wf(),
            self.local_in_range(),
        ensures
            r == day_of(self.spec_local().year, self.spec_local().ordinal),
    {
        self.naive_local().day()
    }

    /// The local view's day of month, zero-based.
    pub fn day0(&self) -> (r: u32)
        requires
            self.wf(),
            self.local_in_range(),
        ensures
            r == day_of(self.spec_local().year, self.spec_local().ordinal) - 1,
    {
        self.naive_local().day0()
    }

    /// Combines this date's local view with a local time of day and
    /// re-resolves through the same backend; only a unique resolution gives
    /// a value.
    pub fn and_time(&self, time: NaiveTime) -> (r: Option<DateTime<Off>>)
        requires
            self.wf(),
            time.wf(),
            self.local_in_range(),
        ensures
            r == spec_and_time(*self, time),
            r matches Some(dt) ==> dt.wf(),
    {
        let ld = self.naive_local();
        proof {
            lemma_date_of_view(date_of_index(self.local_index()));
            lemma_date_value_injective(ld, date_of_view(date_of_index(self.local_index())));
        }
        let localdt = NaiveDateTime::new(ld, time);
        self.timezone().from_local_datetime(&localdt).single()
    }

    /// Combines with the time of the given hour, minute and second; see
    /// `and_time`.
    pub fn and_hms_opt(&self, hour: u32, min: u32, sec: u32) -> (r: Option<DateTime<Off>>)
        requires
            self.wf(),
            self.local_in_range(),
        ensures
            r == (if hour < 24 && min < 60 && sec < 60 {
                spec_and_time(
                    *self,
                    time_of_view(TimeView { secs: hour * 3600 + min * 60 + sec, frac: 0 }),
                )
            } else {
                Option::<DateTime<Off>>::None
            }),
            r matches Some(dt) ==> dt.wf(),
    {
        match NaiveTime::from_hms_opt(hour, min, sec) {
            Some(t) => {
                proof {
                    lemma_time_of_view(t@);
                    lemma_time_value_injective(t, time_of_view(t@));
                }
                self.and_time(t)
            },
            None => None,
        }
    }

    /// Combines with the time of the given hour, minute and second; inputs
    /// that do not resolve uniquely are outside this function's domain.
    pub fn and_hms(&self, hour: u32, min: u32, sec: u32) -> (r: DateTime<Off>)
        requires
            self.wf(),
            self.local_in_range(),
            hour < 24 && min < 60 && sec < 60,
            spec_and_time(
                *self,
                time_of_view(TimeView { secs: hour * 3600 + min * 60 + sec, frac: 0 }),
            ) is Some,
        ensures
            Some(r) == spec_and_time(
                *self,
                time_of_view(TimeView { secs: hour * 3600 + min * 60 + sec, frac: 0 }),
            ),
            r.wf(),
    {
        match self.and_hms_opt(hour, min, sec) {
            Some(dt) => dt,
            None => vstd::pervasive::unreached(),
        }
    }

    /// As `and_hms_opt`, with a millisecond that may reach 1999 to encode a
    /// leap second.
    pub fn and_hms_milli_opt(&self, hour: u32, min: u32, sec: u32, milli: u32) -> (r: Option<
        DateTime<Off>,
    >)
        requires
            self.wf(),
            self.local_in_range(),
        ensures
            r == (if hour < 24 && min < 60 && sec < 60 && milli < 2000 {
                spec_and_time(
                    *self,
                    time_of_view(
                        TimeView {
                            secs: hour * 3600 + min * 60 + sec,
                            frac: milli * 1_000_000,
                        },
                    ),
                )
            } else {
                Option::<DateTime<Off>>::None
            }),
            r matches Some(dt) ==> dt.wf(),
    {
        match NaiveTime::from_hms_milli_opt(hour, min, sec, milli) {
            Some(t) => {
                proof {
                    lemma_time_of_view(t@);
                    lemma_time_value_injective(t, time_of_view(t@));
                }
                self.and_time(t)
            },
            None => None,
        }
    }

    /// As `and_hms`, with a millisecond that may reach 1999.
    pub fn and_hms_milli(&self, hour: u32, min: u32, sec: u32, milli: u32) -> (r: DateTime<Off>)
        requires
            self.wf(),
            self.local_in_range(),
            hour < 24 && min < 60 && sec < 60 && milli < 2000,
            spec_and_time(
                *self,
                time_of_view(
                    TimeView { secs: hour * 3600 + min * 60 + sec, frac: milli * 1_000_000 },
                ),
            ) is Some,
        ensures
            Some(r) == spec_and_time(
                *self,
                time_of_view(
                    TimeView { secs: hour * 3600 + min * 60 + sec, frac: milli * 1_000_000 },
                ),
            ),
            r.wf(),
    {
        match self.and_hms_milli_opt(hour, min, sec, milli) {
            Some(dt) => dt,
            None => vstd::pervasive::unreached(),
        }
    }

    /// As `and_hms_opt`, with a microsecond that may reach 1_999_999.
    pub fn and_hms_micro_opt(&self, hour: u32, min: u32, sec: u32, micro: u32) -> (r: Option<
        DateTime<Off>,
    >)
        requires
            self.wf(),
            self.local_in_range(),
        ensures
            r == (if hour < 24 && min < 60 && sec < 60 && micro < 2_000_000 {
                spec_and_time(
                    *self,
                    time_of_view(
                        TimeView { secs: hour * 3600 + min * 60 + sec, frac: micro * 1000 },
                    ),
                )
            } else {
                Option::<DateTime<Off>>::None
            }),
            r matches Some(dt) ==> dt.wf(),
    {
        match NaiveTime::from_hms_micro_opt(hour, min, sec, micro) {
            Some(t) => {
                proof {
                    lemma_time_of_view(t@);
                    lemma_time_value_injective(t, time_of_view(t@));
                }
                self.and_time(t)
            },
            None => None,
        }
    }

    /// As `and_hms`, with a microsecond that may reach 1_999_999.
    pub fn and_hms_micro(&self, hour: u32, min: u32, sec: u32, micro: u32) -> (r: DateTime<Off>)
        requires
            self.wf(),
            self.local_in_range(),
            hour < 24 && min < 60 && sec < 60 && micro < 2_000_000,
            spec_and_time(
                *self,
                time_of_view(
                    TimeView { secs: hour * 3600 + min * 60 + sec, frac: micro * 1000 },
                ),
            ) is Some,
        ensures
            Some(r) == spec_and_time(
                *self,
                time_of_view(
                    TimeView { secs: hour * 3600 + min * 60 + sec, frac: micro * 1000 },
                ),
            ),
            r.wf(),
    {
        match self.and_hms_micro_opt(hour, min, sec, micro) {
            Some(dt) => dt,
            None => vstd::pervasive::unreached(),
        }
    }

    /// As `and_hms_opt`, with a nanosecond that may reach 1_999_999_999.
    pub fn and_hms_nano_opt(&self, hour: u32, min: u32, sec: u32, nano: u32) -> (r: Option<
        DateTime<Off>,
    >)
        requires
            self.wf(),
            self.local_in_range(),
        ensures
            r == (if hour < 24 && min < 60 && sec < 60 && nano < 2_000_000_000 {
                spec_and_time(
                    *self,
                    time_of_view(
                        TimeView { secs: hour * 3600 + min * 60 + sec, frac: nano as int },
                    ),
                )
            } else {
                Option::<DateTime<Off>>::None
            }),
            r matches Some(dt) ==> dt.wf(),
    {
        match NaiveTime::from_hms_nano_opt(hour, min, sec, nano) {
            Some(t) => {
                proof {
                    lemma_time_of_view(t@);
                    lemma_time_value_injective(t, time_of_view(t@));
                }
                self.and_time(t)
            },
            None => None,
        }
    }

    /// As `and_hms`, with a nanosecond that may reach 1_999_999_999.
    pub fn and_hms_nano(&self, hour: u32, min: u32, sec: u32, nano: u32) -> (r: DateTime<Off>)
        requires
            self.wf(),
            self.local_in_range(),
            hour < 24 && min < 60 && sec < 60 && nano < 2_000_000_000,
            spec_and_time(
                *self,
                time_of_view(
                    TimeView { secs: hour * 3600 + min * 60 + sec, frac: nano as int },
                ),
            ) is Some,
        ensures
            Some(r) == spec_and_time(
                *self,
                time_of_view(
                    TimeView { secs: hour * 3600 + min * 60 + sec, frac: nano as int },
                ),
            ),
            r.wf(),
    {
        match self.and_hms_nano_opt(hour, min, sec, nano) {
            Some(dt) => dt,
            None => vstd::pervasive::unreached(),
        }
    }
}

} // verus!

verus! {

impl<Off: Offset> Date<Off> {
    /// The date with the local view's year replaced, re-resolved through the
    /// owning backend; only a unique resolution gives a value, so a mutation
    /// landing in a gap or a fold fails even though the original was valid.
    pub fn with_year(&self, year: i32) -> (r: Option<Date<Off>>)
        requires
            self.wf(),
            self.local_in_range(),
        ensures
            ({
                let lv = self.spec_local();
                let m = month_of(lv.year, lv.ordinal);
                let dd = day_of(lv.year, lv.ordinal);
                r == spec_map_local(
                    *self,
                    if valid_ymd(year as int, m, dd) {
                        Some(date_of_view(ymd_view(year as int, m, dd)))
                    } else {
                        Option::None
                    },
                )
            }),
            r matches Some(d) ==> d.wf(),
    {
        let local = self.naive_local();
        match local.with_year(year) {
            Some(d2) => {
                proof {
                    lemma_date_of_view(d2@);
                    lemma_date_value_injective(d2, date_of_view(d2@));
                }
                self.timezone().from_local_date(&d2).single()
            },
            None => None,
        }
    }

    /// The date with the local view's month replaced (one-based); see
    /// `with_year` for the resolution rule.
    pub fn with_month(&self, month: u32) -> (r: Option<Date<Off>>)
        requires
            self.wf(),
            self.local_in_range(),
        ensures
            ({
                let lv = self.spec_local();
                let dd = day_of(lv.year, lv.ordinal);
                r == spec_map_local(
                    *self,
                    if valid_ymd(lv.year, month as int, dd) {
                        Some(date_of_view(ymd_view(lv.year, month as int, dd)))
                    } else {
                        Option::None
                    },
                )
            }),
            r matches Some(d) ==> d.wf(),
    {
        let local = self.naive_local();
        match local.with_month(month) {
            Some(d2) => {
                proof {
                    lemma_date_of_view(d2@);
                    lemma_date_value_injective(d2, date_of_view(d2@));
                }
                self.timezone().from_local_date(&d2).single()
            },
            None => None,
        }
    }

    /// The date with the local view's month replaced (zero-based).
    pub fn with_month0(&self, month0: u32) -> (r: Option<Date<Off>>)
        requires
            self.wf(),
            self.local_in_range(),
        ensures
            ({
                let lv = self.spec_local();
                let dd = day_of(lv.year, lv.ordinal);
                r == spec_map_local(
                    *self,
                    if valid_ymd(lv.year, month0 + 1, dd) {
                        Some(date_of_view(ymd_view(lv.year, month0 + 1, dd)))
                    } else {
                        Option::None
                    },
                )
            }),
            r matches Some(d) ==> d.wf(),
    {
        let local = self.naive_local();
        match local.with_month0(month0) {
            Some(d2) => {
                proof {
                    lemma_date_of_view(d2@);
                    lemma_date_value_injective(d2, date_of_view(d2@));
                }
                self.timezone().from_local_date(&d2).single()
            },
            None => None,
        }
    }

    /// The date with the local view's day of month replaced (one-based).
    pub fn with_day(&self, day: u32) -> (r: Option<Date<Off>>)
        requires
            self.wf(),
            self.local_in_range(),
        ensures
            ({
                let lv = self.spec_local();
                let m = month_of(lv.year, lv.ordinal);
                r == spec_map_local(
                    *self,
                    if valid_ymd(lv.year, m, day as int) {
                        Some(date_of_view(ymd_view(lv.year, m, day as int)))
                    } else {
                        Option::None
                    },
                )
            }),
            r matches Some(d) ==> d.wf(),
    {
        let local = self.naive_local();
        match local.with_day(day) {
            Some(d2) => {
                proof {
                    lemma_date_of_view(d2@);
                    lemma_date_value_injective(d2, date_of_view(d2@));
                }
                self.timezone().from_local_date(&d2).single()
            },
            None => None,
        }
    }

    /// The date with the local view's day of month replaced (zero-based).
    pub fn with_day0(&self, day0: u32) -> (r: Option<Date<Off>>)
        requires
            self.wf(),
            self.local_in_range(),
        ensures
            ({
                let lv = self.spec_local();
                let m = month_of(lv.year, lv.ordinal);
                r == spec_map_local(
                    *self,
                    if valid_ymd(lv.year, m, day0 + 1) {
                        Some(date_of_view(ymd_view(lv.year, m, day0 + 1)))
                    } else {
                        Option::None
                    },
                )
            }),
            r matches Some(d) ==> d.wf(),
    {
        let local = self.naive_local();
        match local.with_day0(day0) {
            Some(d2) => {
                proof {
                    lemma_date_of_view(d2@);
                    lemma_date_value_injective(d2, date_of_view(d2@));
                }
                self.timezone().from_local_date(&d2).single()
            },
            None => None,
        }
    }

    /// The date with the local view's day of year replaced (one-based).
    pub fn with_ordinal(&self, ordinal: u32) -> (r: Option<Date<Off>>)
        requires
            self.wf(),
            self.local_in_range(),
        ensures
            ({
                let lv = self.spec_local();
                r == spec_map_local(
                    *self,
                    if 1 <= ordinal as int <= days_in_year(lv.year) {
                        Some(date_of_view(DateView { year: lv.year, ordinal: ordinal as int }))
                    } else {
                        Option::None
                    },
                )
            }),
            r matches Some(d) ==> d.wf(),
    {
        let local = self.naive_local();
        match local.with_ordinal(ordinal) {
            Some(d2) => {
                proof {
                    lemma_date_of_view(d2@);
                    lemma_date_value_injective(d2, date_of_view(d2@));
                }
                self.timezone().from_local_date(&d2).single()
            },
            None => None,
        }
    }

    /// The date with the local view's day of year replaced (zero-based).
    pub fn with_ordinal0(&self, ordinal0: u32) -> (r: Option<Date<Off>>)
        requires
            self.wf(),
            self.local_in_range(),
        ensures
            ({
                let lv = self.spec_local();
                r == spec_map_local(
                    *self,
                    if 1 <= ordinal0 + 1 <= days_in_year(lv.year) {
                        Some(
                            date_of_view(DateView { year: lv.year, ordinal: ordinal0 + 1 }),
                        )
                    } else {
                        Option::None
                    },
                )
            }),
            r matches Some(d) ==> d.wf(),
    {
        let local = self.naive_local();
        match local.with_ordinal0(ordinal0) {
            Some(d2) => {
                proof {
                    lemma_date_of_view(d2@);
                    lemma_date_value_injective(d2, date_of_view(d2@));
                }
                self.timezone().from_local_date(&d2).single()
            },
            None => None,
        }
    }
}

} // verus!

verus! {

impl<Off: Offset> Date<Off> {
    /// The display text: the local date immediately followed by the offset
    /// state's text, with no separator.
    pub fn debug_string(&self) -> (s: String)
        requires
            self.wf(),
            self.local_in_range(),
        ensures
            s@ == crate::render::date_text(self.spec_local()) + self.offset.spec_text(),
    {
        let mut out = String::new();
        let local = self.naive_local();
        crate::render::push_date_text(&local, &mut out);
        let t = self.offset.text();
        out.append(t.as_str());
        out
    }
}

} // verus!

verus! {

impl<Off: Offset> Date<Off> {
    /// The local view's day of the week.
    pub fn weekday(&self) -> (r: crate::weekday::Weekday)
        requires
            self.wf(),
            self.local_in_range(),
        ensures
            r == crate::naive_date::weekday_of(self.spec_local()),
    {
        self.naive_local().weekday()
    }

    /// The local view's ISO week date: week-year, one-based week number, and
    /// day of the week.
    pub fn isoweekdate(&self) -> (r: (i32, u32, crate::weekday::Weekday))
        requires
            self.wf(),
            self.local_in_range(),
        ensures
            r.0 == crate::naive_date::iso_year_of(self.spec_local()),
            r.1 == crate::naive_date::iso_week_of(self.spec_local()),
            r.2 == crate::naive_date::weekday_of(self.spec_local()),
    {
        self.naive_local().isoweekdate()
    }
}

} // verus!

verus! {

impl<Off: Offset> Date<Off> {
    /// Compares two zoned dates by their canonical dates alone, whatever
    /// their backends or displayed fields.
    pub fn cmp<Off2: Offset>(&self, other: &Date<Off2>) -> (r: core::cmp::Ordering)
        requires
            self.wf(),
            other.wf(),
        ensures
            r == core::cmp::Ordering::Less <==> day_index(self.date@) < day_index(other.date@),
            r == core::cmp::Ordering::Greater <==> day_index(self.date@) > day_index(
                other.date@,
            ),
            r == core::cmp::Ordering::Equal <==> self.date == other.date,
    {
        proof {
            if self.date@ == other.date@ {
                crate::naive_date::lemma_date_value_injective(self.date, other.date);
            }
        }
        self.date.compare(&other.date)
    }
}

} // verus!

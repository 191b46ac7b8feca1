//! The offset-resolution protocol: three-way conversion outcomes, offset
//! states, and the zone-backend contract.
//!
//! A zone backend maps local wall-clock values to offset states through the
//! three-way [`LocalResult`] (a local value may fall in a gap, resolve
//! uniquely, or fall in a fold), and maps canonical values to offset states
//! totally. Every backend must prove the round-trip laws: the state produced
//! for a canonical value is among the states its local view resolves to.

use vstd::prelude::*;
use crate::date::{spec_and_time, spec_date_from_local, Date};
use crate::datetime::{spec_datetime_from_local, DateTime};
use crate::duration::{whole_days_of, whole_secs_of, Duration};
use crate::naive_date::{
    date_of_view, day_index, days_in_year, lemma_date_of_view, lemma_date_value_injective,
    lemma_ymd_view_valid, valid_ymd, ymd_view, DateView, NaiveDate, MAX_YEAR, MIN_YEAR,
};
use crate::naive_date::{date_of_index, max_day_index, min_day_index, week1_monday, week1_monday_exec};
use crate::naive_datetime::{dt_index_nanos, NaiveDateTime};
use crate::naive_time::{
    lemma_time_of_view, lemma_time_value_injective, time_of_view, NaiveTime, TimeView,
};
use crate::time::{spec_time_from_local, Time};
use crate::weekday::{spec_days_from_monday, Weekday};

verus! {

/// The outcome of resolving a local value: no canonical instant (a gap),
/// exactly one, or two boundary candidates (a fold).
#[derive(Clone, Copy, PartialEq, Eq, Structural, Debug)]
pub enum LocalResult<T> {
    /// The local value denotes no canonical instant.
    NoValue,
    /// The local value denotes exactly one canonical instant.
    Single(T),
    /// The local value denotes two boundary candidates, earliest first.
    Ambiguous(T, T),
}

/// Whether `t` is among the candidates of outcome `r`.
pub open spec fn lr_contains<T>(r: LocalResult<T>, t: T) -> bool {
    match r {
        LocalResult::NoValue => false,
        LocalResult::Single(s) => s == t,
        LocalResult::Ambiguous(a, b) => a == t || b == t,
    }
}

impl<T> LocalResult<T> {
    /// The unique outcome, or nothing for a gap or a fold.
    pub fn single(self) -> (r: Option<T>)
        ensures
            match self {
                LocalResult::Single(t) => r == Some(t),
                _ => r is None,
            },
    {
        match self {
            LocalResult::Single(t) => Some(t),
            _ => None,
        }
    }

    /// The earliest candidate, or nothing for a gap.
    pub fn earliest(self) -> (r: Option<T>)
        ensures
            match self {
                LocalResult::Single(t) => r == Some(t),
                LocalResult::Ambiguous(a, b) => r == Some(a),
                LocalResult::NoValue => r is None,
            },
    {
        match self {
            LocalResult::Single(t) => Some(t),
            LocalResult::Ambiguous(a, _) => Some(a),
            LocalResult::NoValue => None,
        }
    }

    /// The latest candidate, or nothing for a gap.
    pub fn latest(self) -> (r: Option<T>)
        ensures
            match self {
                LocalResult::Single(t) => r == Some(t),
                LocalResult::Ambiguous(a, b) => r == Some(b),
                LocalResult::NoValue => r is None,
            },
    {
        match self {
            LocalResult::Single(t) => Some(t),
            LocalResult::Ambiguous(_, b) => Some(b),
            LocalResult::NoValue => None,
        }
    }

    /// Applies `f` to every candidate, keeping the outcome's shape.
    pub fn map<U, F: Fn(T) -> U>(self, f: F) -> (r: LocalResult<U>)
        requires
            forall|t: T| lr_contains(self, t) ==> call_requires(f, (t,)),
        ensures
            match (self, r) {
                (LocalResult::NoValue, LocalResult::NoValue) => true,
                (LocalResult::Single(t), LocalResult::Single(u)) => call_ensures(f, (t,), u),
                (LocalResult::Ambiguous(a, b), LocalResult::Ambiguous(u, v)) => call_ensures(
                    f,
                    (a,),
                    u,
                ) && call_ensures(f, (b,), v),
                _ => false,
            },
    {
        let ghost orig = self;
        match self {
            LocalResult::NoValue => LocalResult::NoValue,
            LocalResult::Single(t) => {
                proof {
                    assert(lr_contains(orig, t));
                }
                LocalResult::Single(f(t))
            },
            LocalResult::Ambiguous(a, b) => {
                proof {
                    assert(lr_contains(orig, a));
                    assert(lr_contains(orig, b));
                }
                LocalResult::Ambiguous(f(a), f(b))
            },
        }
    }

    /// The unique outcome; a gap or a fold is outside this function's domain
    /// (the unverified convenience layer reports those as errors).
    pub fn unwrap(self) -> (r: T)
        requires
            self matches LocalResult::Single(_),
        ensures
            self == LocalResult::Single(r),
    {
        match self {
            LocalResult::Single(t) => t,
            _ => vstd::pervasive::unreached(),
        }
    }
}


impl<Off: Offset> LocalResult<Date<Off>> {
    /// Combines a resolved date with a local time of day; any gap, fold or
    /// failed combination collapses to the empty outcome. Ambiguity is
    /// deliberately not propagated through multi-step construction: callers
    /// needing both candidates resolve each step with `earliest`/`latest`.
    pub fn and_time(self, time: NaiveTime) -> (r: LocalResult<DateTime<Off>>)
        requires
            time.wf(),
            self matches LocalResult::Single(d) ==> d.wf() && d.local_in_range(),
        ensures
            r == match self {
                LocalResult::Single(d) => match spec_and_time(d, time) {
                    Some(dt) => LocalResult::Single(dt),
                    Option::None => LocalResult::<DateTime<Off>>::NoValue,
                },
                _ => LocalResult::<DateTime<Off>>::NoValue,
            },
    {
        match self {
            LocalResult::Single(d) => {
                match d.and_time(time) {
                    Some(dt) => LocalResult::Single(dt),
                    None => LocalResult::NoValue,
                }
            },
            _ => LocalResult::NoValue,
        }
    }

    /// Combines a resolved date with the time of the given hour, minute and
    /// second; see `and_time` for the collapse rule.
    pub fn and_hms_opt(self, hour: u32, min: u32, sec: u32) -> (r: LocalResult<DateTime<Off>>)
        requires
            self matches LocalResult::Single(d) ==> d.wf() && d.local_in_range(),
        ensures
            r == match self {
                LocalResult::Single(d) => if hour < 24 && min < 60 && sec < 60 {
                    match spec_and_time(
                        d,
                        time_of_view(TimeView { secs: hour * 3600 + min * 60 + sec, frac: 0 }),
                    ) {
                        Some(dt) => LocalResult::Single(dt),
                        Option::None => LocalResult::<DateTime<Off>>::NoValue,
                    }
                } else {
                    LocalResult::<DateTime<Off>>::NoValue
                },
                _ => LocalResult::<DateTime<Off>>::NoValue,
            },
    {
        match self {
            LocalResult::Single(d) => {
                match d.and_hms_opt(hour, min, sec) {
                    Some(dt) => LocalResult::Single(dt),
                    None => LocalResult::NoValue,
                }
            },
            _ => LocalResult::NoValue,
        }
    }

    /// As `and_hms_opt`, with a millisecond that may reach 1999 to encode a
    /// leap second.
    pub fn and_hms_milli_opt(self, hour: u32, min: u32, sec: u32, milli: u32) -> (r: LocalResult<
        DateTime<Off>,
    >)
        requires
            self matches LocalResult::Single(d) ==> d.wf() && d.local_in_range(),
        ensures
            r == match self {
                LocalResult::Single(d) => if hour < 24 && min < 60 && sec < 60 && milli < 2000 {
                    match spec_and_time(
                        d,
                        time_of_view(
                            TimeView {
                                secs: hour * 3600 + min * 60 + sec,
                                frac: milli * 1_000_000,
                            },
                        ),
                    ) {
                        Some(dt) => LocalResult::Single(dt),
                        Option::None => LocalResult::<DateTime<Off>>::NoValue,
                    }
                } else {
                    LocalResult::<DateTime<Off>>::NoValue
                },
                _ => LocalResult::<DateTime<Off>>::NoValue,
            },
    {
        match self {
            LocalResult::Single(d) => {
                match d.and_hms_milli_opt(hour, min, sec, milli) {
                    Some(dt) => LocalResult::Single(dt),
                    None => LocalResult::NoValue,
                }
            },
            _ => LocalResult::NoValue,
        }
    }

    /// As `and_hms_opt`, with a microsecond that may reach 1_999_999 to
    /// encode a leap second.
    pub fn and_hms_micro_opt(self, hour: u32, min: u32, sec: u32, micro: u32) -> (r: LocalResult<
        DateTime<Off>,
    >)
        requires
            self matches LocalResult::Single(d) ==> d.wf() && d.local_in_range(),
        ensures
            r == match self {
                LocalResult::Single(d) => if hour < 24 && min < 60 && sec < 60 && micro
                    < 2_000_000 {
                    match spec_and_time(
                        d,
                        time_of_view(
                            TimeView {
                                secs: hour * 3600 + min * 60 + sec,
                                frac: micro * 1000,
                            },
                        ),
                    ) {
                        Some(dt) => LocalResult::Single(dt),
                        Option::None => LocalResult::<DateTime<Off>>::NoValue,
                    }
                } else {
                    LocalResult::<DateTime<Off>>::NoValue
                },
                _ => LocalResult::<DateTime<Off>>::NoValue,
            },
    {
        match self {
            LocalResult::Single(d) => {
                match d.and_hms_micro_opt(hour, min, sec, micro) {
                    Some(dt) => LocalResult::Single(dt),
                    None => LocalResult::NoValue,
                }
            },
            _ => LocalResult::NoValue,
        }
    }

    /// As `and_hms_opt`, with a nanosecond that may reach 1_999_999_999 to
    /// encode a leap second.
    pub fn and_hms_nano_opt(self, hour: u32, min: u32, sec: u32, nano: u32) -> (r: LocalResult<
        DateTime<Off>,
    >)
        requires
            self matches LocalResult::Single(d) ==> d.wf() && d.local_in_range(),
        ensures
            r == match self {
                LocalResult::Single(d) => if hour < 24 && min < 60 && sec < 60 && nano
                    < 2_000_000_000 {
                    match spec_and_time(
                        d,
                        time_of_view(
                            TimeView {
                                secs: hour * 3600 + min * 60 + sec,
                                frac: nano as int,
                            },
                        ),
                    ) {
                        Some(dt) => LocalResult::Single(dt),
                        Option::None => LocalResult::<DateTime<Off>>::NoValue,
                    }
                } else {
                    LocalResult::<DateTime<Off>>::NoValue
                },
                _ => LocalResult::<DateTime<Off>>::NoValue,
            },
    {
        match self {
            LocalResult::Single(d) => {
                match d.and_hms_nano_opt(hour, min, sec, nano) {
                    Some(dt) => LocalResult::Single(dt),
                    None => LocalResult::NoValue,
                }
            },
            _ => LocalResult::NoValue,
        }
    }
}

/// One resolved canonical-to-local skew, cached in a zoned value so that
/// field access never re-runs zone resolution.
pub trait OffsetState: Sized + Copy {
    /// The skew, local minus canonical, in nanoseconds.
    spec fn spec_skew(&self) -> int;

    /// The display text of the state.
    spec fn spec_text(&self) -> Seq<char>;

    /// The skew as a span of time.
    fn local_minus_utc(&self) -> (d: Duration)
        ensures
            d.wf(),
            d@ == self.spec_skew(),
    ;

    /// The display text of the state.
    fn text(&self) -> (s: String)
        ensures
            s@ == self.spec_text(),
    ;
}

/// A zone backend: a pure policy that resolves local values to offset states
/// (three-way) and canonical values to offset states (totally), and that can
/// be rebuilt from any state it produced.
pub trait Offset: Sized + Copy {
    /// The offset-state type this backend produces.
    type State: OffsetState;

    /// Model of rebuilding the backend from a state.
    spec fn spec_from_state(state: Self::State) -> Self;

    /// Model of resolving a local date.
    spec fn spec_local_date(&self, local: NaiveDate) -> LocalResult<Self::State>;

    /// Model of resolving a local time of day.
    spec fn spec_local_time(&self, local: NaiveTime) -> LocalResult<Self::State>;

    /// Model of resolving a local date-time.
    spec fn spec_local_datetime(&self, local: NaiveDateTime) -> LocalResult<Self::State>;

    /// Model of resolving a canonical date.
    spec fn spec_utc_date(&self, utc: NaiveDate) -> Self::State;

    /// Model of resolving a canonical time of day.
    spec fn spec_utc_time(&self, utc: NaiveTime) -> Self::State;

    /// Model of resolving a canonical date-time.
    spec fn spec_utc_datetime(&self, utc: NaiveDateTime) -> Self::State;

    /// Rebuilds the backend from a state it produced.
    fn from_state(state: &Self::State) -> (z: Self)
        ensures
            z == Self::spec_from_state(*state),
    ;

    /// The offset state(s) for a local date.
    fn state_from_local_date(&self, local: &NaiveDate) -> (r: LocalResult<Self::State>)
        requires
            local.wf(),
        ensures
            r == self.spec_local_date(*local),
    ;

    /// The offset state(s) for a local time of day.
    fn state_from_local_time(&self, local: &NaiveTime) -> (r: LocalResult<Self::State>)
        requires
            local.wf(),
        ensures
            r == self.spec_local_time(*local),
    ;

    /// The offset state(s) for a local date-time.
    fn state_from_local_datetime(&self, local: &NaiveDateTime) -> (r: LocalResult<Self::State>)
        requires
            local.wf(),
        ensures
            r == self.spec_local_datetime(*local),
    ;

    /// The offset state for a canonical date; canonical time has no gaps or
    /// folds, so this is total.
    fn state_from_utc_date(&self, utc: &NaiveDate) -> (s: Self::State)
        requires
            utc.wf(),
        ensures
            s == self.spec_utc_date(*utc),
    ;

    /// The offset state for a canonical time of day.
    fn state_from_utc_time(&self, utc: &NaiveTime) -> (s: Self::State)
        requires
            utc.wf(),
        ensures
            s == self.spec_utc_time(*utc),
    ;

    /// The offset state for a canonical date-time.
    fn state_from_utc_datetime(&self, utc: &NaiveDateTime) -> (s: Self::State)
        requires
            utc.wf(),
        ensures
            s == self.spec_utc_datetime(*utc),
    ;

    /// Round-trip law for dates: the state resolved for a canonical date is
    /// among the states its local view resolves to.
    proof fn law_date_roundtrip(&self, utc: NaiveDate, local: NaiveDate)
        requires
            utc.wf(),
            local.wf(),
            day_index(local@) == day_index(utc@) + whole_days_of(
                self.spec_utc_date(utc).spec_skew(),
            ),
        ensures
            lr_contains(self.spec_local_date(local), self.spec_utc_date(utc)),
    ;

    /// Round-trip law for times of day (which shift by the skew's whole
    /// seconds, wrapping around midnight).
    proof fn law_time_roundtrip(&self, utc: NaiveTime, local: NaiveTime)
        requires
            utc.wf(),
            local.wf(),
            local@.secs == (utc@.secs + whole_secs_of(self.spec_utc_time(utc).spec_skew()))
                % 86_400,
            local@.frac == utc@.frac,
        ensures
            lr_contains(self.spec_local_time(local), self.spec_utc_time(utc)),
    ;

    /// Round-trip law for date-times.
    proof fn law_datetime_roundtrip(&self, utc: NaiveDateTime, local: NaiveDateTime)
        requires
            utc.wf(),
            local.wf(),
            local@.time.frac < 1_000_000_000,
            dt_index_nanos(local@) == dt_index_nanos(utc@) + self.spec_utc_datetime(
                utc,
            ).spec_skew(),
        ensures
            lr_contains(self.spec_local_datetime(local), self.spec_utc_datetime(utc)),
    ;

}

/// The conversions every backend derives from its resolution primitives;
/// implemented for all backends at once.
pub trait OffsetExt: Offset {
    /// Converts a local date to zoned dates, subtracting each resolved
    /// state's whole-day skew; a candidate leaving the representable range
    /// collapses the outcome to `NoValue`.
    fn from_local_date(&self, local: &NaiveDate) -> (r: LocalResult<Date<Self>>)
        requires
            local.wf(),
        ensures
            r == spec_date_from_local(*self, *local),
            match r {
                LocalResult::Single(d) => d.wf(),
                LocalResult::Ambiguous(a, b) => a.wf() && b.wf(),
                LocalResult::NoValue => true,
            },
    {
        match self.state_from_local_date(local) {
            LocalResult::NoValue => LocalResult::NoValue,
            LocalResult::Single(s) => {
                match date_minus_skew(local, &s) {
                    Some(d) => LocalResult::Single(Date::from_utc(d, s)),
                    None => LocalResult::NoValue,
                }
            },
            LocalResult::Ambiguous(s1, s2) => {
                match (date_minus_skew(local, &s1), date_minus_skew(local, &s2)) {
                    (Some(d1), Some(d2)) => LocalResult::Ambiguous(
                        Date::from_utc(d1, s1),
                        Date::from_utc(d2, s2),
                    ),
                    _ => LocalResult::NoValue,
                }
            },
        }
    }

    /// Converts a canonical date to a zoned date; this is total.
    fn from_utc_date(&self, utc: &NaiveDate) -> (d: Date<Self>)
        requires
            utc.wf(),
        ensures
            d.date == *utc,
            d.offset == self.spec_utc_date(*utc),
            d.wf(),
    {
        let s = self.state_from_utc_date(utc);
        Date::from_utc(*utc, s)
    }

    /// Converts a local time of day to zoned times, subtracting each
    /// resolved state's whole-second skew around midnight.
    fn from_local_time(&self, local: &NaiveTime) -> (r: LocalResult<Time<Self>>)
        requires
            local.wf(),
        ensures
            r == spec_time_from_local(*self, *local),
            match r {
                LocalResult::Single(t) => t.wf(),
                LocalResult::Ambiguous(a, b) => a.wf() && b.wf(),
                LocalResult::NoValue => true,
            },
    {
        match self.state_from_local_time(local) {
            LocalResult::NoValue => LocalResult::NoValue,
            LocalResult::Single(s) => LocalResult::Single(
                Time::from_utc(time_minus_skew(local, &s), s),
            ),
            LocalResult::Ambiguous(s1, s2) => LocalResult::Ambiguous(
                Time::from_utc(time_minus_skew(local, &s1), s1),
                Time::from_utc(time_minus_skew(local, &s2), s2),
            ),
        }
    }

    /// Converts a canonical time of day to a zoned time; this is total.
    fn from_utc_time(&self, utc: &NaiveTime) -> (t: Time<Self>)
        requires
            utc.wf(),
        ensures
            t.time == *utc,
            t.offset == self.spec_utc_time(*utc),
            t.wf(),
    {
        let s = self.state_from_utc_time(utc);
        Time::from_utc(*utc, s)
    }

    /// Converts a local date-time to zoned date-times, subtracting each
    /// resolved state's whole skew; a candidate leaving the representable
    /// range collapses the outcome to `NoValue`.
    fn from_local_datetime(&self, local: &NaiveDateTime) -> (r: LocalResult<DateTime<Self>>)
        requires
            local.wf(),
        ensures
            r == spec_datetime_from_local(*self, *local),
            match r {
                LocalResult::Single(d) => d.wf(),
                LocalResult::Ambiguous(a, b) => a.wf() && b.wf(),
                LocalResult::NoValue => true,
            },
    {
        match self.state_from_local_datetime(local) {
            LocalResult::NoValue => LocalResult::NoValue,
            LocalResult::Single(s) => {
                match datetime_minus_skew(local, &s) {
                    Some(d) => LocalResult::Single(DateTime::from_utc(d, s)),
                    None => LocalResult::NoValue,
                }
            },
            LocalResult::Ambiguous(s1, s2) => {
                match (datetime_minus_skew(local, &s1), datetime_minus_skew(local, &s2)) {
                    (Some(d1), Some(d2)) => LocalResult::Ambiguous(
                        DateTime::from_utc(d1, s1),
                        DateTime::from_utc(d2, s2),
                    ),
                    _ => LocalResult::NoValue,
                }
            },
        }
    }

    /// Converts a canonical date-time to a zoned date-time; this is total.
    fn from_utc_datetime(&self, utc: &NaiveDateTime) -> (d: DateTime<Self>)
        requires
            utc.wf(),
        ensures
            d.datetime == *utc,
            d.offset == self.spec_utc_datetime(*utc),
            d.wf(),
    {
        let s = self.state_from_utc_datetime(utc);
        DateTime::from_utc(*utc, s)
    }

    /// Builds a zoned date from year, month and day under this backend: the
    /// fields are first checked against the calendar, then resolved through
    /// the zone; a failure in either layer yields the same empty outcome,
    /// and only the zone layer can yield `Ambiguous`.
    fn ymd_opt(&self, year: i32, month: u32, day: u32) -> (r: LocalResult<Date<Self>>)
        ensures
            r == (if valid_ymd(year as int, month as int, day as int) {
                spec_date_from_local(
                    *self,
                    date_of_view(ymd_view(year as int, month as int, day as int)),
                )
            } else {
                LocalResult::<Date<Self>>::NoValue
            }),
    {
        match NaiveDate::from_ymd_opt(year, month, day) {
            Some(nd) => {
                proof {
                    lemma_ymd_view_valid(year as int, month as int, day as int);
                    lemma_date_of_view(ymd_view(year as int, month as int, day as int));
                    lemma_date_value_injective(
                        nd,
                        date_of_view(ymd_view(year as int, month as int, day as int)),
                    );
                }
                self.from_local_date(&nd)
            },
            None => LocalResult::NoValue,
        }
    }

    /// Builds a zoned date from year, month and day; fields that do not
    /// resolve to a unique date are outside this function's domain (the
    /// unverified convenience layer reports them as errors).
    fn ymd(&self, year: i32, month: u32, day: u32) -> (r: Date<Self>)
        requires
            valid_ymd(year as int, month as int, day as int),
            spec_date_from_local(
                *self,
                date_of_view(ymd_view(year as int, month as int, day as int)),
            ) matches LocalResult::Single(_),
        ensures
            LocalResult::Single(r) == spec_date_from_local(
                *self,
                date_of_view(ymd_view(year as int, month as int, day as int)),
            ),
    {
        self.ymd_opt(year, month, day).unwrap()
    }

    /// Builds a zoned date from year and day of year, by the same two-layer
    /// check as `ymd_opt`.
    fn yo_opt(&self, year: i32, ordinal: u32) -> (r: LocalResult<Date<Self>>)
        ensures
            r == (if MIN_YEAR <= year as int <= MAX_YEAR && 1 <= ordinal as int <= days_in_year(
                year as int,
            ) {
                spec_date_from_local(
                    *self,
                    date_of_view(DateView { year: year as int, ordinal: ordinal as int }),
                )
            } else {
                LocalResult::<Date<Self>>::NoValue
            }),
    {
        match NaiveDate::from_yo_opt(year, ordinal) {
            Some(nd) => {
                proof {
                    lemma_date_of_view(DateView { year: year as int, ordinal: ordinal as int });
                    lemma_date_value_injective(
                        nd,
                        date_of_view(DateView { year: year as int, ordinal: ordinal as int }),
                    );
                }
                self.from_local_date(&nd)
            },
            None => LocalResult::NoValue,
        }
    }

    /// Builds a zoned date from year and day of year; fields that do not
    /// resolve to a unique date are outside this function's domain.
    fn yo(&self, year: i32, ordinal: u32) -> (r: Date<Self>)
        requires
            MIN_YEAR <= year as int <= MAX_YEAR,
            1 <= ordinal as int <= days_in_year(year as int),
            spec_date_from_local(
                *self,
                date_of_view(DateView { year: year as int, ordinal: ordinal as int }),
            ) matches LocalResult::Single(_),
        ensures
            LocalResult::Single(r) == spec_date_from_local(
                *self,
                date_of_view(DateView { year: year as int, ordinal: ordinal as int }),
            ),
    {
        self.yo_opt(year, ordinal).unwrap()
    }

    /// Builds a zoned date from an ISO week date (week-year, one-based week
    /// number, day of the week), by the same two-layer check as `ymd_opt`;
    /// the resulting date may fall in a neighbouring calendar year.
    fn isoywd_opt(&self, year: i32, week: u32, weekday: Weekday) -> (r: LocalResult<Date<Self>>)
        ensures
            ({
                let ti = week1_monday(year as int) + (week - 1) * 7 + spec_days_from_monday(
                    weekday,
                );
                r == (if MIN_YEAR <= year as int <= MAX_YEAR && 1 <= week && ti < week1_monday(
                    year as int + 1,
                ) && min_day_index() <= ti <= max_day_index() {
                    spec_date_from_local(*self, date_of_view(date_of_index(ti)))
                } else {
                    LocalResult::<Date<Self>>::NoValue
                })
            }),
    {
        if year < MIN_YEAR || year > MAX_YEAR || week < 1 {
            return LocalResult::NoValue;
        }
        let w1 = week1_monday_exec(year);
        let w2 = week1_monday_exec(year + 1);
        proof {
            crate::naive_date::lemma_week1_monday_bounds(year as int);
            crate::naive_date::lemma_week1_monday_bounds(year as int + 1);
            crate::naive_date::lemma_dby_step(year as int);
        }
        if week > 60 {
            return LocalResult::NoValue;
        }
        let ti: i64 = w1 + (week as i64 - 1) * 7 + weekday.num_days_from_monday() as i64;
        if ti >= w2 {
            return LocalResult::NoValue;
        }
        match NaiveDate::from_day_index(ti) {
            Some(nd) => {
                proof {
                    crate::naive_date::lemma_index_bounds(nd@);
                    crate::naive_date::lemma_date_of_view(date_of_index(ti as int));
                    lemma_date_value_injective(nd, date_of_view(date_of_index(ti as int)));
                }
                self.from_local_date(&nd)
            },
            None => LocalResult::NoValue,
        }
    }

    /// Builds a zoned date from an ISO week date; fields that do not resolve
    /// to a unique date are outside this function's domain.
    fn isoywd(&self, year: i32, week: u32, weekday: Weekday) -> (r: Date<Self>)
        requires
            ({
                let ti = week1_monday(year as int) + (week - 1) * 7 + spec_days_from_monday(
                    weekday,
                );
                &&& MIN_YEAR <= year as int <= MAX_YEAR
                &&& 1 <= week
                &&& ti < week1_monday(year as int + 1)
                &&& min_day_index() <= ti <= max_day_index()
                &&& spec_date_from_local(
                    *self,
                    date_of_view(date_of_index(ti)),
                ) matches LocalResult::Single(_)
            }),
        ensures
            LocalResult::Single(r) == spec_date_from_local(
                *self,
                date_of_view(
                    date_of_index(
                        week1_monday(year as int) + (week - 1) * 7 + spec_days_from_monday(
                            weekday,
                        ),
                    ),
                ),
            ),
    {
        self.isoywd_opt(year, week, weekday).unwrap()
    }

    /// Builds a zoned time from hour, minute and second, by the same
    /// two-layer check as the date constructors.
    fn hms_opt(&self, hour: u32, min: u32, sec: u32) -> (r: LocalResult<Time<Self>>)
        ensures
            r == (if hour < 24 && min < 60 && sec < 60 {
                spec_time_from_local(
                    *self,
                    time_of_view(
                        TimeView { secs: hour * 3600 + min * 60 + sec, frac: 0 },
                    ),
                )
            } else {
                LocalResult::<Time<Self>>::NoValue
            }),
    {
        match NaiveTime::from_hms_opt(hour, min, sec) {
            Some(t) => {
                proof {
                    lemma_time_of_view(
                        TimeView { secs: hour * 3600 + min * 60 + sec, frac: 0 },
                    );
                    lemma_time_value_injective(
                        t,
                        time_of_view(
                            TimeView { secs: hour * 3600 + min * 60 + sec, frac: 0 },
                        ),
                    );
                }
                self.from_local_time(&t)
            },
            None => LocalResult::NoValue,
        }
    }

    /// Builds a zoned time from hour, minute and second; fields that do not
    /// resolve to a unique time are outside this function's domain.
    fn hms(&self, hour: u32, min: u32, sec: u32) -> (r: Time<Self>)
        requires
            hour < 24 && min < 60 && sec < 60,
            spec_time_from_local(
                *self,
                time_of_view(TimeView { secs: hour * 3600 + min * 60 + sec, frac: 0 }),
            ) matches LocalResult::Single(_),
        ensures
            LocalResult::Single(r) == spec_time_from_local(
                *self,
                time_of_view(TimeView { secs: hour * 3600 + min * 60 + sec, frac: 0 }),
            ),
    {
        self.hms_opt(hour, min, sec).unwrap()
    }

    /// As `hms_opt`, with a millisecond that may reach 1999 to encode a leap
    /// second.
    fn hms_milli_opt(&self, hour: u32, min: u32, sec: u32, milli: u32) -> (r: LocalResult<
        Time<Self>,
    >)
        ensures
            r == (if hour < 24 && min < 60 && sec < 60 && milli < 2000 {
                spec_time_from_local(
                    *self,
                    time_of_view(
                        TimeView {
                            secs: hour * 3600 + min * 60 + sec,
                            frac: milli * 1_000_000,
                        },
                    ),
                )
            } else {
                LocalResult::<Time<Self>>::NoValue
            }),
    {
        match NaiveTime::from_hms_milli_opt(hour, min, sec, milli) {
            Some(t) => {
                proof {
                    lemma_time_of_view(t@);
                    lemma_time_value_injective(t, time_of_view(t@));
                }
                self.from_local_time(&t)
            },
            None => LocalResult::NoValue,
        }
    }

    /// As `hms`, with a millisecond that may reach 1999 to encode a leap
    /// second.
    fn hms_milli(&self, hour: u32, min: u32, sec: u32, milli: u32) -> (r: Time<Self>)
        requires
            hour < 24 && min < 60 && sec < 60 && milli < 2000,
            spec_time_from_local(
                *self,
                time_of_view(
                    TimeView { secs: hour * 3600 + min * 60 + sec, frac: milli * 1_000_000 },
                ),
            ) matches LocalResult::Single(_),
        ensures
            LocalResult::Single(r) == spec_time_from_local(
                *self,
                time_of_view(
                    TimeView { secs: hour * 3600 + min * 60 + sec, frac: milli * 1_000_000 },
                ),
            ),
    {
        self.hms_milli_opt(hour, min, sec, milli).unwrap()
    }

    /// As `hms_opt`, with a microsecond that may reach 1_999_999 to encode a
    /// leap second.
    fn hms_micro_opt(&self, hour: u32, min: u32, sec: u32, micro: u32) -> (r: LocalResult<
        Time<Self>,
    >)
        ensures
            r == (if hour < 24 && min < 60 && sec < 60 && micro < 2_000_000 {
                spec_time_from_local(
                    *self,
                    time_of_view(
                        TimeView {
                            secs: hour * 3600 + min * 60 + sec,
                            frac: micro * 1000,
                        },
                    ),
                )
            } else {
                LocalResult::<Time<Self>>::NoValue
            }),
    {
        match NaiveTime::from_hms_micro_opt(hour, min, sec, micro) {
            Some(t) => {
                proof {
                    lemma_time_of_view(t@);
                    lemma_time_value_injective(t, time_of_view(t@));
                }
                self.from_local_time(&t)
            },
            None => LocalResult::NoValue,
        }
    }

    /// As `hms`, with a microsecond that may reach 1_999_999 to encode a
    /// leap second.
    fn hms_micro(&self, hour: u32, min: u32, sec: u32, micro: u32) -> (r: Time<Self>)
        requires
            hour < 24 && min < 60 && sec < 60 && micro < 2_000_000,
            spec_time_from_local(
                *self,
                time_of_view(
                    TimeView { secs: hour * 3600 + min * 60 + sec, frac: micro * 1000 },
                ),
            ) matches LocalResult::Single(_),
        ensures
            LocalResult::Single(r) == spec_time_from_local(
                *self,
                time_of_view(
                    TimeView { secs: hour * 3600 + min * 60 + sec, frac: micro * 1000 },
                ),
            ),
    {
        self.hms_micro_opt(hour, min, sec, micro).unwrap()
    }

    /// As `hms_opt`, with a nanosecond that may reach 1_999_999_999 to
    /// encode a leap second.
    fn hms_nano_opt(&self, hour: u32, min: u32, sec: u32, nano: u32) -> (r: LocalResult<
        Time<Self>,
    >)
        ensures
            r == (if hour < 24 && min < 60 && sec < 60 && nano < 2_000_000_000 {
                spec_time_from_local(
                    *self,
                    time_of_view(
                        TimeView {
                            secs: hour * 3600 + min * 60 + sec,
                            frac: nano as int,
                        },
                    ),
                )
            } else {
                LocalResult::<Time<Self>>::NoValue
            }),
    {
        match NaiveTime::from_hms_nano_opt(hour, min, sec, nano) {
            Some(t) => {
                proof {
                    lemma_time_of_view(t@);
                    lemma_time_value_injective(t, time_of_view(t@));
                }
                self.from_local_time(&t)
            },
            None => LocalResult::NoValue,
        }
    }

    /// As `hms`, with a nanosecond that may reach 1_999_999_999 to encode a
    /// leap second.
    fn hms_nano(&self, hour: u32, min: u32, sec: u32, nano: u32) -> (r: Time<Self>)
        requires
            hour < 24 && min < 60 && sec < 60 && nano < 2_000_000_000,
            spec_time_from_local(
                *self,
                time_of_view(
                    TimeView { secs: hour * 3600 + min * 60 + sec, frac: nano as int },
                ),
            ) matches LocalResult::Single(_),
        ensures
            LocalResult::Single(r) == spec_time_from_local(
                *self,
                time_of_view(
                    TimeView { secs: hour * 3600 + min * 60 + sec, frac: nano as int },
                ),
            ),
    {
        self.hms_nano_opt(hour, min, sec, nano).unwrap()
    }
}

impl<T: Offset> OffsetExt for T {
}

/// The canonical date of a local date under state `s`: the local date moved
/// back by the skew's whole days, when that stays representable.
fn date_minus_skew<St: OffsetState>(local: &NaiveDate, s: &St) -> (r: Option<NaiveDate>)
    requires
        local.wf(),
    ensures
        r == crate::date::spec_date_minus_skew(*local, s.spec_skew()),
        match r {
            Some(d) => d.wf() && day_index(d@) == day_index(local@) - whole_days_of(s.spec_skew()),
            None => true,
        },
{
    let sk = s.local_minus_utc().num_days();
    let r = local.checked_add_days(-sk);
    proof {
        let target = day_index(local@) - whole_days_of(s.spec_skew());
        match r {
            Some(d) => {
                crate::naive_date::lemma_index_bounds(d@);
                crate::naive_date::lemma_date_of_view(crate::naive_date::date_of_index(target));
                crate::naive_date::lemma_date_value_injective(
                    d,
                    date_of_view(crate::naive_date::date_of_index(target)),
                );
            },
            None => {},
        }
    }
    r
}

/// The canonical time of a local time under state `s`: the local time moved
/// back by the skew's whole seconds, wrapping around midnight.
fn time_minus_skew<St: OffsetState>(local: &NaiveTime, s: &St) -> (r: NaiveTime)
    requires
        local.wf(),
    ensures
        r == crate::time::spec_time_minus_skew(*local, s.spec_skew()),
        r.wf(),
{
    let sk = s.local_minus_utc().num_seconds();
    let r = local.shifted_secs_sub(sk);
    proof {
        crate::naive_time::lemma_time_of_view(r@);
        crate::naive_time::lemma_time_value_injective(
            r,
            crate::time::spec_time_minus_skew(*local, s.spec_skew()),
        );
    }
    r
}

/// The canonical date-time of a local date-time under state `s`: the local
/// value moved back by the whole skew, when its date stays representable.
fn datetime_minus_skew<St: OffsetState>(local: &NaiveDateTime, s: &St) -> (r: Option<
    NaiveDateTime,
>)
    requires
        local.wf(),
    ensures
        r == crate::datetime::spec_datetime_minus_skew(*local, s.spec_skew()),
        match r {
            Some(d) => d.wf(),
            None => true,
        },
{
    let sk = s.local_minus_utc();
    let r = local.checked_sub_signed(&sk);
    proof {
        let target = dt_index_nanos(local@) - s.spec_skew();
        match r {
            Some(d) => {
                crate::naive_date::lemma_index_bounds(d@.date);
                vstd::arithmetic::div_mod::lemma_fundamental_div_mod_converse_div(
                    target,
                    86_400_000_000_000int,
                    day_index(d@.date),
                    d@.time.secs * 1_000_000_000 + d@.time.frac,
                );
                crate::naive_datetime::lemma_datetime_of_nanos(target);
                crate::naive_datetime::lemma_dt_index_injective(
                    d,
                    crate::naive_datetime::datetime_of_nanos(target),
                );
            },
            None => {},
        }
    }
    r
}

} // verus!

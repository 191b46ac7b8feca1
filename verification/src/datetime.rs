//! Combined date-time values with a time zone: a canonical date-time plus a
//! cached offset state.

use vstd::prelude::*;
use crate::date::Date;
use crate::duration::Duration;
use crate::naive_date::{max_day_index, min_day_index, NaiveDate};
use crate::naive_datetime::{datetime_of_nanos, dt_index_nanos, NaiveDateTime};
use crate::offset::{LocalResult, Offset, OffsetState};

verus! {

/// A date-time under a zone backend `Off`: the canonical date-time plus the
/// offset state resolved when the value was built. The fields are exposed
/// for specification; verified code builds values only through the
/// constructors, which keep `datetime.wf()`.
#[derive(Clone, Copy)]
pub struct DateTime<Off: Offset> {
    /// The canonical (zone-independent) date-time.
    pub datetime: NaiveDateTime,
    /// The offset state cached at construction.
    pub offset: Off::State,
}

/// The canonical date-time of a local date-time under a skew of `skew`
/// nanoseconds: the local value moved back by the whole skew, when its date
/// stays representable.
pub open spec fn spec_datetime_minus_skew(local: NaiveDateTime, skew: int) -> Option<
    NaiveDateTime,
> {
    let target = dt_index_nanos(local@) - skew;
    if min_day_index() <= target / 86_400_000_000_000 <= max_day_index() {
        Some(datetime_of_nanos(target))
    } else {
        Option::None
    }
}

/// Model of converting a local date-time through backend `z`: each resolved
/// state yields a zoned date-time; a candidate out of range collapses the
/// outcome to `NoValue`.
pub open spec fn spec_datetime_from_local<Off: Offset>(z: Off, local: NaiveDateTime) -> LocalResult<
    DateTime<Off>,
> {
    match z.spec_local_datetime(local) {
        LocalResult::NoValue => LocalResult::NoValue,
        LocalResult::Single(s) => match spec_datetime_minus_skew(local, s.spec_skew()) {
            Some(d) => LocalResult::Single(DateTime { datetime: d, offset: s }),
            Option::None => LocalResult::NoValue,
        },
        LocalResult::Ambiguous(s1, s2) => match (
            spec_datetime_minus_skew(local, s1.spec_skew()),
            spec_datetime_minus_skew(local, s2.spec_skew()),
        ) {
            (Some(d1), Some(d2)) => LocalResult::Ambiguous(
                DateTime { datetime: d1, offset: s1 },
                DateTime { datetime: d2, offset: s2 },
            ),
            _ => LocalResult::NoValue,
        },
    }
}

impl<Off: Offset> DateTime<Off> {
    /// The canonical date-time is representable.
    pub open spec fn wf(self) -> bool {
        self.datetime.wf()
    }

    /// The local view is representable.
    pub open spec fn local_in_range(self) -> bool {
        min_day_index() <= (dt_index_nanos(self.datetime@) + self.offset.spec_skew())
            / 86_400_000_000_000 <= max_day_index()
    }

    /// Wraps a canonical date-time and an offset state.
    pub fn from_utc(datetime: NaiveDateTime, offset: Off::State) -> (d: DateTime<Off>)
        requires
            datetime.wf(),
        ensures
            d.datetime == datetime,
            d.offset == offset,
            d.wf(),
    {
        DateTime { datetime, offset }
    }

    /// The canonical date-time.
    pub fn naive_utc(&self) -> (d: NaiveDateTime)
        ensures
            d == self.datetime,
    {
        self.datetime
    }

    /// The cached offset state.
    pub fn offset(&self) -> (s: &Off::State)
        ensures
            *s == self.offset,
    {
        &self.offset
    }

    /// The zone backend rebuilt from the cached state.
    pub fn timezone(&self) -> (z: Off)
        ensures
            z == Off::spec_from_state(self.offset),
    {
        Off::from_state(&self.offset)
    }

    /// The zoned date part: the canonical date with the same offset state.
    pub fn date(&self) -> (d: Date<Off>)
        requires
            self.wf(),
        ensures
            d.date == self.datetime.spec_date_part(),
            d.offset == self.offset,
            d.wf(),
    {
        Date::from_utc(self.datetime.date(), self.offset)
    }

    /// The local view: the canonical date-time moved forward by the whole
    /// skew, its fraction renormalized below one second.
    pub fn naive_local(&self) -> (d: NaiveDateTime)
        requires
            self.wf(),
            self.local_in_range(),
        ensures
            d.wf(),
            d@.time.frac < 1_000_000_000,
            dt_index_nanos(d@) == dt_index_nanos(self.datetime@) + self.offset.spec_skew(),
    {
        let sk = self.offset.local_minus_utc();
        match self.datetime.checked_add_signed(&sk) {
            Some(d) => d,
            None => vstd::pervasive::unreached(),
        }
    }

    /// Zoned date-times are equal exactly when their canonical date-times
    /// are equal, whatever their backends or displayed fields.
    pub fn eq<Off2: Offset>(&self, other: &DateTime<Off2>) -> (r: bool)
        ensures
            r == (self.datetime == other.datetime),
    {
        self.datetime == other.datetime
    }

    /// The signed span from `other` to `self`, measured on canonical
    /// date-times and independent of either offset.
    pub fn signed_duration_since<Off2: Offset>(&self, other: &DateTime<Off2>) -> (d: Duration)
        requires
            self.wf(),
            other.wf(),
        ensures
            d@ == dt_index_nanos(self.datetime@) - dt_index_nanos(other.datetime@),
            d.wf(),
    {
        let ia: i64 = self.datetime.date().day_index_exec();
        let ib: i64 = other.datetime.date().day_index_exec();
        let sa: i64 = ia * 86_400 + self.datetime.time().secs_since_midnight() as i64;
        let sb: i64 = ib * 86_400 + other.datetime.time().secs_since_midnight() as i64;
        let fa: i64 = self.datetime.time().nanosecond() as i64;
        let fb: i64 = other.datetime.time().nanosecond() as i64;
        let ds: i64 = sa - sb;
        let df: i64 = fa - fb;
        if df >= 0 {
            let carry: i64 = if df >= 1_000_000_000 {
                1
            } else {
                0
            };
            Duration::new(ds + carry, (df - carry * 1_000_000_000) as u32)
        } else {
            let borrow: i64 = if df >= -1_000_000_000 {
                1
            } else {
                2
            };
            Duration::new(ds - borrow, (df + borrow * 1_000_000_000) as u32)
        }
    }
}

} // verus!

verus! {

impl<Off: Offset> DateTime<Off> {
    /// The display text: the local date, a `T`, the local time, and the
    /// offset state's text, with no other separators.
    pub fn debug_string(&self) -> (s: String)
        requires
            self.wf(),
            self.local_in_range(),
        ensures
            ({
                let local = crate::naive_datetime::datetime_of_nanos(
                    dt_index_nanos(self.datetime@) + self.offset.spec_skew(),
                );
                s@ == crate::render::date_text(local@.date) + "T"@ + crate::render::time_text(
                    local@.time,
                ) + self.offset.spec_text()
            }),
    {
        let mut out = String::new();
        let local = self.naive_local();
        proof {
            crate::naive_datetime::lemma_datetime_of_nanos(
                dt_index_nanos(self.datetime@) + self.offset.spec_skew(),
            );
            crate::naive_datetime::lemma_dt_index_injective(
                local,
                crate::naive_datetime::datetime_of_nanos(
                    dt_index_nanos(self.datetime@) + self.offset.spec_skew(),
                ),
            );
        }
        crate::render::push_date_text(&local.date(), &mut out);
        out.append("T");
        crate::render::push_time_text(&local.time(), &mut out);
        let t = self.offset.text();
        out.append(t.as_str());
        out
    }
}

} // verus!

//! A backend with one day-granularity skew change: local dates near the
//! cutover can fall in a gap or a fold.

use vstd::prelude::*;
use crate::duration::{lemma_whole_days_exact, Duration};
use crate::naive_date::{day_index, NaiveDate};
use crate::naive_datetime::{dt_index_nanos, NaiveDateTime};
use crate::naive_time::NaiveTime;
use crate::offset::{LocalResult, Offset, OffsetState};
use crate::render::{offset_text, push_offset_text};

verus! {

/// A zone whose skew is `before` whole days for canonical instants before
/// the cutover day and `after` whole days from it on (a date-line change:
/// with `before > after` the days around the cutover repeat, with `before <
/// after` some local days do not exist). Plain times of day, having no date,
/// resolve with the pre-cutover skew throughout.
#[derive(Clone, Copy, PartialEq, Eq, Structural, Debug)]
pub struct DayTransition {
    cut: i64,
    before: i8,
    after: i8,
}

/// One resolved skew of a [`DayTransition`] zone: the zone itself plus the
/// whole-day skew that applied.
#[derive(Clone, Copy, PartialEq, Eq, Structural, Debug)]
pub struct DayTransitionState {
    zone: DayTransition,
    days: i8,
}

impl DayTransition {
    /// The day-line position of the first day under the new skew.
    pub closed spec fn spec_cut(&self) -> int {
        self.cut as int
    }

    /// The skew, in days, before the cutover.
    pub closed spec fn spec_before(&self) -> int {
        self.before as int
    }

    /// The skew, in days, from the cutover on.
    pub closed spec fn spec_after(&self) -> int {
        self.after as int
    }

    /// A zone that skews by `before` whole days up to the canonical date
    /// `cut` and by `after` whole days from it on.
    pub fn new(cut: &NaiveDate, before: i8, after: i8) -> (z: DayTransition)
        requires
            cut.wf(),
        ensures
            z.spec_cut() == day_index(cut@),
            z.spec_before() == before as int,
            z.spec_after() == after as int,
    {
        DayTransition { cut: cut.day_index_exec(), before, after }
    }

    /// The state applying skew `days`.
    pub closed spec fn spec_state(&self, days: int) -> DayTransitionState {
        DayTransitionState { zone: *self, days: days as i8 }
    }

    fn state(&self, days: i8) -> (s: DayTransitionState)
        ensures
            s == self.spec_state(days as int),
            s.spec_skew() == days * 86_400_000_000_000,
    {
        DayTransitionState { zone: *self, days }
    }
}

impl OffsetState for DayTransitionState {
    open spec fn spec_skew(&self) -> int {
        self.spec_days() * 86_400_000_000_000
    }

    open spec fn spec_text(&self) -> Seq<char> {
        offset_text(self.spec_days() * 86_400)
    }

    fn local_minus_utc(&self) -> (d: Duration) {
        Duration::days(self.days as i64)
    }

    fn text(&self) -> (s: String) {
        let mut out = String::new();
        push_offset_text(self.days as i32 * 86_400, &mut out);
        out
    }
}

impl DayTransitionState {
    /// The whole-day skew this state applies.
    pub closed spec fn spec_days(&self) -> int {
        self.days as int
    }

    /// The zone the state came from.
    pub closed spec fn spec_zone(&self) -> DayTransition {
        self.zone
    }
}

impl Offset for DayTransition {
    type State = DayTransitionState;

    open spec fn spec_from_state(state: DayTransitionState) -> DayTransition {
        state.spec_zone()
    }

    open spec fn spec_local_date(&self, local: NaiveDate) -> LocalResult<DayTransitionState> {
        let idx = day_index(local@);
        let b_ok = idx - self.spec_before() < self.spec_cut();
        let a_ok = idx - self.spec_after() >= self.spec_cut();
        if b_ok && a_ok {
            LocalResult::Ambiguous(
                self.spec_state(self.spec_before()),
                self.spec_state(self.spec_after()),
            )
        } else if b_ok {
            LocalResult::Single(self.spec_state(self.spec_before()))
        } else if a_ok {
            LocalResult::Single(self.spec_state(self.spec_after()))
        } else {
            LocalResult::NoValue
        }
    }

    open spec fn spec_local_time(&self, local: NaiveTime) -> LocalResult<DayTransitionState> {
        LocalResult::Single(self.spec_state(self.spec_before()))
    }

    open spec fn spec_local_datetime(&self, local: NaiveDateTime) -> LocalResult<
        DayTransitionState,
    > {
        let t = dt_index_nanos(local@);
        let cutn = self.spec_cut() * 86_400_000_000_000;
        let b_ok = t - self.spec_before() * 86_400_000_000_000 < cutn;
        let a_ok = t - self.spec_after() * 86_400_000_000_000 >= cutn;
        if b_ok && a_ok {
            LocalResult::Ambiguous(
                self.spec_state(self.spec_before()),
                self.spec_state(self.spec_after()),
            )
        } else if b_ok {
            LocalResult::Single(self.spec_state(self.spec_before()))
        } else if a_ok {
            LocalResult::Single(self.spec_state(self.spec_after()))
        } else {
            LocalResult::NoValue
        }
    }

    open spec fn spec_utc_date(&self, utc: NaiveDate) -> DayTransitionState {
        if day_index(utc@) < self.spec_cut() {
            self.spec_state(self.spec_before())
        } else {
            self.spec_state(self.spec_after())
        }
    }

    open spec fn spec_utc_time(&self, utc: NaiveTime) -> DayTransitionState {
        self.spec_state(self.spec_before())
    }

    open spec fn spec_utc_datetime(&self, utc: NaiveDateTime) -> DayTransitionState {
        if dt_index_nanos(utc@) < self.spec_cut() * 86_400_000_000_000 {
            self.spec_state(self.spec_before())
        } else {
            self.spec_state(self.spec_after())
        }
    }

    fn from_state(state: &DayTransitionState) -> (z: DayTransition) {
        state.zone
    }

    fn state_from_local_date(&self, local: &NaiveDate) -> (r: LocalResult<DayTransitionState>) {
        let idx = local.day_index_exec();
        let b_ok = idx - (self.before as i64) < self.cut;
        let a_ok = idx - (self.after as i64) >= self.cut;
        if b_ok && a_ok {
            LocalResult::Ambiguous(self.state(self.before), self.state(self.after))
        } else if b_ok {
            LocalResult::Single(self.state(self.before))
        } else if a_ok {
            LocalResult::Single(self.state(self.after))
        } else {
            LocalResult::NoValue
        }
    }

    fn state_from_local_time(&self, local: &NaiveTime) -> (r: LocalResult<DayTransitionState>) {
        LocalResult::Single(self.state(self.before))
    }

    fn state_from_local_datetime(&self, local: &NaiveDateTime) -> (r: LocalResult<
        DayTransitionState,
    >) {
        let idx: i64 = local.date().day_index_exec();
        let t: i128 = ((idx * 86_400 + local.time().secs_since_midnight() as i64) as i128)
            * 1_000_000_000 + (local.time().nanosecond() as i128);
        assert(t == dt_index_nanos(local@));
        let cutn: i128 = (self.cut as i128) * 86_400_000_000_000;
        let b_ok = t - (self.before as i128) * 86_400_000_000_000 < cutn;
        let a_ok = t - (self.after as i128) * 86_400_000_000_000 >= cutn;
        if b_ok && a_ok {
            LocalResult::Ambiguous(self.state(self.before), self.state(self.after))
        } else if b_ok {
            LocalResult::Single(self.state(self.before))
        } else if a_ok {
            LocalResult::Single(self.state(self.after))
        } else {
            LocalResult::NoValue
        }
    }

    fn state_from_utc_date(&self, utc: &NaiveDate) -> (s: DayTransitionState) {
        if utc.day_index_exec() < self.cut {
            self.state(self.before)
        } else {
            self.state(self.after)
        }
    }

    fn state_from_utc_time(&self, utc: &NaiveTime) -> (s: DayTransitionState) {
        self.state(self.before)
    }

    fn state_from_utc_datetime(&self, utc: &NaiveDateTime) -> (s: DayTransitionState) {
        let idx: i64 = utc.date().day_index_exec();
        let t: i128 = ((idx * 86_400 + utc.time().secs_since_midnight() as i64) as i128)
            * 1_000_000_000 + (utc.time().nanosecond() as i128);
        assert(t == dt_index_nanos(utc@));
        let cutn: i128 = (self.cut as i128) * 86_400_000_000_000;
        if t < cutn {
            self.state(self.before)
        } else {
            self.state(self.after)
        }
    }

    proof fn law_date_roundtrip(&self, utc: NaiveDate, local: NaiveDate) {
        let s = self.spec_utc_date(utc);
        lemma_whole_days_exact(s.spec_days());
    }

    proof fn law_time_roundtrip(&self, utc: NaiveTime, local: NaiveTime) {
    }

    proof fn law_datetime_roundtrip(&self, utc: NaiveDateTime, local: NaiveDateTime) {
    }
}

} // verus!

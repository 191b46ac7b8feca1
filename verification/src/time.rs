//! Times of day with a time zone: a canonical time plus a cached offset
//! state.

use vstd::prelude::*;
use crate::duration::whole_secs_of;
use crate::naive_time::{time_of_view, NaiveTime, TimeView};
use crate::offset::{LocalResult, Offset, OffsetState};

verus! {

/// A time of day under a zone backend `Off`: the canonical time plus the
/// offset state resolved when the value was built. The fields are exposed
/// for specification; verified code builds values only through the
/// constructors, which keep `time.wf()`.
#[derive(Clone, Copy)]
pub struct Time<Off: Offset> {
    /// The canonical (zone-independent) time of day.
    pub time: NaiveTime,
    /// The offset state cached at construction.
    pub offset: Off::State,
}

/// The canonical time of a local time under a skew of `skew` nanoseconds:
/// the local time moved back by the skew's whole seconds, wrapping around
/// midnight; always representable.
pub open spec fn spec_time_minus_skew(local: NaiveTime, skew: int) -> NaiveTime {
    time_of_view(
        TimeView {
            secs: (local@.secs - whole_secs_of(skew)) % 86_400,
            frac: local@.frac,
        },
    )
}

/// Model of converting a local time through backend `z`.
pub open spec fn spec_time_from_local<Off: Offset>(z: Off, local: NaiveTime) -> LocalResult<
    Time<Off>,
> {
    match z.spec_local_time(local) {
        LocalResult::NoValue => LocalResult::NoValue,
        LocalResult::Single(s) => LocalResult::Single(
            Time { time: spec_time_minus_skew(local, s.spec_skew()), offset: s },
        ),
        LocalResult::Ambiguous(s1, s2) => LocalResult::Ambiguous(
            Time { time: spec_time_minus_skew(local, s1.spec_skew()), offset: s1 },
            Time { time: spec_time_minus_skew(local, s2.spec_skew()), offset: s2 },
        ),
    }
}

impl<Off: Offset> Time<Off> {
    /// The canonical time is representable.
    pub open spec fn wf(self) -> bool {
        self.time.wf()
    }

    /// Wraps a canonical time and an offset state.
    pub fn from_utc(time: NaiveTime, offset: Off::State) -> (t: Time<Off>)
        requires
            time.wf(),
        ensures
            t.time == time,
            t.offset == offset,
            t.wf(),
    {
        Time { time, offset }
    }

    /// The canonical time.
    pub fn naive_utc(&self) -> (t: NaiveTime)
        ensures
            t == self.time,
    {
        self.time
    }

    /// The cached offset state.
    pub fn offset(&self) -> (s: &Off::State)
        ensures
            *s == self.offset,
    {
        &self.offset
    }

    /// The zone backend rebuilt from the cached state.
    pub fn timezone(&self) -> (z: Off)
        ensures
            z == Off::spec_from_state(self.offset),
    {
        Off::from_state(&self.offset)
    }

    /// The local view: the canonical time moved forward by the skew's whole
    /// seconds, wrapping around midnight.
    pub fn naive_local(&self) -> (t: NaiveTime)
        requires
            self.wf(),
        ensures
            t.wf(),
            t@.secs == (self.time@.secs + whole_secs_of(self.offset.spec_skew())) % 86_400,
            t@.frac == self.time@.frac,
    {
        let sk = self.offset.local_minus_utc().num_seconds();
        self.time.shifted_secs(sk)
    }

    /// Zoned times are equal exactly when their canonical times are equal.
    pub fn eq<Off2: Offset>(&self, other: &Time<Off2>) -> (r: bool)
        ensures
            r == (self.time == other.time),
    {
        self.time == other.time
    }
}

} // verus!

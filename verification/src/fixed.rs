//! A backend with one fixed skew: every local value resolves uniquely.

use vstd::prelude::*;
use crate::duration::Duration;
use crate::naive_date::NaiveDate;
use crate::naive_datetime::NaiveDateTime;
use crate::naive_time::NaiveTime;
use crate::offset::{LocalResult, Offset, OffsetState};
use crate::render::{offset_text, push_offset_text};

verus! {

/// A zone with a fixed skew of a whole number of seconds, east positive. It
/// is its own offset state: resolution never consults the value resolved.
#[derive(Clone, Copy, PartialEq, Eq, Structural, Debug)]
pub struct FixedOffset {
    secs: i32,
}

impl FixedOffset {
    /// The skew in seconds, east positive.
    pub closed spec fn spec_secs(&self) -> int {
        self.secs as int
    }

    /// A fixed zone `secs` seconds east of canonical time; `None` beyond
    /// about three years of skew, so that every derived count stays well
    /// within its type.
    pub fn east_opt(secs: i32) -> (r: Option<FixedOffset>)
        ensures
            match r {
                Some(z) => -100_000_000 < secs < 100_000_000 && z.spec_secs() == secs as int,
                None => !(-100_000_000 < secs < 100_000_000),
            },
    {
        if -100_000_000 < secs && secs < 100_000_000 {
            Some(FixedOffset { secs })
        } else {
            None
        }
    }

    /// A fixed zone `secs` seconds west of canonical time; `None` beyond
    /// about three years of skew.
    pub fn west_opt(secs: i32) -> (r: Option<FixedOffset>)
        ensures
            match r {
                Some(z) => -100_000_000 < secs < 100_000_000 && z.spec_secs() == -(secs as int),
                None => !(-100_000_000 < secs < 100_000_000),
            },
    {
        if -100_000_000 < secs && secs < 100_000_000 {
            Some(FixedOffset { secs: -secs })
        } else {
            None
        }
    }

    /// The skew in seconds, east positive.
    pub fn seconds_east(&self) -> (r: i32)
        ensures
            r == self.spec_secs(),
    {
        self.secs
    }
}

impl OffsetState for FixedOffset {
    open spec fn spec_skew(&self) -> int {
        self.spec_secs() * 1_000_000_000
    }

    open spec fn spec_text(&self) -> Seq<char> {
        offset_text(self.spec_secs())
    }

    fn local_minus_utc(&self) -> (d: Duration) {
        Duration::seconds(self.secs as i64)
    }

    fn text(&self) -> (s: String) {
        let mut out = String::new();
        push_offset_text(self.secs, &mut out);
        out
    }
}

impl Offset for FixedOffset {
    type State = FixedOffset;

    open spec fn spec_from_state(state: FixedOffset) -> FixedOffset {
        state
    }

    open spec fn spec_local_date(&self, local: NaiveDate) -> LocalResult<FixedOffset> {
        LocalResult::Single(*self)
    }

    open spec fn spec_local_time(&self, local: NaiveTime) -> LocalResult<FixedOffset> {
        LocalResult::Single(*self)
    }

    open spec fn spec_local_datetime(&self, local: NaiveDateTime) -> LocalResult<FixedOffset> {
        LocalResult::Single(*self)
    }

    open spec fn spec_utc_date(&self, utc: NaiveDate) -> FixedOffset {
        *self
    }

    open spec fn spec_utc_time(&self, utc: NaiveTime) -> FixedOffset {
        *self
    }

    open spec fn spec_utc_datetime(&self, utc: NaiveDateTime) -> FixedOffset {
        *self
    }

    fn from_state(state: &FixedOffset) -> (z: FixedOffset) {
        *state
    }

    fn state_from_local_date(&self, local: &NaiveDate) -> (r: LocalResult<FixedOffset>) {
        LocalResult::Single(*self)
    }

    fn state_from_local_time(&self, local: &NaiveTime) -> (r: LocalResult<FixedOffset>) {
        LocalResult::Single(*self)
    }

    fn state_from_local_datetime(&self, local: &NaiveDateTime) -> (r: LocalResult<FixedOffset>) {
        LocalResult::Single(*self)
    }

    fn state_from_utc_date(&self, utc: &NaiveDate) -> (s: FixedOffset) {
        *self
    }

    fn state_from_utc_time(&self, utc: &NaiveTime) -> (s: FixedOffset) {
        *self
    }

    fn state_from_utc_datetime(&self, utc: &NaiveDateTime) -> (s: FixedOffset) {
        *self
    }

    proof fn law_date_roundtrip(&self, utc: NaiveDate, local: NaiveDate) {
    }

    proof fn law_time_roundtrip(&self, utc: NaiveTime, local: NaiveTime) {
    }

    proof fn law_datetime_roundtrip(&self, utc: NaiveDateTime, local: NaiveDateTime) {
    }
}

} // verus!

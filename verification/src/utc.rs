//! The canonical zone itself as a backend: zero skew, never ambiguous.

use vstd::prelude::*;
use crate::duration::Duration;
use crate::naive_date::NaiveDate;
use crate::naive_datetime::NaiveDateTime;
use crate::naive_time::NaiveTime;
use crate::offset::{LocalResult, Offset, OffsetState};

verus! {

/// The canonical zone: local and canonical values coincide.
#[derive(Clone, Copy, PartialEq, Eq, Structural, Debug)]
pub struct Utc;

impl OffsetState for Utc {
    open spec fn spec_skew(&self) -> int {
        0
    }

    open spec fn spec_text(&self) -> Seq<char> {
        "Z"@
    }

    fn local_minus_utc(&self) -> (d: Duration) {
        Duration::seconds(0)
    }

    fn text(&self) -> (s: String) {
        String::from_str("Z")
    }
}

impl Offset for Utc {
    type State = Utc;

    open spec fn spec_from_state(state: Utc) -> Utc {
        Utc
    }

    open spec fn spec_local_date(&self, local: NaiveDate) -> LocalResult<Utc> {
        LocalResult::Single(Utc)
    }

    open spec fn spec_local_time(&self, local: NaiveTime) -> LocalResult<Utc> {
        LocalResult::Single(Utc)
    }

    open spec fn spec_local_datetime(&self, local: NaiveDateTime) -> LocalResult<Utc> {
        LocalResult::Single(Utc)
    }

    open spec fn spec_utc_date(&self, utc: NaiveDate) -> Utc {
        Utc
    }

    open spec fn spec_utc_time(&self, utc: NaiveTime) -> Utc {
        Utc
    }

    open spec fn spec_utc_datetime(&self, utc: NaiveDateTime) -> Utc {
        Utc
    }

    fn from_state(state: &Utc) -> (z: Utc) {
        Utc
    }

    fn state_from_local_date(&self, local: &NaiveDate) -> (r: LocalResult<Utc>) {
        LocalResult::Single(Utc)
    }

    fn state_from_local_time(&self, local: &NaiveTime) -> (r: LocalResult<Utc>) {
        LocalResult::Single(Utc)
    }

    fn state_from_local_datetime(&self, local: &NaiveDateTime) -> (r: LocalResult<Utc>) {
        LocalResult::Single(Utc)
    }

    fn state_from_utc_date(&self, utc: &NaiveDate) -> (s: Utc) {
        Utc
    }

    fn state_from_utc_time(&self, utc: &NaiveTime) -> (s: Utc) {
        Utc
    }

    fn state_from_utc_datetime(&self, utc: &NaiveDateTime) -> (s: Utc) {
        Utc
    }

    proof fn law_date_roundtrip(&self, utc: NaiveDate, local: NaiveDate) {
    }

    proof fn law_time_roundtrip(&self, utc: NaiveTime, local: NaiveTime) {
    }

    proof fn law_datetime_roundtrip(&self, utc: NaiveDateTime, local: NaiveDateTime) {
    }
}

} // verus!

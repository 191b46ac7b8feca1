//! Zone-independent wall-clock times of day.

use vstd::prelude::*;
use vstd::arithmetic::div_mod::lemma_mod_multiples_vanish;

verus! {

/// Mathematical model of a time of day: seconds since midnight and a
/// nanosecond fraction. A fraction of `1_000_000_000` or more encodes a leap
/// second inside the stored second.
pub ghost struct TimeView {
    pub secs: int,
    pub frac: int,
}

/// A representable time of day.
pub open spec fn time_valid(v: TimeView) -> bool {
    &&& 0 <= v.secs < 86_400
    &&& 0 <= v.frac < 2_000_000_000
}

/// A zone-independent time of day with nanosecond precision.
#[derive(Clone, Copy, PartialEq, Eq, Structural, Debug)]
pub struct NaiveTime {
    secs: u32,
    frac: u32,
}

impl View for NaiveTime {
    type V = TimeView;

    closed spec fn view(&self) -> TimeView {
        TimeView { secs: self.secs as int, frac: self.frac as int }
    }
}

impl NaiveTime {
    /// The time is representable.
    pub open spec fn wf(self) -> bool {
        time_valid(self@)
    }

    /// Builds a time directly from seconds since midnight and a nanosecond
    /// fraction.
    pub fn from_parts(secs: u32, frac: u32) -> (r: NaiveTime)
        requires
            secs < 86_400,
            frac < 2_000_000_000,
        ensures
            r@.secs == secs as int,
            r@.frac == frac as int,
            r.wf(),
    {
        NaiveTime { secs, frac }
    }

    /// Builds a time from hour, minute and second; `None` when a field is out
    /// of range.
    pub fn from_hms_opt(hour: u32, min: u32, sec: u32) -> (r: Option<NaiveTime>)
        ensures
            match r {
                Some(t) => {
                    &&& hour < 24 && min < 60 && sec < 60
                    &&& t@.secs == hour * 3600 + min * 60 + sec
                    &&& t@.frac == 0
                    &&& t.wf()
                },
                None => !(hour < 24 && min < 60 && sec < 60),
            },
    {
        NaiveTime::from_hms_nano_opt(hour, min, sec, 0)
    }

    /// Builds a time from hour, minute, second and millisecond; the
    /// millisecond may reach 1999 to encode a leap second. `None` when a
    /// field is out of range.
    pub fn from_hms_milli_opt(hour: u32, min: u32, sec: u32, milli: u32) -> (r: Option<NaiveTime>)
        ensures
            match r {
                Some(t) => {
                    &&& hour < 24 && min < 60 && sec < 60 && milli < 2000
                    &&& t@.secs == hour * 3600 + min * 60 + sec
                    &&& t@.frac == milli * 1_000_000
                    &&& t.wf()
                },
                None => !(hour < 24 && min < 60 && sec < 60 && milli < 2000),
            },
    {
        if milli >= 2000 {
            return None;
        }
        NaiveTime::from_hms_nano_opt(hour, min, sec, milli * 1_000_000)
    }

    /// Builds a time from hour, minute, second and microsecond; the
    /// microsecond may reach 1_999_999 to encode a leap second. `None` when a
    /// field is out of range.
    pub fn from_hms_micro_opt(hour: u32, min: u32, sec: u32, micro: u32) -> (r: Option<NaiveTime>)
        ensures
            match r {
                Some(t) => {
                    &&& hour < 24 && min < 60 && sec < 60 && micro < 2_000_000
                    &&& t@.secs == hour * 3600 + min * 60 + sec
                    &&& t@.frac == micro * 1000
                    &&& t.wf()
                },
                None => !(hour < 24 && min < 60 && sec < 60 && micro < 2_000_000),
            },
    {
        if micro >= 2_000_000 {
            return None;
        }
        NaiveTime::from_hms_nano_opt(hour, min, sec, micro * 1000)
    }

    /// Builds a time from hour, minute, second and nanosecond; the nanosecond
    /// may reach 1_999_999_999 to encode a leap second. `None` when a field
    /// is out of range.
    pub fn from_hms_nano_opt(hour: u32, min: u32, sec: u32, nano: u32) -> (r: Option<NaiveTime>)
        ensures
            match r {
                Some(t) => {
                    &&& hour < 24 && min < 60 && sec < 60 && nano < 2_000_000_000
                    &&& t@.secs == hour * 3600 + min * 60 + sec
                    &&& t@.frac == nano as int
                    &&& t.wf()
                },
                None => !(hour < 24 && min < 60 && sec < 60 && nano < 2_000_000_000),
            },
    {
        if hour >= 24 || min >= 60 || sec >= 60 || nano >= 2_000_000_000 {
            return None;
        }
        Some(NaiveTime { secs: hour * 3600 + min * 60 + sec, frac: nano })
    }

    /// The hour of the day.
    pub fn hour(&self) -> (r: u32)
        requires
            self.wf(),
        ensures
            r == self@.secs / 3600,
            r < 24,
    {
        self.secs / 3600
    }

    /// The minute of the hour.
    pub fn minute(&self) -> (r: u32)
        requires
            self.wf(),
        ensures
            r == (self@.secs / 60) % 60,
            r < 60,
    {
        (self.secs / 60) % 60
    }

    /// The second of the minute.
    pub fn second(&self) -> (r: u32)
        requires
            self.wf(),
        ensures
            r == self@.secs % 60,
            r < 60,
    {
        self.secs % 60
    }

    /// The nanosecond fraction, as stored.
    pub fn nanosecond(&self) -> (r: u32)
        ensures
            r == self@.frac,
    {
        self.frac
    }

    /// The seconds since midnight.
    pub fn secs_since_midnight(&self) -> (r: u32)
        ensures
            r == self@.secs,
    {
        self.secs
    }

    /// The same time shifted by `delta` whole seconds, wrapping around
    /// midnight; the nanosecond fraction is kept.
    pub fn shifted_secs(&self, delta: i64) -> (r: NaiveTime)
        requires
            self.wf(),
        ensures
            r@.secs == (self@.secs + delta) % 86_400,
            r@.frac == self@.frac,
            r.wf(),
    {
        let t: i128 = self.secs as i128 + delta as i128;
        let shifted: i128 = t + 86_400 * 200_000_000_000_000;
        let su: u128 = shifted as u128;
        let rem: u128 = su % 86_400;
        proof {
            lemma_mod_multiples_vanish(
                200_000_000_000_000int,
                self@.secs + delta as int,
                86_400int,
            );
        }
        NaiveTime { secs: rem as u32, frac: self.frac }
    }
}

} // verus!

verus! {

/// The time value holding a given model (meaningful on valid models).
pub closed spec fn time_of_view(v: TimeView) -> NaiveTime {
    NaiveTime { secs: v.secs as u32, frac: v.frac as u32 }
}

/// On representable models, `time_of_view` holds exactly that model.
pub proof fn lemma_time_of_view(v: TimeView)
    requires
        time_valid(v),
    ensures
        time_of_view(v)@ == v,
        time_of_view(v).wf(),
{
}

/// Two times with one model are one value.
pub proof fn lemma_time_value_injective(a: NaiveTime, b: NaiveTime)
    requires
        a@ == b@,
    ensures
        a == b,
{
}

} // verus!

verus! {

impl NaiveTime {
    /// The same time shifted backward by `delta` whole seconds, wrapping
    /// around midnight; the nanosecond fraction is kept.
    pub fn shifted_secs_sub(&self, delta: i64) -> (r: NaiveTime)
        requires
            self.wf(),
        ensures
            r@.secs == (self@.secs - delta) % 86_400,
            r@.frac == self@.frac,
            r.wf(),
    {
        let t: i128 = self.secs as i128 - delta as i128;
        let shifted: i128 = t + 86_400 * 200_000_000_000_000;
        let su: u128 = shifted as u128;
        let rem: u128 = su % 86_400;
        proof {
            lemma_mod_multiples_vanish(
                200_000_000_000_000int,
                self@.secs - delta as int,
                86_400int,
            );
        }
        NaiveTime { secs: rem as u32, frac: self.frac }
    }
}

} // verus!

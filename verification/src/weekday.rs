//! Days of the week.

use vstd::prelude::*;

verus! {

/// A day of the week, Monday first.
#[derive(Clone, Copy, PartialEq, Eq, Structural, Debug)]
pub enum Weekday {
    /// Monday.
    Mon,
    /// Tuesday.
    Tue,
    /// Wednesday.
    Wed,
    /// Thursday.
    Thu,
    /// Friday.
    Fri,
    /// Saturday.
    Sat,
    /// Sunday.
    Sun,
}

/// Days since Monday, 0 to 6.
pub open spec fn spec_days_from_monday(w: Weekday) -> int {
    match w {
        Weekday::Mon => 0,
        Weekday::Tue => 1,
        Weekday::Wed => 2,
        Weekday::Thu => 3,
        Weekday::Fri => 4,
        Weekday::Sat => 5,
        Weekday::Sun => 6,
    }
}

/// The weekday `n` days after a Monday, for `0 <= n < 7`.
pub open spec fn weekday_from_monday_count(n: int) -> Weekday {
    if n == 0 {
        Weekday::Mon
    } else if n == 1 {
        Weekday::Tue
    } else if n == 2 {
        Weekday::Wed
    } else if n == 3 {
        Weekday::Thu
    } else if n == 4 {
        Weekday::Fri
    } else if n == 5 {
        Weekday::Sat
    } else {
        Weekday::Sun
    }
}

impl Weekday {
    /// Days since Monday, 0 to 6.
    pub fn num_days_from_monday(&self) -> (r: u32)
        ensures
            r == spec_days_from_monday(*self),
            r < 7,
    {
        match self {
            Weekday::Mon => 0,
            Weekday::Tue => 1,
            Weekday::Wed => 2,
            Weekday::Thu => 3,
            Weekday::Fri => 4,
            Weekday::Sat => 5,
            Weekday::Sun => 6,
        }
    }

    /// The day's one-based number, Monday being 1.
    pub fn number_from_monday(&self) -> (r: u32)
        ensures
            r == spec_days_from_monday(*self) + 1,
    {
        self.num_days_from_monday() + 1
    }
}

/// The weekday `n` days after a Monday.
pub fn weekday_from_monday_count_exec(n: u32) -> (r: Weekday)
    requires
        n < 7,
    ensures
        r == weekday_from_monday_count(n as int),
{
    if n == 0 {
        Weekday::Mon
    } else if n == 1 {
        Weekday::Tue
    } else if n == 2 {
        Weekday::Wed
    } else if n == 3 {
        Weekday::Thu
    } else if n == 4 {
        Weekday::Fri
    } else if n == 5 {
        Weekday::Sat
    } else {
        Weekday::Sun
    }
}

} // verus!

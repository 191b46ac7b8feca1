//! Signed spans of time with nanosecond precision.

use vstd::prelude::*;
use vstd::arithmetic::div_mod::lemma_multiply_divide_lt;

verus! {

/// Nanoseconds in one second.
pub const NANOS_PER_SEC: u32 = 1_000_000_000;
/// Seconds in one calendar day.
pub const SECS_PER_DAY: u32 = 86_400;
/// Nanoseconds in one calendar day.
pub const NANOS_PER_DAY: u64 = 86_400_000_000_000;

/// Integer division truncated toward zero (`d` positive).
pub open spec fn trunc_div(a: int, d: int) -> int {
    if a >= 0 {
        a / d
    } else {
        -((-a) / d)
    }
}

/// Whole days contained in a span of `nanos` nanoseconds, truncated toward zero.
pub open spec fn whole_days_of(nanos: int) -> int {
    trunc_div(nanos, 86_400_000_000_000)
}

/// Whole seconds contained in a span of `nanos` nanoseconds, truncated toward zero.
pub open spec fn whole_secs_of(nanos: int) -> int {
    trunc_div(nanos, 1_000_000_000)
}

/// A signed span of time. The span it denotes, in nanoseconds, is
/// `secs * 1_000_000_000 + nanos`; the sub-second part `nanos` is always
/// non-negative, so `-1` nanosecond is held as `secs == -1, nanos == 999_999_999`.
#[derive(Clone, Copy, PartialEq, Eq, Structural, Debug)]
pub struct Duration {
    secs: i64,
    nanos: u32,
}

impl View for Duration {
    type V = int;

    closed spec fn view(&self) -> int {
        self.secs * 1_000_000_000 + self.nanos
    }
}

impl Duration {
    /// The sub-second part is in its reduced form.
    pub closed spec fn wf(self) -> bool {
        self.nanos < 1_000_000_000
    }

    /// A span of `secs` whole seconds and `nanos` further nanoseconds.
    pub fn new(secs: i64, nanos: u32) -> (d: Duration)
        requires
            nanos < 1_000_000_000,
        ensures
            d@ == secs * 1_000_000_000 + nanos,
            d.wf(),
    {
        Duration { secs, nanos }
    }

    /// A span of `s` whole seconds.
    pub fn seconds(s: i64) -> (d: Duration)
        ensures
            d@ == s * 1_000_000_000,
            d.wf(),
    {
        Duration { secs: s, nanos: 0 }
    }

    /// A span of `n` whole days.
    pub fn days(n: i64) -> (d: Duration)
        requires
            -100_000_000_000 <= n <= 100_000_000_000,
        ensures
            d@ == n * 86_400_000_000_000,
            d.wf(),
    {
        Duration { secs: n * 86_400, nanos: 0 }
    }

    /// The additive inverse of this span.
    pub fn neg(&self) -> (d: Duration)
        requires
            self.wf(),
            self@ != i64::MIN * 1_000_000_000,
        ensures
            d@ == -self@,
            d.wf(),
    {
        if self.nanos == 0 {
            Duration { secs: -self.secs, nanos: 0 }
        } else {
            Duration { secs: -1 - self.secs, nanos: 1_000_000_000 - self.nanos }
        }
    }

    /// Whole days in this span, truncated toward zero.
    pub fn num_days(&self) -> (r: i64)
        requires
            self.wf(),
        ensures
            r == whole_days_of(self@),
            -200_000_000_000_000 <= r <= 200_000_000_000_000,
    {
        let v: i128 = (self.secs as i128) * 1_000_000_000 + (self.nanos as i128);
        assert(v == self@);
        proof {
            if v >= 0 {
                lemma_multiply_divide_lt(v as int, 86_400_000_000_000, 200_000_000_000_000);
            } else {
                lemma_multiply_divide_lt(-(v as int), 86_400_000_000_000, 200_000_000_000_000);
            }
        }
        trunc_div_i128(v, 86_400_000_000_000)
    }

    /// Whole seconds in this span, truncated toward zero.
    pub fn num_seconds(&self) -> (r: i64)
        requires
            self.wf(),
        ensures
            r == whole_secs_of(self@),
    {
        let v: i128 = (self.secs as i128) * 1_000_000_000 + (self.nanos as i128);
        assert(v == self@);
        proof {
            let half: int = 0x8000_0000_0000_0000;
            if v >= 0 {
                lemma_multiply_divide_lt(v as int, 1_000_000_000, half);
            } else {
                lemma_multiply_divide_lt(-(v as int), 1_000_000_000, half + 1);
            }
        }
        trunc_div_i128(v, 1_000_000_000)
    }

    /// The sub-second part of the span, counted up from the stored whole seconds.
    pub fn subsec_nanos(&self) -> (r: u32)
        ensures
            r == self@ - self.spec_secs() * 1_000_000_000,
    {
        self.nanos
    }

    /// The stored whole-second part (the span is `secs * 1e9 + nanos`).
    pub closed spec fn spec_secs(&self) -> int {
        self.secs as int
    }

    /// The stored whole-second part.
    pub fn secs_part(&self) -> (r: i64)
        ensures
            r == self.spec_secs(),
    {
        self.secs
    }
}

/// Division of `v` by `d`, truncated toward zero.
fn trunc_div_i128(v: i128, d: u64) -> (r: i64)
    requires
        1 <= d <= 100_000_000_000_000,
        -(0x8000_0000_0000_0000_0000_0000int) <= v <= 0x8000_0000_0000_0000_0000_0000int,
        trunc_div(v as int, d as int) <= i64::MAX,
        trunc_div(v as int, d as int) >= i64::MIN,
    ensures
        r == trunc_div(v as int, d as int),
{
    if v >= 0 {
        let q: u128 = (v as u128) / (d as u128);
        q as i64
    } else {
        let q: u128 = ((-v) as u128) / (d as u128);
        if q == 0x8000_0000_0000_0000u128 {
            i64::MIN
        } else {
            -(q as i64)
        }
    }
}

} // verus!

verus! {

/// A span of whole days holds exactly those days.
pub proof fn lemma_whole_days_exact(d: int)
    ensures
        whole_days_of(d * 86_400_000_000_000) == d,
{
    if d >= 0 {
        vstd::arithmetic::div_mod::lemma_div_multiples_vanish(d, 86_400_000_000_000int);
        assert(86_400_000_000_000int * d == d * 86_400_000_000_000);
    } else {
        vstd::arithmetic::div_mod::lemma_div_multiples_vanish(-d, 86_400_000_000_000int);
        assert(86_400_000_000_000int * -d == -(d * 86_400_000_000_000));
    }
}

/// A span of whole days holds exactly the matching seconds.
pub proof fn lemma_whole_secs_of_days(d: int)
    ensures
        whole_secs_of(d * 86_400_000_000_000) == d * 86_400,
{
    if d >= 0 {
        vstd::arithmetic::div_mod::lemma_div_multiples_vanish(d * 86_400, 1_000_000_000int);
        assert(1_000_000_000int * (d * 86_400) == d * 86_400_000_000_000) by (nonlinear_arith);
    } else {
        vstd::arithmetic::div_mod::lemma_div_multiples_vanish(-(d * 86_400), 1_000_000_000int);
        assert(1_000_000_000int * -(d * 86_400) == -(d * 86_400_000_000_000))
            by (nonlinear_arith);
    }
}

} // verus!

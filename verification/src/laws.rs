//! The protocol-wide laws, proved once for every backend from the trait
//! contract.

use vstd::prelude::*;
use vstd::arithmetic::div_mod::{
    lemma_fundamental_div_mod, lemma_mod_multiples_vanish, lemma_small_mod,
};
use crate::date::{spec_date_from_local, spec_date_minus_skew, spec_map_local, Date};
use crate::datetime::{spec_datetime_from_local, DateTime};
use crate::duration::{whole_days_of, whole_secs_of};
use crate::naive_date::{
    date_of_view, day_index, lemma_date_of_view, lemma_date_value_injective, lemma_index_bounds,
    lemma_index_roundtrip, max_day_index, min_day_index, pred_view, succ_view, DateView, NaiveDate,
};
use crate::naive_datetime::{
    datetime_of_nanos, dt_index_nanos, lemma_datetime_of_nanos, lemma_dt_index_injective,
    NaiveDateTime,
};
use crate::naive_time::{lemma_time_of_view, lemma_time_value_injective, NaiveTime, TimeView};
use crate::offset::{lr_contains, LocalResult, Offset, OffsetState};
use crate::time::{spec_time_from_local, spec_time_minus_skew, Time};

verus! {

/// Canonical round trip for dates: take any backend and canonical date
/// `utc`; let `local` be its local view (the canonical date moved by the
/// resolved state's whole-day skew). Provided every candidate of resolving
/// `local` stays representable, the resolution contains the zoned date whose
/// canonical date is exactly `utc`, under the very state that was resolved.
pub proof fn canonical_round_trip_date<Off: Offset>(z: Off, utc: NaiveDate, local: NaiveDate)
    requires
        utc.wf(),
        local.wf(),
        day_index(local@) == day_index(utc@) + whole_days_of(z.spec_utc_date(utc).spec_skew()),
        forall|s2: Off::State|
            lr_contains(z.spec_local_date(local), s2) ==> min_day_index() <= day_index(local@)
                - whole_days_of(s2.spec_skew()) <= max_day_index(),
    ensures
        lr_contains(
            spec_date_from_local(z, local),
            Date { date: utc, offset: z.spec_utc_date(utc) },
        ),
{
    let s = z.spec_utc_date(utc);
    z.law_date_roundtrip(utc, local);
    lemma_index_bounds(utc@);
    assert(spec_date_minus_skew(local, s.spec_skew()) == Some(utc)) by {
        lemma_index_roundtrip(utc@);
        lemma_date_of_view(utc@);
        lemma_date_value_injective(date_of_view(utc@), utc);
    }
    match z.spec_local_date(local) {
        LocalResult::NoValue => {},
        LocalResult::Single(s1) => {},
        LocalResult::Ambiguous(s1, s2) => {
            assert(lr_contains(z.spec_local_date(local), s1));
            assert(lr_contains(z.spec_local_date(local), s2));
            lemma_minus_skew_some(local, s1.spec_skew());
            lemma_minus_skew_some(local, s2.spec_skew());
        },
    }
}

/// A local date whose shifted position stays representable always resolves
/// to some canonical date.
proof fn lemma_minus_skew_some(local: NaiveDate, skew: int)
    requires
        min_day_index() <= day_index(local@) - whole_days_of(skew) <= max_day_index(),
    ensures
        spec_date_minus_skew(local, skew) is Some,
{
}

/// Canonical round trip for times of day: the local view of a canonical
/// time (shifted by the resolved skew's whole seconds around midnight)
/// resolves to an outcome containing the zoned time whose canonical time is
/// exactly `utc`, under the very state that was resolved.
pub proof fn canonical_round_trip_time<Off: Offset>(z: Off, utc: NaiveTime, local: NaiveTime)
    requires
        utc.wf(),
        local.wf(),
        local@.secs == (utc@.secs + whole_secs_of(z.spec_utc_time(utc).spec_skew())) % 86_400,
        local@.frac == utc@.frac,
    ensures
        lr_contains(
            spec_time_from_local(z, local),
            Time { time: utc, offset: z.spec_utc_time(utc) },
        ),
{
    let s = z.spec_utc_time(utc);
    z.law_time_roundtrip(utc, local);
    let k = whole_secs_of(s.spec_skew());
    assert(spec_time_minus_skew(local, s.spec_skew()) == utc) by {
        let a = utc@.secs + k;
        lemma_fundamental_div_mod(a, 86_400int);
        lemma_mod_multiples_vanish(-(a / 86_400), a - k, 86_400int);
        lemma_small_mod(utc@.secs as nat, 86_400nat);
        assert(local@.secs - k == a - k - 86_400 * (a / 86_400));
        assert((local@.secs - k) % 86_400 == utc@.secs);
        lemma_time_of_view(TimeView { secs: utc@.secs, frac: utc@.frac });
        lemma_time_value_injective(
            crate::naive_time::time_of_view(TimeView { secs: utc@.secs, frac: utc@.frac }),
            utc,
        );
    }
}

/// Canonical round trip for date-times: the local view of a canonical
/// date-time resolves to an outcome containing the zoned date-time whose
/// canonical value is exactly `utc`, under the very state that was resolved.
/// The law is stated for canonical instants in reduced form: one carrying a
/// leap-second fraction is re-resolved only up to its position on the
/// nanosecond line.
pub proof fn canonical_round_trip_datetime<Off: Offset>(
    z: Off,
    utc: NaiveDateTime,
    local: NaiveDateTime,
)
    requires
        utc.wf(),
        local.wf(),
        utc@.time.frac < 1_000_000_000,
        local@.time.frac < 1_000_000_000,
        dt_index_nanos(local@) == dt_index_nanos(utc@) + z.spec_utc_datetime(utc).spec_skew(),
        forall|s2: Off::State|
            lr_contains(z.spec_local_datetime(local), s2) ==> min_day_index() <= (dt_index_nanos(
                local@,
            ) - s2.spec_skew()) / 86_400_000_000_000 <= max_day_index(),
    ensures
        lr_contains(
            spec_datetime_from_local(z, local),
            DateTime { datetime: utc, offset: z.spec_utc_datetime(utc) },
        ),
{
    let s = z.spec_utc_datetime(utc);
    z.law_datetime_roundtrip(utc, local);
    let t = dt_index_nanos(utc@);
    assert(min_day_index() <= t / 86_400_000_000_000 <= max_day_index()) by {
        lemma_index_bounds(utc@.date);
        vstd::arithmetic::div_mod::lemma_fundamental_div_mod_converse_div(
            t,
            86_400_000_000_000int,
            day_index(utc@.date),
            utc@.time.secs * 1_000_000_000 + utc@.time.frac,
        );
    }
    lemma_datetime_of_nanos(t);
    lemma_dt_index_injective(datetime_of_nanos(t), utc);
    match z.spec_local_datetime(local) {
        LocalResult::NoValue => {},
        LocalResult::Single(s1) => {},
        LocalResult::Ambiguous(s1, s2) => {
            assert(lr_contains(z.spec_local_datetime(local), s1));
            assert(lr_contains(z.spec_local_datetime(local), s2));
        },
    }
}

/// One day forward then one day back is the identity on any representable
/// date, and likewise one day back then one day forward; the checked steps
/// refuse only the extreme dates (their own contracts say so).
pub proof fn succ_pred_inverse(v: DateView)
    requires
        1 <= v.ordinal <= crate::naive_date::days_in_year(v.year),
    ensures
        pred_view(succ_view(v)) == v,
        succ_view(pred_view(v)) == v,
{
}

/// The zoned form of the step-inverse law: any results of stepping a zoned
/// date forward and then back (as `succ_opt` and `pred_opt` describe them)
/// are the original value.
pub proof fn succ_pred_inverse_zoned<Off: Offset>(d: Date<Off>, s: Date<Off>, p: Date<Off>)
    requires
        d.wf(),
        s.wf(),
        p.wf(),
        s.date@ == succ_view(d.date@),
        s.offset == d.offset,
        p.date@ == pred_view(s.date@),
        p.offset == s.offset,
    ensures
        p == d,
{
    succ_pred_inverse(d.date@);
    lemma_date_value_injective(p.date, d.date);
}

/// Mutating a field to a local date that the owning backend does not
/// resolve uniquely (a gap, a fold, or an out-of-range candidate) yields no
/// value, never a best-effort guess.
pub proof fn mutation_collapse<Off: Offset>(d: Date<Off>, l: NaiveDate)
    requires
        !(spec_date_from_local(Off::spec_from_state(d.offset), l) matches LocalResult::Single(_)),
    ensures
        spec_map_local(d, Some(l)) is None,
{
}

} // verus!

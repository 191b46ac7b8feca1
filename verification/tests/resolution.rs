use zoned::duration::Duration;
use zoned::fixed::FixedOffset;
use zoned::naive_date::NaiveDate;
use zoned::naive_datetime::NaiveDateTime;
use zoned::naive_time::NaiveTime;
use zoned::offset::{LocalResult, OffsetExt, OffsetState};
use zoned::transition::DayTransition;
use zoned::utc::Utc;

#[test]
fn test_local_result_algebra() {
    assert_eq!(LocalResult::<u32>::Single(7).single(), Some(7));
    assert_eq!(LocalResult::<u32>::NoValue.single(), None);
    assert_eq!(LocalResult::<u32>::Ambiguous(3, 5).single(), None);
    assert_eq!(LocalResult::<u32>::Single(7).earliest(), Some(7));
    assert_eq!(LocalResult::<u32>::Single(7).latest(), Some(7));
    assert_eq!(LocalResult::<u32>::Ambiguous(3, 5).earliest(), Some(3));
    assert_eq!(LocalResult::<u32>::Ambiguous(3, 5).latest(), Some(5));
    assert_eq!(LocalResult::<u32>::NoValue.earliest(), None);
    assert_eq!(LocalResult::<u32>::NoValue.latest(), None);
    assert_eq!(LocalResult::<u32>::Single(7).unwrap(), 7);
}

#[test]
fn test_local_result_map_keeps_shape() {
    let double = |x: u32| x * 2;
    assert_eq!(LocalResult::<u32>::NoValue.map(double), LocalResult::NoValue);
    assert_eq!(LocalResult::Single(4u32).map(double), LocalResult::Single(8));
    assert_eq!(LocalResult::Ambiguous(1u32, 2u32).map(double), LocalResult::Ambiguous(2, 4));
}

#[test]
fn test_gap_resolution() {
    // Clocks skip one local day at the cutover: the cutover's local date
    // does not exist.
    let cut = NaiveDate::from_ymd_opt(2020, 1, 10).unwrap();
    let zone = DayTransition::new(&cut, 0, 1);
    assert!(matches!(zone.ymd_opt(2020, 1, 10), LocalResult::NoValue));
    assert!(matches!(zone.ymd_opt(2020, 1, 9), LocalResult::Single(_)));
    assert!(matches!(zone.ymd_opt(2020, 1, 11), LocalResult::Single(_)));
}

#[test]
fn test_fold_resolution() {
    // Clocks repeat one local day at the cutover: the cutover's local date
    // has two canonical candidates, earliest first.
    let cut = NaiveDate::from_ymd_opt(2020, 1, 10).unwrap();
    let zone = DayTransition::new(&cut, 1, 0);
    match zone.ymd_opt(2020, 1, 10) {
        LocalResult::Ambiguous(a, b) => {
            assert_eq!(a.naive_utc(), NaiveDate::from_ymd_opt(2020, 1, 9).unwrap());
            assert_eq!(b.naive_utc(), NaiveDate::from_ymd_opt(2020, 1, 10).unwrap());
            assert!(!a.eq(&b));
        },
        _ => panic!("expected a fold"),
    }
    let earliest = zone.ymd_opt(2020, 1, 10).earliest().unwrap();
    let latest = zone.ymd_opt(2020, 1, 10).latest().unwrap();
    assert_eq!(earliest.offset().local_minus_utc().num_days(), 1);
    assert_eq!(latest.offset().local_minus_utc().num_days(), 0);
}

#[test]
fn test_field_mutation_failure() {
    // A calendar-valid mutation landing in a gap yields no value.
    let cut = NaiveDate::from_ymd_opt(2020, 1, 10).unwrap();
    let gap_zone = DayTransition::new(&cut, 0, 1);
    let d = gap_zone.ymd(2020, 1, 5);
    assert!(d.with_day(10).is_none());
    assert!(d.with_day(9).is_some());
    // A calendar-valid mutation landing in a fold also yields no value.
    let fold_zone = DayTransition::new(&cut, 1, 0);
    let e = fold_zone.ymd(2020, 1, 5);
    assert!(e.with_day(10).is_none());
    assert!(e.with_day(11).is_some());
}

#[test]
fn test_canonical_round_trip() {
    // Resolving a canonical date to local and back through the same backend
    // reproduces it, on both sides of a cutover.
    let cut = NaiveDate::from_ymd_opt(2020, 1, 10).unwrap();
    for zone in [DayTransition::new(&cut, 1, 0), DayTransition::new(&cut, 0, 1)] {
        for day in [8u32, 9, 10, 11] {
            let c = NaiveDate::from_ymd_opt(2020, 1, day).unwrap();
            let zoned_day = zone.from_utc_date(&c);
            let local = zoned_day.naive_local();
            let mut found = false;
            for candidate in [
                zone.from_local_date(&local).earliest(),
                zone.from_local_date(&local).latest(),
            ] {
                if let Some(back) = candidate {
                    if back.naive_utc() == c {
                        found = true;
                    }
                }
            }
            assert!(found);
        }
    }
}

#[test]
fn test_and_time_collapses_ambiguity() {
    let cut = NaiveDate::from_ymd_opt(2020, 1, 10).unwrap();
    let fold_zone = DayTransition::new(&cut, 1, 0);
    let t = NaiveTime::from_hms_opt(12, 0, 0).unwrap();
    // A fold at the date level collapses to nothing when chained.
    assert!(matches!(
        fold_zone.ymd_opt(2020, 1, 10).and_time(t),
        LocalResult::NoValue
    ));
    // A unique date chains to a unique date-time.
    assert!(matches!(
        fold_zone.ymd_opt(2020, 1, 5).and_time(t),
        LocalResult::Single(_)
    ));
    assert!(matches!(
        fold_zone.ymd_opt(2020, 1, 5).and_hms_opt(25, 0, 0),
        LocalResult::NoValue
    ));
    assert!(matches!(
        fold_zone.ymd_opt(2020, 1, 5).and_hms_opt(23, 59, 59),
        LocalResult::Single(_)
    ));
}

#[test]
fn test_hms_constructors() {
    let t = Utc.hms(1, 2, 3);
    assert_eq!(t.naive_utc(), NaiveTime::from_hms_opt(1, 2, 3).unwrap());
    assert!(matches!(Utc.hms_opt(24, 0, 0), LocalResult::NoValue));
    assert!(matches!(Utc.hms_opt(0, 60, 0), LocalResult::NoValue));
    assert!(matches!(Utc.hms_opt(0, 0, 60), LocalResult::NoValue));
    // Leap-second encodings are accepted up to one unit past the modulus.
    assert!(matches!(Utc.hms_milli_opt(23, 59, 59, 1999), LocalResult::Single(_)));
    assert!(matches!(Utc.hms_milli_opt(23, 59, 59, 2000), LocalResult::NoValue));
    assert!(matches!(Utc.hms_micro_opt(0, 0, 0, 1_999_999), LocalResult::Single(_)));
    assert!(matches!(Utc.hms_micro_opt(0, 0, 0, 2_000_000), LocalResult::NoValue));
    assert!(matches!(Utc.hms_nano_opt(0, 0, 0, 1_999_999_999), LocalResult::Single(_)));
    assert!(matches!(Utc.hms_nano_opt(0, 0, 0, 2_000_000_000), LocalResult::NoValue));
}

#[test]
fn test_zoned_time_local_view() {
    let east = FixedOffset::east_opt(2 * 3600).unwrap();
    match east.hms_opt(1, 30, 0) {
        LocalResult::Single(t) => {
            // Canonical time wraps backward around midnight.
            assert_eq!(t.naive_utc(), NaiveTime::from_hms_opt(23, 30, 0).unwrap());
            assert_eq!(t.naive_local(), NaiveTime::from_hms_opt(1, 30, 0).unwrap());
        },
        _ => panic!("fixed zones resolve uniquely"),
    }
}

#[test]
fn test_leap_second_normalized_through_resolution() {
    // A leap-second encoding is accepted at construction; date-time
    // resolution renormalizes the fraction below one second.
    let tz = FixedOffset::east_opt(0).unwrap();
    let dt = tz.ymd(2016, 12, 31).and_hms_milli(23, 59, 59, 1500);
    assert_eq!(dt.debug_string(), "2017-01-01T00:00:00.500000000+00:00".to_string());
}

#[test]
fn test_datetime_arithmetic_and_difference() {
    let a = NaiveDateTime::new(
        NaiveDate::from_ymd_opt(2020, 1, 1).unwrap(),
        NaiveTime::from_hms_opt(23, 0, 0).unwrap(),
    );
    let b = a.checked_add_signed(&Duration::seconds(7200)).unwrap();
    assert_eq!(b.date(), NaiveDate::from_ymd_opt(2020, 1, 2).unwrap());
    assert_eq!(b.time(), NaiveTime::from_hms_opt(1, 0, 0).unwrap());
    let back = b.checked_sub_signed(&Duration::seconds(7200)).unwrap();
    assert_eq!(back, a);
    let utc_dt = Utc.from_utc_datetime(&a);
    let later = Utc.from_utc_datetime(&b);
    assert_eq!(later.signed_duration_since(&utc_dt).num_seconds(), 7200);
    assert!(utc_dt.eq(&utc_dt));
    assert!(!utc_dt.eq(&later));
}

#[test]
fn test_duration_truncation() {
    assert_eq!(Duration::seconds(-90_000).num_days(), -1);
    assert_eq!(Duration::seconds(90_000).num_days(), 1);
    assert_eq!(Duration::seconds(-3600).num_days(), 0);
    assert_eq!(Duration::days(2).num_days(), 2);
    assert_eq!(Duration::new(-1, 999_999_999).num_seconds(), 0);
    assert_eq!(Duration::seconds(5).neg().num_seconds(), -5);
}

#[test]
fn test_offset_state_text() {
    let east = FixedOffset::east_opt(365 * 86_400 - 1).unwrap();
    // Seconds below a minute do not show in the offset text.
    assert_eq!(east.text(), "+8759:59".to_string());
    let west = FixedOffset::west_opt(3600).unwrap();
    assert_eq!(west.text(), "-01:00".to_string());
    assert_eq!(Utc.text(), "Z".to_string());
}

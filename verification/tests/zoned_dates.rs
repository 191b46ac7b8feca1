use core::cmp::Ordering;
use zoned::duration::Duration;
use zoned::fixed::FixedOffset;
use zoned::naive_date::NaiveDate;
use zoned::offset::{LocalResult, OffsetExt};
use zoned::utc::Utc;
use zoned::weekday::Weekday;

#[test]
fn test_date_weird_offset() {
    // A zone 365 days east of canonical time, displayed as "+8760:00".
    let tz = FixedOffset::east_opt(365 * 86_400).unwrap();
    assert_eq!(tz.ymd(2012, 2, 29).debug_string(), "2012-02-29+8760:00".to_string());
    assert_eq!(
        tz.ymd(2012, 2, 29).and_hms(5, 6, 7).debug_string(),
        "2012-02-29T05:06:07+8760:00".to_string()
    );
    assert_eq!(tz.ymd(2012, 3, 4).debug_string(), "2012-03-04+8760:00".to_string());
    assert_eq!(
        tz.ymd(2012, 3, 4).and_hms(5, 6, 7).debug_string(),
        "2012-03-04T05:06:07+8760:00".to_string()
    );
}

#[test]
fn test_utc_debug_strings() {
    let d = Utc.ymd(2020, 1, 2);
    assert_eq!(d.debug_string(), "2020-01-02Z".to_string());
    assert_eq!(d.and_hms(3, 4, 5).debug_string(), "2020-01-02T03:04:05Z".to_string());
    let neg = Utc.ymd(-99, 12, 31);
    assert_eq!(neg.debug_string(), "-0099-12-31Z".to_string());
}

#[test]
fn test_fixed_offset_texts() {
    let east = FixedOffset::east_opt(3600).unwrap();
    assert_eq!(east.ymd(2021, 6, 1).debug_string(), "2021-06-01+01:00".to_string());
    let west = FixedOffset::west_opt(5 * 3600 + 30 * 60).unwrap();
    assert_eq!(west.ymd(2021, 6, 1).debug_string(), "2021-06-01-05:30".to_string());
}

#[test]
fn test_fractional_second_rendering() {
    let tz = FixedOffset::east_opt(0).unwrap();
    let dt = tz.ymd(2000, 1, 1).and_hms_milli(1, 2, 3, 500);
    assert_eq!(dt.debug_string(), "2000-01-01T01:02:03.500000000+00:00".to_string());
}

#[test]
fn test_cross_zone_equality() {
    // The same canonical date viewed under three backends is one date.
    let tz = FixedOffset::east_opt(365 * 86_400).unwrap();
    let d = tz.ymd(2012, 2, 29);
    let c = d.naive_utc();
    let under_utc = Utc.from_utc_date(&c);
    assert!(d.eq(&under_utc));
    assert!(under_utc.eq(&d));
    // Displayed local fields differ even though the dates are equal.
    assert_eq!(d.year(), 2012);
    assert_eq!(under_utc.year(), 2011);
    // A different canonical date is unequal.
    assert!(!d.eq(&Utc.ymd(2012, 2, 29)));
}

#[test]
fn test_with_timezone_keeps_instant() {
    let tz = FixedOffset::east_opt(365 * 86_400).unwrap();
    let d = tz.ymd(2012, 3, 4);
    let moved = d.with_timezone(&Utc);
    assert_eq!(moved.naive_utc(), d.naive_utc());
    let back = moved.with_timezone(&tz);
    assert_eq!(back.naive_utc(), d.naive_utc());
    assert_eq!(back.debug_string(), d.debug_string());
}

#[test]
fn test_succ_pred_inverse() {
    let d = Utc.ymd(2019, 12, 31);
    let fwd = d.succ_opt().unwrap();
    assert_eq!(fwd.debug_string(), "2020-01-01Z".to_string());
    assert_eq!(fwd.pred_opt().unwrap().naive_utc(), d.naive_utc());
    let e = Utc.ymd(2020, 3, 1);
    assert_eq!(e.pred_opt().unwrap().debug_string(), "2020-02-29Z".to_string());
    assert_eq!(e.pred_opt().unwrap().succ_opt().unwrap().naive_utc(), e.naive_utc());
    assert_eq!(e.pred().succ().naive_utc(), e.naive_utc());
}

#[test]
fn test_succ_pred_at_bounds() {
    let last = Utc.ymd(262143, 12, 31);
    assert!(last.succ_opt().is_none());
    let first = Utc.ymd(-262144, 1, 1);
    assert!(first.pred_opt().is_none());
}

#[test]
fn test_ymd_opt_calendar_validation() {
    assert!(matches!(Utc.ymd_opt(2019, 2, 29), LocalResult::NoValue));
    assert!(matches!(Utc.ymd_opt(2020, 2, 29), LocalResult::Single(_)));
    assert!(matches!(Utc.ymd_opt(2020, 4, 31), LocalResult::NoValue));
    assert!(matches!(Utc.ymd_opt(2020, 0, 10), LocalResult::NoValue));
    assert!(matches!(Utc.ymd_opt(2020, 13, 10), LocalResult::NoValue));
    assert!(matches!(Utc.ymd_opt(300000, 1, 1), LocalResult::NoValue));
}

#[test]
fn test_yo_opt() {
    let d = Utc.yo(2020, 366).debug_string();
    assert_eq!(d, "2020-12-31Z".to_string());
    assert!(matches!(Utc.yo_opt(2019, 366), LocalResult::NoValue));
    assert!(matches!(Utc.yo_opt(2019, 0), LocalResult::NoValue));
}

#[test]
fn test_field_accessors() {
    let d = Utc.ymd(2020, 2, 29);
    assert_eq!(d.year(), 2020);
    assert_eq!(d.month(), 2);
    assert_eq!(d.month0(), 1);
    assert_eq!(d.day(), 29);
    assert_eq!(d.day0(), 28);
    assert_eq!(d.ordinal(), 60);
    assert_eq!(d.ordinal0(), 59);
}

#[test]
fn test_with_fields() {
    let d = Utc.ymd(2020, 2, 29);
    assert!(d.with_year(2019).is_none());
    assert_eq!(d.with_year(2024).unwrap().debug_string(), "2024-02-29Z".to_string());
    assert_eq!(d.with_month(3).unwrap().debug_string(), "2020-03-29Z".to_string());
    assert!(d.with_month(4).unwrap().day() == 29);
    assert!(Utc.ymd(2020, 1, 31).with_month(2).is_none());
    assert_eq!(d.with_day(1).unwrap().debug_string(), "2020-02-01Z".to_string());
    assert!(d.with_day(30).is_none());
    assert_eq!(d.with_ordinal(366).unwrap().debug_string(), "2020-12-31Z".to_string());
    assert!(d.with_ordinal(367).is_none());
    assert_eq!(d.with_month0(2).unwrap().month(), 3);
    assert_eq!(d.with_day0(0).unwrap().day(), 1);
    assert_eq!(d.with_ordinal0(0).unwrap().ordinal(), 1);
}

#[test]
fn test_naive_date_arithmetic() {
    let d = NaiveDate::from_ymd_opt(2019, 12, 30).unwrap();
    let e = d.checked_add_days(3).unwrap();
    assert_eq!(e.year(), 2020);
    assert_eq!(e.month(), 1);
    assert_eq!(e.day(), 2);
    assert_eq!(e.checked_add_days(-3).unwrap(), d);
    assert!(d.checked_add_days(1_000_000_000).is_none());
    assert!(d.checked_add_days(-1_000_000_000).is_none());
}

#[test]
fn test_zoned_date_duration_arithmetic() {
    let d = Utc.ymd(2020, 1, 1);
    let later = d.checked_add_signed(&Duration::days(31)).unwrap();
    assert_eq!(later.debug_string(), "2020-02-01Z".to_string());
    let diff = later.signed_duration_since(&d);
    assert_eq!(diff.num_days(), 31);
    let back = later.checked_sub_signed(&Duration::days(31)).unwrap();
    assert_eq!(back.naive_utc(), d.naive_utc());
    // Sub-day spans do not move a date.
    let same = d.checked_add_signed(&Duration::seconds(3600)).unwrap();
    assert_eq!(same.naive_utc(), d.naive_utc());
}

#[test]
fn test_weekday() {
    assert_eq!(Utc.ymd(1970, 1, 1).weekday(), Weekday::Thu);
    assert_eq!(Utc.ymd(2020, 1, 1).weekday(), Weekday::Wed);
    assert_eq!(Utc.ymd(2020, 1, 1).weekday().number_from_monday(), 3);
    // A day-scale skew moves the displayed weekday.
    let tz = FixedOffset::east_opt(86_400 - 1).unwrap();
    assert_eq!(tz.ymd(2020, 1, 1).weekday(), Weekday::Wed);
}

#[test]
fn test_isoweekdate() {
    assert_eq!(Utc.ymd(2020, 1, 1).isoweekdate(), (2020, 1, Weekday::Wed));
    assert_eq!(Utc.ymd(2021, 1, 1).isoweekdate(), (2020, 53, Weekday::Fri));
    assert_eq!(Utc.ymd(2019, 12, 30).isoweekdate(), (2020, 1, Weekday::Mon));
    assert_eq!(Utc.ymd(2016, 12, 31).isoweekdate(), (2016, 52, Weekday::Sat));
}

#[test]
fn test_isoywd() {
    let d = Utc.isoywd(2020, 53, Weekday::Fri);
    assert_eq!(d.debug_string(), "2021-01-01Z".to_string());
    let e = Utc.isoywd(2020, 1, Weekday::Mon);
    assert_eq!(e.debug_string(), "2019-12-30Z".to_string());
    assert!(matches!(Utc.isoywd_opt(2020, 54, Weekday::Mon), LocalResult::NoValue));
    assert!(matches!(Utc.isoywd_opt(2019, 53, Weekday::Mon), LocalResult::NoValue));
    assert!(matches!(Utc.isoywd_opt(2019, 52, Weekday::Mon), LocalResult::Single(_)));
    assert!(matches!(Utc.isoywd_opt(2020, 0, Weekday::Mon), LocalResult::NoValue));
}

#[test]
fn test_cross_zone_ordering() {
    let tz = FixedOffset::east_opt(365 * 86_400).unwrap();
    let a = Utc.ymd(2011, 3, 1);
    let b = tz.ymd(2012, 2, 29);
    // Same canonical date: equal, though the displayed fields differ.
    assert_eq!(a.cmp(&b), Ordering::Equal);
    assert_eq!(Utc.ymd(2011, 2, 28).cmp(&b), Ordering::Less);
    assert_eq!(Utc.ymd(2011, 3, 2).cmp(&b), Ordering::Greater);
    assert_eq!(Utc.ymd(2010, 12, 31).cmp(&Utc.ymd(2011, 1, 1)), Ordering::Less);
}

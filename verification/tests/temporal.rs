use arrow_assoc::temporal::{
    naive_date_to_arrow, naive_datetime_to_arrow, naive_datetime_to_arrow_micros,
    naive_time_to_arrow_micros, naive_time_to_arrow_nanos, MAX_DAYS_FROM_CE, MIN_DAYS_FROM_CE,
};
use arrow_assoc::ArrowAssoc;
use arrow_assoc::{
    DateTime, DateTimeWrapperMicro, NaiveDate, NaiveDateTime, NaiveDateTimeWrapperMicro, NaiveTime,
    NaiveTimeWrapperMicro,
};
use chrono::{Datelike, Timelike};

fn date(y: i32, m: u32, d: u32) -> NaiveDate {
    let c = chrono::NaiveDate::from_ymd_opt(y, m, d).unwrap();
    NaiveDate::from_num_days_from_ce_opt(c.num_days_from_ce()).unwrap()
}

fn time(h: u32, m: u32, s: u32, nano: u32) -> NaiveTime {
    let c = chrono::NaiveTime::from_hms_nano_opt(h, m, s, nano).unwrap();
    NaiveTime::from_num_seconds_from_midnight_opt(c.num_seconds_from_midnight(), c.nanosecond()).unwrap()
}

fn datetime(y: i32, mo: u32, d: u32, h: u32, mi: u32, s: u32, nano: u32) -> NaiveDateTime {
    NaiveDateTime::new(date(y, mo, d), time(h, mi, s, nano))
}

#[test]
fn date_range_is_chronos() {
    assert_eq!(chrono::NaiveDate::MIN.num_days_from_ce(), MIN_DAYS_FROM_CE);
    assert_eq!(chrono::NaiveDate::MAX.num_days_from_ce(), MAX_DAYS_FROM_CE);
    assert!(NaiveDate::from_num_days_from_ce_opt(MIN_DAYS_FROM_CE).is_some());
    assert!(NaiveDate::from_num_days_from_ce_opt(MIN_DAYS_FROM_CE - 1).is_none());
    assert!(NaiveDate::from_num_days_from_ce_opt(MAX_DAYS_FROM_CE + 1).is_none());
    assert_eq!(NaiveDate::from_num_days_from_ce_opt(719_163).unwrap().num_days_from_ce(), 719_163);
}

#[test]
fn time_validity_is_chronos() {
    assert!(NaiveTime::from_num_seconds_from_midnight_opt(86_399, 1_999_999_999).is_some());
    assert!(NaiveTime::from_num_seconds_from_midnight_opt(86_400, 0).is_none());
    assert!(NaiveTime::from_num_seconds_from_midnight_opt(86_399, 2_000_000_000).is_none());
    assert!(NaiveTime::from_num_seconds_from_midnight_opt(86_398, 1_000_000_000).is_none());
    assert!(NaiveTime::from_hms_opt(24, 0, 0).is_none());
    assert!(NaiveTime::from_hms_opt(23, 60, 0).is_none());
    assert_eq!(NaiveTime::from_hms_opt(23, 59, 59).unwrap().num_seconds_from_midnight(), 86_399);
}

#[test]
fn date32_values() {
    assert_eq!(naive_date_to_arrow(date(1970, 1, 1)), 0);
    assert_eq!(naive_date_to_arrow(date(1970, 1, 2)), 1);
    assert_eq!(naive_date_to_arrow(date(1969, 12, 31)), -1);
    assert_eq!(naive_date_to_arrow(date(2005, 9, 10)), 13_036);
    assert_eq!(naive_date_to_arrow(date(1, 1, 1)), -719_162);
    let min = NaiveDate::from_num_days_from_ce_opt(MIN_DAYS_FROM_CE).unwrap();
    assert_eq!(naive_date_to_arrow(min), MIN_DAYS_FROM_CE - 719_163);
}

#[test]
fn midnight_timestamp_counts_days() {
    let d = date(2020, 2, 29);
    let ts = d.and_hms_opt(0, 0, 0).unwrap().and_utc().timestamp();
    assert_eq!(ts, naive_date_to_arrow(d) as i64 * 86_400);
    let late = d.and_hms_opt(23, 59, 59).unwrap().and_utc().timestamp();
    assert_eq!(late / 86_400, naive_date_to_arrow(d) as i64);
    assert!(d.and_hms_opt(24, 0, 0).is_none());
}

#[test]
fn nanosecond_timestamps() {
    assert_eq!(naive_datetime_to_arrow(datetime(1970, 1, 1, 0, 0, 1, 444)), 1_000_000_444);
    assert_eq!(
        naive_datetime_to_arrow(datetime(2001, 9, 9, 1, 46, 40, 555)),
        1_000_000_000_000_000_555
    );
    assert_eq!(
        naive_datetime_to_arrow(datetime(1677, 9, 21, 0, 12, 43, 145_224_192)),
        i64::MIN
    );
    assert_eq!(
        naive_datetime_to_arrow(datetime(2262, 4, 11, 23, 47, 16, 854_775_807)),
        i64::MAX
    );
    let below = datetime(1677, 9, 21, 0, 12, 43, 145_224_191).and_utc();
    assert_eq!(below.timestamp_nanos_opt(), None);
    let above = datetime(2262, 4, 11, 23, 47, 16, 854_775_808).and_utc();
    assert_eq!(above.timestamp_nanos_opt(), None);
    assert_eq!(naive_datetime_to_arrow(datetime(1969, 12, 31, 23, 59, 59, 1)), -999_999_999);
}

#[test]
fn microsecond_timestamps() {
    assert_eq!(naive_datetime_to_arrow_micros(datetime(1970, 1, 1, 0, 0, 1, 444_000)), 1_000_444);
    assert_eq!(
        naive_datetime_to_arrow_micros(datetime(2001, 9, 9, 1, 46, 40, 555_999)),
        1_000_000_000_000_555
    );
    assert_eq!(naive_datetime_to_arrow_micros(datetime(1969, 12, 31, 23, 59, 59, 999)), -1_000_000);
    let far = datetime(100_000, 1, 1, 0, 0, 0, 0);
    let c = chrono::NaiveDate::from_ymd_opt(100_000, 1, 1).unwrap().and_hms_opt(0, 0, 0).unwrap();
    assert_eq!(naive_datetime_to_arrow_micros(far), c.and_utc().timestamp_micros());
}

#[test]
fn micros_round_down_nanos() {
    for (y, nano) in [(1970, 1_999), (1969, 999), (2261, 854_775_807), (1700, 1)] {
        let dt = datetime(y, 6, 15, 12, 30, 59, nano);
        let ns = naive_datetime_to_arrow(dt);
        let us = naive_datetime_to_arrow_micros(dt);
        assert_eq!(us, ns.div_euclid(1000));
    }
}

#[test]
fn leap_second() {
    let t = NaiveTime::from_num_seconds_from_midnight_opt(86_399, 1_500_000_000).unwrap();
    assert_eq!(naive_time_to_arrow_nanos(t), 86_399 * 1_000_000_000 + 1_500_000_000);
    assert_eq!(naive_time_to_arrow_micros(t), 86_399 * 1_000_000 + 1_500_000);
    let dt = NaiveDateTime::new(date(2016, 12, 31), t);
    let c = chrono::NaiveDate::from_ymd_opt(2016, 12, 31)
        .unwrap()
        .and_hms_nano_opt(23, 59, 59, 1_500_000_000)
        .unwrap()
        .and_utc();
    assert_eq!(naive_datetime_to_arrow(dt), c.timestamp_nanos_opt().unwrap());
    assert_eq!(naive_datetime_to_arrow_micros(dt), c.timestamp_micros());
}

#[test]
fn time64_values() {
    let t = time(1, 2, 3, 456_789_012);
    assert_eq!(naive_time_to_arrow_nanos(t), 3_723_456_789_012);
    assert_eq!(naive_time_to_arrow_micros(t), 3_723_456_789);
    assert_eq!(naive_time_to_arrow_micros(t), naive_time_to_arrow_nanos(t) / 1000);
    assert_eq!(naive_time_to_arrow_nanos(time(0, 0, 0, 0)), 0);
}

#[test]
fn datetime_columns() {
    let dt = datetime(2001, 9, 9, 1, 46, 40, 555);
    let utc = DateTime::from_naive_utc(dt);
    let mut b = <DateTime as ArrowAssoc>::builder(2);
    <DateTime as ArrowAssoc>::append(&mut b, utc).unwrap();
    <Option<DateTime> as ArrowAssoc>::append(&mut b, None).unwrap();
    <NaiveDateTime as ArrowAssoc>::append(&mut b, dt).unwrap();
    <Option<NaiveDateTime> as ArrowAssoc>::append(&mut b, Some(dt)).unwrap();
    let v = 1_000_000_000_000_000_555;
    assert_eq!(b.rows(), vec![Some(v), None, Some(v), Some(v)]);
    assert_eq!(utc.naive_utc(), dt);
    assert_eq!(utc.timestamp(), 1_000_000_000);
}

#[test]
fn micro_timestamp_columns_and_zones() {
    let dt = datetime(2001, 9, 9, 1, 46, 40, 555_999);
    let mut b = <DateTimeWrapperMicro as ArrowAssoc>::builder(2);
    assert_eq!(b.timezone(), Some(String::from("UTC")));
    <DateTimeWrapperMicro as ArrowAssoc>::append(&mut b, DateTimeWrapperMicro(dt.and_utc())).unwrap();
    <Option<DateTimeWrapperMicro> as ArrowAssoc>::append(&mut b, None).unwrap();
    assert_eq!(b.rows(), vec![Some(1_000_000_000_000_555), None]);
    assert_eq!(b.timezone(), Some(String::from("UTC")));

    let mut c = <NaiveDateTimeWrapperMicro as ArrowAssoc>::builder(2);
    assert_eq!(c.timezone(), None);
    <Option<NaiveDateTimeWrapperMicro> as ArrowAssoc>::append(&mut c, Some(NaiveDateTimeWrapperMicro(dt)))
        .unwrap();
    <NaiveDateTimeWrapperMicro as ArrowAssoc>::append(&mut c, NaiveDateTimeWrapperMicro(dt)).unwrap();
    assert_eq!(c.rows(), vec![Some(1_000_000_000_000_555), Some(1_000_000_000_000_555)]);
    assert_eq!(c.timezone(), None);
}

#[test]
fn date_and_time_columns() {
    let mut d = <NaiveDate as ArrowAssoc>::builder(3);
    <NaiveDate as ArrowAssoc>::append(&mut d, date(2005, 9, 10)).unwrap();
    <Option<NaiveDate> as ArrowAssoc>::append(&mut d, None).unwrap();
    <Option<NaiveDate> as ArrowAssoc>::append(&mut d, Some(date(1969, 12, 31))).unwrap();
    assert_eq!(d.rows(), vec![Some(13_036), None, Some(-1)]);

    let t = time(1, 2, 3, 456_789_012);
    let mut n = <NaiveTime as ArrowAssoc>::builder(2);
    <NaiveTime as ArrowAssoc>::append(&mut n, t).unwrap();
    <Option<NaiveTime> as ArrowAssoc>::append(&mut n, None).unwrap();
    assert_eq!(n.rows(), vec![Some(3_723_456_789_012), None]);

    let mut m = <NaiveTimeWrapperMicro as ArrowAssoc>::builder(2);
    <Option<NaiveTimeWrapperMicro> as ArrowAssoc>::append(&mut m, Some(NaiveTimeWrapperMicro(t))).unwrap();
    <NaiveTimeWrapperMicro as ArrowAssoc>::append(&mut m, NaiveTimeWrapperMicro(time(0, 0, 0, 999))).unwrap();
    assert_eq!(m.rows(), vec![Some(3_723_456_789), Some(0)]);
}

#[test]
fn datetime_parts() {
    let d = date(2024, 3, 1);
    let t = time(4, 5, 6, 7);
    let dt = d.and_time(t);
    assert_eq!(dt.date(), d);
    assert_eq!(dt.time(), t);
    assert_eq!(dt, NaiveDateTime::new(d, t));
    assert_eq!(t.nanosecond(), 7);
    assert_eq!(t.num_seconds_from_midnight(), 4 * 3600 + 5 * 60 + 6);
}

#[test]
fn nanosecond_timestamp_decodes_back() {
    for dt in [
        datetime(2001, 9, 9, 1, 46, 40, 555),
        datetime(1969, 12, 31, 23, 59, 59, 999_999_999),
        datetime(1677, 9, 21, 0, 12, 43, 145_224_192),
        datetime(2262, 4, 11, 23, 47, 16, 854_775_807),
    ] {
        let v = naive_datetime_to_arrow(dt) as i128;
        let secs = v.div_euclid(1_000_000_000);
        let days = secs.div_euclid(86_400) + 719_163;
        let back = NaiveDateTime::new(
            NaiveDate::from_num_days_from_ce_opt(days as i32).unwrap(),
            NaiveTime::from_num_seconds_from_midnight_opt(
                secs.rem_euclid(86_400) as u32,
                v.rem_euclid(1_000_000_000) as u32,
            )
            .unwrap(),
        );
        assert_eq!(back, dt);
        let c = chrono::DateTime::from_timestamp_nanos(v as i64).naive_utc();
        assert_eq!(datetime_of_chrono(c), dt);
    }
}

fn datetime_of_chrono(c: chrono::NaiveDateTime) -> NaiveDateTime {
    NaiveDateTime::new(
        NaiveDate::from_num_days_from_ce_opt(c.date().num_days_from_ce()).unwrap(),
        NaiveTime::from_num_seconds_from_midnight_opt(c.time().num_seconds_from_midnight(), c.time().nanosecond())
            .unwrap(),
    )
}

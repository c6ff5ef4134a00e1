use solaredge::datetime::{date_to_str, datetime_to_str, opt_str_to_datetime, str_to_date, str_to_datetime};
use solaredge::{Date, DateTime};

fn date(y: i32, m: u32, d: u32) -> Date {
    Date::new(y, m, d).unwrap()
}

#[test]
fn date_only_format() {
    assert_eq!(date_to_str(&date(2021, 8, 10)), "2021-08-10");
    assert_eq!(date_to_str(&date(7, 1, 2)), "0007-01-02");
    assert_eq!(date_to_str(&date(12345, 12, 31)), "+12345-12-31");
    assert_eq!(date_to_str(&date(-1, 3, 4)), "-0001-03-04");
}

#[test]
fn date_time_format() {
    let t = date(2021, 8, 10).midnight();
    assert_eq!(datetime_to_str(&t), "2021-08-10 00:00:00");
    let t = DateTime::new(date(2024, 10, 24), 19, 12, 14).unwrap();
    assert_eq!(datetime_to_str(&t), "2024-10-24 19:12:14");
}

#[test]
fn bare_date_reads_as_midnight() {
    let t = str_to_datetime("2021-08-10").unwrap();
    assert_eq!(t, DateTime { date: date(2021, 8, 10), hour: 0, minute: 0, second: 0 });
}

#[test]
fn full_date_time_reads() {
    let t = str_to_datetime("2021-08-12 13:05:09").unwrap();
    assert_eq!(t, DateTime::new(date(2021, 8, 12), 13, 5, 9).unwrap());
    assert!(str_to_datetime("not a date").is_err());
    assert!(str_to_datetime("2021-02-30").is_err());
    assert!(str_to_datetime("").is_err());
}

#[test]
fn date_reads() {
    assert_eq!(str_to_date("2021-08-10").unwrap(), date(2021, 8, 10));
    assert!(str_to_date("2021-08-10 00:00:00").is_err());
    assert!(str_to_date("2021-13-01").is_err());
}

#[test]
fn optional_date_time_reads() {
    assert_eq!(opt_str_to_datetime(None).unwrap(), None);
    assert_eq!(opt_str_to_datetime(Some("2021-08-10")).unwrap(), Some(date(2021, 8, 10).midnight()));
    assert!(opt_str_to_datetime(Some("x")).is_err());
}

#[test]
fn calendar_validity() {
    assert!(Date::new(2020, 2, 29).is_some());
    assert!(Date::new(2021, 2, 29).is_none());
    assert!(Date::new(1900, 2, 29).is_none());
    assert!(Date::new(2000, 2, 29).is_some());
    assert!(Date::new(2021, 4, 31).is_none());
    assert!(Date::new(2021, 0, 1).is_none());
    assert!(Date::new(2021, 12, 0).is_none());
    assert!(DateTime::new(date(2021, 1, 1), 24, 0, 0).is_none());
    assert!(DateTime::new(date(2021, 1, 1), 23, 59, 60).is_none());
}

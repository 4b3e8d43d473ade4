use keyprod::time::{CalendarDate, LocalDateTime, MAX_YEAR, MIN_YEAR};

#[test]
fn valid_dates() {
    assert!(CalendarDate::from_ymd_opt(2000, 1, 1).is_some());
    assert!(CalendarDate::from_ymd_opt(2024, 2, 29).is_some());
    assert!(CalendarDate::from_ymd_opt(2000, 2, 29).is_some());
    assert!(CalendarDate::from_ymd_opt(1900, 2, 29).is_none());
    assert!(CalendarDate::from_ymd_opt(2023, 2, 29).is_none());
    assert!(CalendarDate::from_ymd_opt(2023, 4, 31).is_none());
    assert!(CalendarDate::from_ymd_opt(2023, 13, 1).is_none());
    assert!(CalendarDate::from_ymd_opt(2023, 0, 1).is_none());
    assert!(CalendarDate::from_ymd_opt(2023, 1, 0).is_none());
    assert!(CalendarDate::from_ymd_opt(MAX_YEAR, 12, 31).is_some());
    assert!(CalendarDate::from_ymd_opt(MAX_YEAR + 1, 1, 1).is_none());
    assert!(CalendarDate::from_ymd_opt(MIN_YEAR, 1, 1).is_some());
    assert!(CalendarDate::from_ymd_opt(MIN_YEAR - 1, 12, 31).is_none());
}

#[test]
fn date_texts() {
    let text = |y, m, d| CalendarDate::from_ymd_opt(y, m, d).unwrap().to_text();
    assert_eq!(text(2000, 1, 1), "2000-01-01");
    assert_eq!(text(2000, 1, 2), "2000-01-02");
    assert_eq!(text(987, 10, 31), "0987-10-31");
    assert_eq!(text(0, 3, 9), "0000-03-09");
    assert_eq!(text(-5, 12, 25), "-0005-12-25");
    assert_eq!(text(12345, 6, 7), "+12345-06-07");
    let d = CalendarDate::from_ymd_opt(2021, 7, 4).unwrap();
    assert_eq!((d.year(), d.month(), d.day()), (2021, 7, 4));
}

#[test]
fn local_times() {
    let d = CalendarDate::from_ymd_opt(2021, 7, 4).unwrap();
    let t = LocalDateTime::new(d, 23, 59, 59).unwrap();
    assert_eq!(t.date_naive(), d);
    assert_eq!(t.time_of_day(), (23, 59, 59));
    assert!(LocalDateTime::new(d, 24, 0, 0).is_none());
    assert!(LocalDateTime::new(d, 0, 60, 0).is_none());
    assert!(LocalDateTime::new(d, 0, 0, 60).is_none());
}

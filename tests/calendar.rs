use refet::{day_of_year, CalendarDate, EtError};

#[test]
fn test_day_of_year() {
    let date = CalendarDate::new(2023, 1, 1).unwrap();
    let day_of_year = day_of_year(&date).unwrap();
    assert_eq!(day_of_year, 1);
}

#[test]
fn test_day_of_year_leap_year() {
    let date = CalendarDate::new(2020, 2, 29).unwrap();
    let day_of_year = day_of_year(&date).unwrap();
    assert_eq!(day_of_year, 60);
}

#[test]
fn day_of_year_of_the_reference_station_day() {
    let date = CalendarDate::new(2000, 7, 1).unwrap();
    assert_eq!(day_of_year(&date).unwrap(), 183);
}

#[test]
fn last_day_of_common_and_leap_years() {
    assert_eq!(day_of_year(&CalendarDate::new(2023, 12, 31).unwrap()).unwrap(), 365);
    assert_eq!(day_of_year(&CalendarDate::new(2024, 12, 31).unwrap()).unwrap(), 366);
    assert_eq!(day_of_year(&CalendarDate::new(1900, 3, 1).unwrap()).unwrap(), 60);
    assert_eq!(day_of_year(&CalendarDate::new(2000, 3, 1).unwrap()).unwrap(), 61);
}

#[test]
fn impossible_dates_are_invalid_input() {
    assert_eq!(CalendarDate::new(2023, 2, 29), Err(EtError::InvalidInput));
    assert_eq!(CalendarDate::new(1900, 2, 29), Err(EtError::InvalidInput));
    assert_eq!(CalendarDate::new(2023, 13, 1), Err(EtError::InvalidInput));
    assert_eq!(CalendarDate::new(2023, 0, 1), Err(EtError::InvalidInput));
    assert_eq!(CalendarDate::new(2023, 4, 31), Err(EtError::InvalidInput));
    assert_eq!(CalendarDate::new(2023, 4, 0), Err(EtError::InvalidInput));
}

#[test]
fn year_range_edges() {
    assert!(CalendarDate::new(262142, 12, 31).is_ok());
    assert!(CalendarDate::new(-262143, 1, 1).is_ok());
    assert_eq!(CalendarDate::new(262143, 1, 1), Err(EtError::InvalidInput));
    assert_eq!(CalendarDate::new(-262144, 12, 31), Err(EtError::InvalidInput));
}

#[test]
fn parse_reads_year_month_day() {
    let date = CalendarDate::parse("2020-02-29").unwrap();
    assert_eq!(date.year(), 2020);
    assert_eq!(date.month(), 2);
    assert_eq!(date.day(), 29);
    assert_eq!(date, CalendarDate::new(2020, 2, 29).unwrap());
}

#[test]
fn parse_rejects_other_text() {
    assert_eq!(CalendarDate::parse("2021-02-29"), Err(EtError::InvalidInput));
    assert_eq!(CalendarDate::parse("2020/02/29"), Err(EtError::InvalidInput));
    assert_eq!(CalendarDate::parse("yesterday"), Err(EtError::InvalidInput));
    assert_eq!(CalendarDate::parse(""), Err(EtError::InvalidInput));
}

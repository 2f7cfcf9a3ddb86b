use chrono::{Datelike, Duration, Local};
use krx_rs::api::common::{is_valid_date_format, latest_workday_string, validate_base_date};
use krx_rs::error::Error;

#[test]
fn common_tests_test_is_valid_date_format() {
    assert!(is_valid_date_format("20240105"));
    assert!(is_valid_date_format("19991231"));
    assert!(is_valid_date_format("20000101"));

    assert!(!is_valid_date_format("2024-01-05"));
    assert!(!is_valid_date_format("202401"));
    assert!(!is_valid_date_format("202401050"));
    assert!(!is_valid_date_format("2024010a"));
    assert!(!is_valid_date_format(""));
    assert!(!is_valid_date_format("abcdefgh"));
}

#[test]
fn test_validate_base_date_success() {
    let result = validate_base_date(Some("20240105".to_string()));
    assert!(result.is_ok());
    assert_eq!(result.unwrap(), "20240105");

    let result = validate_base_date(Some("19991231".to_string()));
    assert!(result.is_ok());
    assert_eq!(result.unwrap(), "19991231");
}

#[test]
fn common_tests_test_validate_base_date_none() {
    let result = validate_base_date(None);
    assert!(result.is_err());

    if let Err(Error::InvalidInput(msg)) = result {
        assert_eq!(msg, "date is required, call `date()` or `latest()`");
    } else {
        panic!("Expected InvalidInput error");
    }
}

#[test]
fn common_tests_test_validate_base_date_invalid_format() {
    let test_cases = vec![
        "2024-01-05",
        "202401",
        "202401050",
        "2024010a",
        "",
        "abcdefgh",
    ];

    for invalid_date in test_cases {
        let result = validate_base_date(Some(invalid_date.to_string()));
        assert!(result.is_err());

        if let Err(Error::InvalidInput(msg)) = result {
            assert_eq!(msg, "date must be in YYYYMMDD format");
        } else {
            panic!("Expected InvalidInput error for: {invalid_date}");
        }
    }
}

#[test]
fn common_tests_test_latest_workday_string() {
    let latest_day = latest_workday_string();

    assert_eq!(latest_day.len(), 8);
    assert!(latest_day.chars().all(|c| c.is_numeric()));

    let expected = (Local::now() - Duration::days(1))
        .format("%Y%m%d")
        .to_string();
    assert_eq!(latest_day, expected);

    assert!(is_valid_date_format(&latest_day));
}

#[test]
fn common_test_is_valid_date_format() {
    assert!(is_valid_date_format("20240105"));
    assert!(is_valid_date_format("19991231"));
    assert!(!is_valid_date_format("2024-01-05"));
    assert!(!is_valid_date_format("240105"));
    assert!(!is_valid_date_format("2024010a"));
    assert!(!is_valid_date_format(""));
}

#[test]
fn common_test_validate_base_date_none() {
    let result = validate_base_date(None);
    assert!(result.is_err());
    match result {
        Err(Error::InvalidInput(msg)) => {
            assert_eq!(msg, "date is required, call `date()` or `latest()`");
        }
        _ => panic!("Expected InvalidInput error"),
    }
}

#[test]
fn common_test_validate_base_date_invalid_format() {
    let result = validate_base_date(Some("2024-01-05".to_string()));
    assert!(result.is_err());
    match result {
        Err(Error::InvalidInput(msg)) => {
            assert_eq!(msg, "date must be in YYYYMMDD format");
        }
        _ => panic!("Expected InvalidInput error"),
    }
}

#[test]
fn test_validate_base_date_valid() {
    let result = validate_base_date(Some("20240105".to_string()));
    assert!(result.is_ok());
    assert_eq!(result.unwrap(), "20240105");
}

#[test]
fn common_test_latest_workday_string() {
    let date = latest_workday_string();
    assert_eq!(date.len(), 8);
    assert!(date.chars().all(|c| c.is_numeric()));
}

#[test]
fn test_previous_day_boundaries() {
    // an ordinary day
    assert_eq!(krx_rs::date::previous_day(2024, 1, 5), (2024, 1, 4));
    // a month boundary
    assert_eq!(krx_rs::date::previous_day(2024, 5, 1), (2024, 4, 30));
    // a year boundary
    assert_eq!(krx_rs::date::previous_day(2024, 1, 1), (2023, 12, 31));
    // the day after a leap day
    assert_eq!(krx_rs::date::previous_day(2024, 3, 1), (2024, 2, 29));
    // the same day one year later, no leap day
    assert_eq!(krx_rs::date::previous_day(2023, 3, 1), (2023, 2, 28));
    // a century year that is no leap year
    assert_eq!(krx_rs::date::previous_day(1900, 3, 1), (1900, 2, 28));
    // a century year that is a leap year
    assert_eq!(krx_rs::date::previous_day(2000, 3, 1), (2000, 2, 29));
}

#[test]
fn test_latest_workday_matches_previous_day() {
    let today = Local::now().date_naive();
    let y = today.year();
    let m = today.month();
    let d = today.day();
    let (py, pm, pd) = krx_rs::date::previous_day(y, m, d);
    let expected = format!("{:04}{:02}{:02}", py, pm, pd);
    assert_eq!(latest_workday_string(), expected);
}

use krx_rs::data::{
    deserialize_f64, deserialize_krx_date, deserialize_optional_f64, deserialize_optional_krx_date,
    deserialize_optional_percentage, deserialize_optional_u64, deserialize_u64,
};
use krx_rs::date::Date;
use krx_rs::num::Decimal;

fn dec(negative: bool, digits: u128, scale: usize) -> Decimal {
    Decimal::from_parts(negative, digits, scale)
}

#[test]
fn test_deserialize_krx_date_success() {
    let result = deserialize_krx_date("20240105").unwrap();
    let expected = Date::from_ymd_opt(2024, 1, 5).unwrap();
    assert_eq!(result, expected);

    let test_cases = vec![
        ("20000101", Date::from_ymd_opt(2000, 1, 1).unwrap()),
        ("19991231", Date::from_ymd_opt(1999, 12, 31).unwrap()),
        ("20240229", Date::from_ymd_opt(2024, 2, 29).unwrap()), // a leap year
    ];

    for (date_str, expected_date) in test_cases {
        let result = deserialize_krx_date(date_str).unwrap();
        assert_eq!(result, expected_date);
    }
}

#[test]
fn deserializer_tests_test_deserialize_krx_date_invalid() {
    let invalid_dates = vec![
        "2024-01-05", // hyphens
        "202401",     // too short
        "202401050",  // too long
        "2024010a",   // a non-digit
        "",           // empty
        "20241301",   // an impossible month
        "20240132",   // an impossible day
    ];

    for invalid in invalid_dates {
        let result = deserialize_krx_date(invalid);
        assert!(result.is_err(), "Should fail for: {}", invalid);
    }
}

#[test]
fn test_deserialize_optional_f64_success() {
    assert_eq!(
        deserialize_optional_f64("123.45").unwrap(),
        Some(dec(false, 12345, 2))
    );
    assert_eq!(
        deserialize_optional_f64("1,234.56").unwrap(),
        Some(dec(false, 123456, 2))
    );
    assert_eq!(
        deserialize_optional_f64("1,234,567.89").unwrap(),
        Some(dec(false, 123456789, 2))
    );
    assert_eq!(
        deserialize_optional_f64("-123.45").unwrap(),
        Some(dec(true, 12345, 2))
    );
}

#[test]
fn test_deserialize_optional_f64_none() {
    for s in ["", "-"] {
        let result = deserialize_optional_f64(s).unwrap();
        assert_eq!(result, None, "Should be None for: {:?}", s);
    }
}

#[test]
fn test_deserialize_optional_f64_invalid() {
    for s in ["abc", "12.34.56"] {
        let result = deserialize_optional_f64(s);
        assert!(result.is_err(), "Should fail for: {:?}", s);
    }
}

#[test]
fn test_deserialize_optional_u64_success() {
    assert_eq!(deserialize_optional_u64("12345").unwrap(), Some(12345));
    assert_eq!(deserialize_optional_u64("1,234,567").unwrap(), Some(1234567));
    assert_eq!(deserialize_optional_u64("0").unwrap(), Some(0));
}

#[test]
fn test_deserialize_optional_u64_none() {
    for s in ["", "-"] {
        let result = deserialize_optional_u64(s).unwrap();
        assert_eq!(result, None, "Should be None for: {:?}", s);
    }
}

#[test]
fn test_deserialize_optional_u64_invalid() {
    for s in ["abc", "-123", "12.34"] {
        let result = deserialize_optional_u64(s);
        assert!(result.is_err(), "Should fail for: {:?}", s);
    }
}

#[test]
fn test_deserialize_optional_percentage_success() {
    assert_eq!(
        deserialize_optional_percentage("12.34").unwrap(),
        Some(dec(false, 1234, 2))
    );
    assert_eq!(
        deserialize_optional_percentage("-5.67").unwrap(),
        Some(dec(true, 567, 2))
    );
    assert_eq!(
        deserialize_optional_percentage("0").unwrap(),
        Some(dec(false, 0, 0))
    );
}

#[test]
fn test_deserialize_optional_percentage_none() {
    for s in ["", "-"] {
        let result = deserialize_optional_percentage(s).unwrap();
        assert_eq!(result, None, "Should be None for: {:?}", s);
    }
}

#[test]
fn test_deserialize_f64_success() {
    assert_eq!(deserialize_f64("123.45").unwrap(), dec(false, 12345, 2));
    assert_eq!(deserialize_f64("1,234.56").unwrap(), dec(false, 123456, 2));
}

#[test]
fn deserializer_tests_test_deserialize_f64_invalid() {
    let result = deserialize_f64("abc");
    assert!(result.is_err());
}

#[test]
fn test_deserialize_u64_success() {
    assert_eq!(deserialize_u64("12345").unwrap(), 12345);
    assert_eq!(deserialize_u64("1,234,567").unwrap(), 1234567);
}

#[test]
fn deserializer_tests_test_deserialize_u64_invalid() {
    for s in ["abc", "-123", "12.34"] {
        let result = deserialize_u64(s);
        assert!(result.is_err(), "Should fail for: {:?}", s);
    }
}

#[test]
fn test_deserialize_krx_date_valid() {
    let result = deserialize_krx_date("20240105");
    assert!(result.is_ok());
    assert_eq!(result.unwrap(), Date::from_ymd_opt(2024, 1, 5).unwrap());
}

#[test]
fn mod_test_deserialize_krx_date_invalid() {
    let result = deserialize_krx_date("invalid-date");
    assert!(result.is_err());
}

#[test]
fn test_deserialize_optional_krx_date_valid() {
    let result = deserialize_optional_krx_date("20240105");
    assert!(result.is_ok());
    assert_eq!(result.unwrap(), Some(Date::from_ymd_opt(2024, 1, 5).unwrap()));
}

#[test]
fn test_deserialize_optional_krx_date_empty() {
    let result = deserialize_optional_krx_date("");
    assert!(result.is_ok());
    assert_eq!(result.unwrap(), None);
}

#[test]
fn test_deserialize_optional_krx_date_dash() {
    let result = deserialize_optional_krx_date("-");
    assert!(result.is_ok());
    assert_eq!(result.unwrap(), None);
}

#[test]
fn test_deserialize_optional_f64_valid() {
    let result = deserialize_optional_f64("123.45");
    assert!(result.is_ok());
    assert_eq!(result.unwrap(), Some(dec(false, 12345, 2)));
}

#[test]
fn test_deserialize_optional_f64_with_comma() {
    let result = deserialize_optional_f64("1,234.56");
    assert!(result.is_ok());
    assert_eq!(result.unwrap(), Some(dec(false, 123456, 2)));
}

#[test]
fn test_deserialize_optional_f64_empty() {
    let result = deserialize_optional_f64("");
    assert!(result.is_ok());
    assert_eq!(result.unwrap(), None);
}

#[test]
fn test_deserialize_optional_u64_valid() {
    let result = deserialize_optional_u64("12345");
    assert!(result.is_ok());
    assert_eq!(result.unwrap(), Some(12345));
}

#[test]
fn test_deserialize_optional_u64_with_comma() {
    let result = deserialize_optional_u64("1,234,567");
    assert!(result.is_ok());
    assert_eq!(result.unwrap(), Some(1234567));
}

#[test]
fn test_deserialize_f64_valid() {
    let result = deserialize_f64("123.45");
    assert!(result.is_ok());
    assert_eq!(result.unwrap(), dec(false, 12345, 2));
}

#[test]
fn mod_test_deserialize_f64_invalid() {
    let result = deserialize_f64("invalid");
    assert!(result.is_err());
}

#[test]
fn test_deserialize_u64_valid() {
    let result = deserialize_u64("12345");
    assert!(result.is_ok());
    assert_eq!(result.unwrap(), 12345);
}

#[test]
fn mod_test_deserialize_u64_invalid() {
    let result = deserialize_u64("invalid");
    assert!(result.is_err());
}

#[test]
fn test_deserialize_optional_percentage_valid() {
    let result = deserialize_optional_percentage("12.5");
    assert!(result.is_ok());
    assert_eq!(result.unwrap(), Some(dec(false, 125, 1)));
}

#[test]
fn test_deserialize_optional_percentage_dash() {
    let result = deserialize_optional_percentage("-");
    assert!(result.is_ok());
    assert_eq!(result.unwrap(), None);
}

#[test]
fn test_deserialize_optional_f64_dash() {
    let result = deserialize_optional_f64("-");
    assert!(result.is_ok());
    assert_eq!(result.unwrap(), None);
}

#[test]
fn test_deserialize_optional_u64_dash() {
    let result = deserialize_optional_u64("-");
    assert!(result.is_ok());
    assert_eq!(result.unwrap(), None);
}

#[test]
fn test_deserialize_optional_u64_empty() {
    let result = deserialize_optional_u64("");
    assert!(result.is_ok());
    assert_eq!(result.unwrap(), None);
}

#[test]
fn test_deserialize_optional_percentage_empty() {
    let result = deserialize_optional_percentage("");
    assert!(result.is_ok());
    assert_eq!(result.unwrap(), None);
}

#[test]
fn test_deserialize_optional_f64_zero() {
    let result = deserialize_optional_f64("0");
    assert!(result.is_ok());
    assert_eq!(result.unwrap(), Some(dec(false, 0, 0)));
}

#[test]
fn test_deserialize_optional_u64_zero() {
    let result = deserialize_optional_u64("0");
    assert!(result.is_ok());
    assert_eq!(result.unwrap(), Some(0));
}

#[test]
fn test_deserialize_krx_date_strict_validation() {
    let invalid_formats = vec![
        "2024-01-05", // Wrong format
        "05/01/2024", // Wrong format
        "20240230",   // Invalid date
        "20241301",   // Invalid month
    ];

    for invalid_date in invalid_formats {
        let result = deserialize_krx_date(invalid_date);
        assert!(
            result.is_err(),
            "Should reject invalid date format: {}",
            invalid_date
        );
    }
}

#[test]
fn test_deserialize_sample_data_patterns() {
    // Price field with dash (from options data where no trading occurred)
    let result = deserialize_optional_f64("-");
    assert!(result.is_ok());
    assert_eq!(result.unwrap(), None);

    // Volume field with zero (valid zero trading)
    let result = deserialize_optional_u64("0");
    assert!(result.is_ok());
    assert_eq!(result.unwrap(), Some(0));

    // Large trading value with no commas (as found in sample data)
    let result = deserialize_optional_u64("104622050000");
    assert!(result.is_ok());
    assert_eq!(result.unwrap(), Some(104622050000));

    // Decimal yield value (as found in bond data)
    let result = deserialize_optional_f64("3.381");
    assert!(result.is_ok());
    assert_eq!(result.unwrap(), Some(dec(false, 3381, 3)));

    // Valid date
    let result = deserialize_krx_date("20240105");
    assert!(result.is_ok());
    assert_eq!(result.unwrap(), Date::from_ymd_opt(2024, 1, 5).unwrap());
}

#[test]
fn test_leap_year_rules() {
    // a leap year accepts Feb 29
    assert!(deserialize_krx_date("20240229").is_ok());
    // a common year rejects it
    assert!(deserialize_krx_date("20230229").is_err());
    // century years are common unless divisible by 400
    assert!(deserialize_krx_date("19000229").is_err());
    assert!(deserialize_krx_date("20000229").is_ok());
}

#[test]
fn test_comma_grouping_is_value_neutral() {
    assert_eq!(
        deserialize_optional_u64("1,234,567").unwrap(),
        deserialize_optional_u64("1234567").unwrap()
    );
    assert_eq!(
        deserialize_optional_f64("1,234.56").unwrap(),
        deserialize_optional_f64("1234.56").unwrap()
    );
    assert_eq!(deserialize_u64("1,234,567").unwrap(), 1234567);
}

#[test]
fn test_u64_bounds() {
    // the largest value that fits
    assert_eq!(
        deserialize_optional_u64("18446744073709551615").unwrap(),
        Some(u64::MAX)
    );
    // one more overflows and fails, as a direct integer parse would
    assert!(deserialize_optional_u64("18446744073709551616").is_err());
}

#[test]
fn test_required_variants_reject_sentinels() {
    assert!(deserialize_f64("").is_err());
    assert!(deserialize_f64("-").is_err());
    assert!(deserialize_u64("").is_err());
    assert!(deserialize_u64("-").is_err());
}

//! The numeric parser: years, months, and value fields with the sentinel.

use ghcn_daily::error::DecodeError;
use ghcn_daily::numeric::parse_month;
use ghcn_daily::numeric::parse_value;
use ghcn_daily::numeric::parse_year;

#[test]
fn years_parse_without_trimming() {
    assert_eq!(parse_year("2006"), Ok(2006));
    assert_eq!(parse_year("0000"), Ok(0));
    assert_eq!(parse_year("1875"), Ok(1875));
    // No trimming is applied: a space anywhere in the field is an error.
    assert_eq!(parse_year(" 200"), Err(DecodeError::MalformedNumber));
    assert_eq!(parse_year("200 "), Err(DecodeError::MalformedNumber));
    assert_eq!(parse_year("2O06"), Err(DecodeError::MalformedNumber));
    assert_eq!(parse_year(""), Err(DecodeError::MalformedNumber));
}

#[test]
fn months_parse_without_trimming() {
    assert_eq!(parse_month("01"), Ok(1));
    assert_eq!(parse_month("12"), Ok(12));
    assert_eq!(parse_month(" 1"), Err(DecodeError::MalformedNumber));
    assert_eq!(parse_month("1 "), Err(DecodeError::MalformedNumber));
    assert_eq!(parse_month("--"), Err(DecodeError::MalformedNumber));
}

#[test]
fn present_values_parse_after_trimming() {
    assert_eq!(parse_value("  -50"), Ok(Some(-50)));
    assert_eq!(parse_value("    0"), Ok(Some(0)));
    assert_eq!(parse_value("99999"), Ok(Some(99999)));
    assert_eq!(parse_value(" 0050"), Ok(Some(50)));
    assert_eq!(parse_value("  +50"), Ok(Some(50)));
    assert_eq!(parse_value("50   "), Ok(Some(50)));
    assert_eq!(parse_value("-9998"), Ok(Some(-9998)));
}

#[test]
fn only_the_sentinel_is_absent() {
    // Exactly -9999 is "absent"; every neighbouring value is present.
    assert_eq!(parse_value("-9999"), Ok(None));
    assert_eq!(parse_value("-9998"), Ok(Some(-9998)));
    assert_eq!(parse_value(" 9999"), Ok(Some(9999)));
    assert_eq!(parse_value(" -999"), Ok(Some(-999)));
}

#[test]
fn malformed_values_fail() {
    assert_eq!(parse_value("  a50"), Err(DecodeError::MalformedNumber));
    assert_eq!(parse_value("- 50 "), Err(DecodeError::MalformedNumber));
    assert_eq!(parse_value("12 34"), Err(DecodeError::MalformedNumber));
    assert_eq!(parse_value("     "), Err(DecodeError::MalformedNumber));
    assert_eq!(parse_value("    -"), Err(DecodeError::MalformedNumber));
    assert_eq!(parse_value("    +"), Err(DecodeError::MalformedNumber));
    assert_eq!(parse_value("--550"), Err(DecodeError::MalformedNumber));
}

use bllib::brightness::{parse_brightness_arg, resolve_delta_raw, BrightnessArg};

fn percent_of(arg: Result<BrightnessArg, String>) -> f64 {
    match arg {
        Ok(BrightnessArg::Percent(text)) => text.parse::<f64>().unwrap(),
        other => panic!("not an absolute percentage: {other:?}"),
    }
}

fn delta_percent_of(arg: Result<BrightnessArg, String>) -> f64 {
    match arg {
        Ok(BrightnessArg::DeltaPercent(negative, text)) => {
            let value = text.parse::<f64>().unwrap();
            if negative {
                -value
            } else {
                value
            }
        }
        other => panic!("not a percentage change: {other:?}"),
    }
}

// --- parse_brightness_value ---

#[test]
fn parses_raw_value() {
    assert_eq!(parse_brightness_arg("50"), Ok(BrightnessArg::Raw(50)));
}

#[test]
fn parses_zero() {
    assert_eq!(parse_brightness_arg("0"), Ok(BrightnessArg::Raw(0)));
}

#[test]
fn parses_percent_value() {
    assert_eq!(percent_of(parse_brightness_arg("50%")), 50.0);
}

#[test]
fn parses_fractional_percent_value() {
    assert_eq!(percent_of(parse_brightness_arg("12.5%")), 12.5);
}

#[test]
fn parses_max_alias_as_100_percent() {
    assert_eq!(percent_of(parse_brightness_arg("max")), 100.0);
}

#[test]
fn parses_max_alias_case_insensitively() {
    assert_eq!(percent_of(parse_brightness_arg("MAX")), 100.0);
    assert_eq!(percent_of(parse_brightness_arg("Max")), 100.0);
}

#[test]
fn parses_min_alias_as_0_percent() {
    assert_eq!(percent_of(parse_brightness_arg("min")), 0.0);
}

#[test]
fn parses_min_alias_case_insensitively() {
    assert_eq!(percent_of(parse_brightness_arg("MIN")), 0.0);
    assert_eq!(percent_of(parse_brightness_arg("Min")), 0.0);
}

#[test]
fn parses_percent_value_above_100() {
    assert_eq!(percent_of(parse_brightness_arg("150%")), 150.0);
}

#[test]
fn parses_positive_raw_delta() {
    assert_eq!(parse_brightness_arg("+10"), Ok(BrightnessArg::DeltaRaw(10)));
}

#[test]
fn parses_negative_raw_delta() {
    assert_eq!(parse_brightness_arg("-10"), Ok(BrightnessArg::DeltaRaw(-10)));
}

#[test]
fn parses_positive_percent_delta() {
    assert_eq!(delta_percent_of(parse_brightness_arg("+10%")), 10.0);
}

#[test]
fn parses_negative_percent_delta() {
    assert_eq!(delta_percent_of(parse_brightness_arg("-10%")), -10.0);
}

#[test]
fn rejects_empty_string() {
    assert!(parse_brightness_arg("").is_err());
}

#[test]
fn rejects_sign_with_no_digits() {
    assert!(parse_brightness_arg("+").is_err());
    assert!(parse_brightness_arg("-").is_err());
}

#[test]
fn rejects_non_numeric_value() {
    assert!(parse_brightness_arg("abc").is_err());
}

#[test]
fn rejects_negative_absolute_percent() {
    // A bare '-' is consumed as the delta sign, so this parses as a
    // percent delta rather than a negative absolute percentage.
    assert_eq!(delta_percent_of(parse_brightness_arg("-5%")), -5.0);
}

#[test]
fn rejects_malformed_numeric_part() {
    assert!(parse_brightness_arg("-1abc").is_err());
}

#[test]
fn rejects_raw_value_overflowing_u32() {
    assert!(parse_brightness_arg("99999999999999999999").is_err());
}

#[test]
fn rejects_whitespace_only() {
    assert!(parse_brightness_arg("   ").is_err());
}

#[test]
fn rejects_double_sign() {
    assert!(parse_brightness_arg("++10").is_err());
    assert!(parse_brightness_arg("--10").is_err());
    assert!(parse_brightness_arg("+-10").is_err());
    assert!(parse_brightness_arg("-+10").is_err());
    assert!(parse_brightness_arg("++10%").is_err());
}

#[test]
fn malformed_value_message_quotes_the_argument() {
    assert_eq!(
        parse_brightness_arg("-1abc"),
        Err("invalid brightness value '-1abc'".to_string())
    );
}

#[test]
fn percentage_keeps_the_number_as_written() {
    assert_eq!(
        parse_brightness_arg("+12.50%"),
        Ok(BrightnessArg::DeltaPercent(false, "12.50".to_string()))
    );
    assert_eq!(parse_brightness_arg("%"), Ok(BrightnessArg::Percent(String::new())));
}

#[test]
fn largest_raw_value_is_accepted() {
    assert_eq!(parse_brightness_arg("4294967295"), Ok(BrightnessArg::Raw(u32::MAX)));
    assert!(parse_brightness_arg("4294967296").is_err());
    assert_eq!(parse_brightness_arg("-4294967295"), Ok(BrightnessArg::DeltaRaw(-4294967295)));
}

#[test]
fn alias_must_match_whole_word() {
    assert!(parse_brightness_arg("maxx").is_err());
    assert!(parse_brightness_arg("+max").is_err());
}

// --- BrightnessValue::resolve, raw deltas ---

#[test]
fn resolves_positive_raw_delta() {
    assert_eq!(resolve_delta_raw(50, 10, 100), 60);
}

#[test]
fn resolves_negative_raw_delta() {
    assert_eq!(resolve_delta_raw(50, -10, 100), 40);
}

#[test]
fn clamps_positive_raw_delta_to_max() {
    assert_eq!(resolve_delta_raw(50, 1000, 100), 100);
}

#[test]
fn clamps_negative_raw_delta_to_zero() {
    assert_eq!(resolve_delta_raw(50, -1000, 100), 0);
}

#[test]
fn clamps_raw_delta_without_overflowing_on_i64_min() {
    assert_eq!(resolve_delta_raw(50, i64::MIN, 100), 0);
}

#[test]
fn clamps_raw_delta_without_overflowing_on_i64_max() {
    assert_eq!(resolve_delta_raw(50, i64::MAX, 100), 100);
}

#[test]
fn clamps_raw_delta_at_max_current() {
    assert_eq!(resolve_delta_raw(u32::MAX, 1, 100), 100);
}

#[test]
fn zero_raw_delta_returns_current() {
    assert_eq!(resolve_delta_raw(50, 0, 100), 50);
}

#[test]
fn raw_delta_on_zero_max_device_is_zero() {
    assert_eq!(resolve_delta_raw(0, 5, 0), 0);
}

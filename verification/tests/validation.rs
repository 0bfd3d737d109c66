use krakenctl::params::{
    check_range, no_options_present, parse_param, parse_u8, u8_to_string, validate, DeviceParam,
    ParamKind, ValidationReason,
};

#[test]
fn out_of_range_rejected_for_both_kinds() {
    for v in [0u8, 1, 9, 101, 120, 255] {
        for kind in [ParamKind::Fan, ParamKind::Pump] {
            let err = check_range(kind, v).unwrap_err();
            assert_eq!(err.reason, ValidationReason::RangeError);
            assert_eq!(err.param, kind);
        }
    }
}

#[test]
fn in_range_accepted_and_tagged() {
    for v in [10u8, 11, 42, 55, 99, 100] {
        assert_eq!(
            check_range(ParamKind::Fan, v).unwrap(),
            DeviceParam::FanSpeed(v)
        );
        assert_eq!(
            check_range(ParamKind::Pump, v).unwrap(),
            DeviceParam::PumpSpeed(v)
        );
    }
}

#[test]
fn parse_u8_accepts_plain_decimals() {
    assert_eq!(parse_u8("0"), Some(0));
    assert_eq!(parse_u8("42"), Some(42));
    assert_eq!(parse_u8("009"), Some(9));
    assert_eq!(parse_u8("255"), Some(255));
}

#[test]
fn parse_u8_rejects_non_numbers_and_overflow() {
    assert_eq!(parse_u8(""), None);
    assert_eq!(parse_u8("abc"), None);
    assert_eq!(parse_u8("12x"), None);
    assert_eq!(parse_u8("-5"), None);
    assert_eq!(parse_u8(" 42"), None);
    assert_eq!(parse_u8("256"), None);
    assert_eq!(parse_u8("1000"), None);
}

#[test]
fn u8_rendering_has_no_leading_zeros() {
    assert_eq!(u8_to_string(0), "0");
    assert_eq!(u8_to_string(9), "9");
    assert_eq!(u8_to_string(10), "10");
    assert_eq!(u8_to_string(42), "42");
    assert_eq!(u8_to_string(100), "100");
    assert_eq!(u8_to_string(255), "255");
}

#[test]
fn parse_param_reports_parse_errors_with_raw_value() {
    let err = parse_param(ParamKind::Fan, "fast").unwrap_err();
    assert_eq!(err.reason, ValidationReason::ParseError);
    assert_eq!(err.param, ParamKind::Fan);
    assert_eq!(err.value, "fast");
    assert_eq!(err.reason_text(), "not a number");

    let err = parse_param(ParamKind::Pump, "300").unwrap_err();
    assert_eq!(err.reason, ValidationReason::ParseError);
    assert_eq!(err.value, "300");
}

#[test]
fn parse_param_reports_range_errors_with_canonical_value() {
    let err = parse_param(ParamKind::Pump, "009").unwrap_err();
    assert_eq!(err.reason, ValidationReason::RangeError);
    assert_eq!(err.param, ParamKind::Pump);
    assert_eq!(err.value, "9");
    assert_eq!(err.reason_text(), "out of range");
}

#[test]
fn validate_orders_fan_before_pump() {
    let params = validate(Some("42"), Some("60")).unwrap();
    assert_eq!(
        params,
        vec![DeviceParam::FanSpeed(42), DeviceParam::PumpSpeed(60)]
    );
    let params = validate(None, Some("100")).unwrap();
    assert_eq!(params, vec![DeviceParam::PumpSpeed(100)]);
    let params = validate(None, None).unwrap();
    assert_eq!(params, vec![]);
}

#[test]
fn validate_reports_fan_rejection_first() {
    let err = validate(Some("5"), Some("oops")).unwrap_err();
    assert_eq!(err.param, ParamKind::Fan);
    assert_eq!(err.reason, ValidationReason::RangeError);
    assert_eq!(err.value, "5");
}

#[test]
fn pump_out_of_range_scenario() {
    let err = validate(None, Some("9")).unwrap_err();
    assert_eq!(err.reason, ValidationReason::RangeError);
    assert_eq!(err.reason_text(), "out of range");
    assert_eq!(err.value, "9");
    assert_eq!(err.param, ParamKind::Pump);
    assert_eq!(err.param.flag_name(), "pump-speed");
}

#[test]
fn no_flags_means_usage_only() {
    assert!(no_options_present(false, false));
    assert!(!no_options_present(true, false));
    assert!(!no_options_present(false, true));
    assert!(!no_options_present(true, true));
}

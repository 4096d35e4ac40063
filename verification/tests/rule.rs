use mix_agent::rule::{match_literal, parse_exp, parse_time, ConfigError};

#[test]
fn test_parse_exp() {
    let _ = parse_exp(String::from(".data.defaultFunction[0].sort|6.5").as_str());
}

#[test]
fn parse_exp_time_rule() {
    let exp = parse_exp("T|.a.b|5m").unwrap();
    assert_eq!(exp.marker, "T");
    assert_eq!(exp.json_path, ".a.b");
    assert_eq!(exp.value, "5m");
    assert_eq!(exp.format, "");
}

#[test]
fn parse_exp_literal_rule() {
    let exp = parse_exp("X|.a|hi").unwrap();
    assert_eq!(exp.marker, "X");
    assert_eq!(exp.json_path, ".a");
    assert_eq!(exp.value, "hi");
    assert_eq!(exp.format, "");
}

#[test]
fn parse_exp_with_format_field() {
    let exp = parse_exp("T|.ts|300s|%Y-%m-%d %H:%M:%S").unwrap();
    assert_eq!(exp.marker, "T");
    assert_eq!(exp.json_path, ".ts");
    assert_eq!(exp.value, "300s");
    assert_eq!(exp.format, "%Y-%m-%d %H:%M:%S");
}

#[test]
fn parse_exp_trims_value() {
    let exp = parse_exp("N|.x| 6.5 ").unwrap();
    assert_eq!(exp.value, "6.5");
}

#[test]
fn parse_exp_too_few_fields_is_config_error() {
    let r = parse_exp("bad");
    assert!(matches!(r, Err(ConfigError::BadRuleExpression)));
    let r2 = parse_exp("a|b");
    assert!(r2.is_err());
}

#[test]
fn parse_time_day_suffix() {
    assert_eq!(parse_time("1d"), 86400);
}

#[test]
fn parse_time_hour_suffix() {
    assert_eq!(parse_time("2h"), 7200);
}

#[test]
fn parse_time_minute_and_second_suffixes() {
    assert_eq!(parse_time("5m"), 300);
    assert_eq!(parse_time("300s"), 300);
    assert_eq!(parse_time("45S"), 45);
}

#[test]
fn parse_time_garbage_defaults() {
    assert_eq!(parse_time(""), 300);
    assert_eq!(parse_time("42"), 300);
    assert_eq!(parse_time("xyz"), 300);
    assert_eq!(parse_time("xd"), 300);
}

#[test]
fn literal_match_equal_and_unequal() {
    let (ok, msg) = match_literal("6.5", "6.5");
    assert!(ok);
    assert_eq!(msg, "actual: 6.5, expected: 6.5, match ok");
    let (bad, msg2) = match_literal("6", "6.5");
    assert!(!bad);
    assert_eq!(msg2, "actual: 6, expected: 6.5, match failed");
}

#[test]
fn config_error_text() {
    let e = ConfigError::BadRuleExpression;
    assert_eq!(e.text(), "rule expression needs at least marker|path|value");
}

use chrono::{DateTime, Local, NaiveDateTime, ParseResult, TimeZone};
use mix_agent::rule::Exp;
use mix_agent::timecheck::{now_info, process_time_value, NowInfo};

fn exp(marker: &str, path: &str, value: &str, format: &str) -> Exp {
    Exp {
        marker: marker.to_string(),
        json_path: path.to_string(),
        value: value.to_string(),
        format: format.to_string(),
    }
}

fn naive_secs(s: &str) -> i64 {
    NaiveDateTime::parse_from_str(s, "%Y-%m-%d %H:%M:%S")
        .unwrap()
        .and_utc()
        .timestamp()
}

fn clock_at(local_secs: i64) -> NowInfo {
    let midnight = local_secs - local_secs.rem_euclid(86400);
    NowInfo { epoch_secs: local_secs, local_secs, midnight_secs: midnight }
}

#[test]
fn test_parse_date() {
    let dt = Local.with_ymd_and_hms(2020, 3, 6, 12, 0, 9).unwrap();
    let t2: ParseResult<DateTime<Local>> =
        Local.datetime_from_str("2020-03-06T12:00:09", "%Y-%m-%dT%H:%M:%S");
    println!("{:?}", t2);
    assert_eq!(dt, t2.unwrap());

    t2.unwrap().format("%Y-%m-%dT%H:%M:%S").to_string();

    let a = Local.datetime_from_str("2014-11-28 12:00:09", "%Y-%m-%d %H:%M:%S");
    println!("{:?}", a);
}

#[test]
fn fresh_target_matches() {
    let target = "2021-04-23 10:00:00";
    let now = clock_at(naive_secs(target) + 200);
    let e = exp("T", ".ts", "300s", "%Y-%m-%d %H:%M:%S");
    let (matched, msg) = process_time_value(&e, target, &now);
    assert!(matched);
    assert!(msg.contains("diff: 200s < threshold: 300s"));
    assert!(msg.contains("within the time range"));
    assert!(msg.contains("2021-04-23 10:00:00"));
}

#[test]
fn stale_target_does_not_match() {
    let target = "2021-04-23 10:00:00";
    let now = clock_at(naive_secs(target) + 400);
    let e = exp("T", ".ts", "300s", "%Y-%m-%d %H:%M:%S");
    let (matched, msg) = process_time_value(&e, target, &now);
    assert!(!matched);
    assert!(msg.contains("diff: 400s >= threshold: 300s"));
    assert!(msg.contains("outside the time range"));
}

#[test]
fn future_target_always_matches() {
    let target = "2021-04-23 10:00:00";
    let now = clock_at(naive_secs(target) - 50);
    let e = exp("T", ".ts", "300s", "%Y-%m-%d %H:%M:%S");
    let (matched, msg) = process_time_value(&e, target, &now);
    assert!(matched);
    assert!(msg.contains("diff: -50s"));
}

#[test]
fn date_only_mode_compares_at_day_granularity() {
    let now = clock_at(naive_secs("2021-04-23 13:45:00"));
    let e = exp("T", ".day", "1d", "%Y-%m-%d");
    let (same_day, _) = process_time_value(&e, "2021-04-23", &now);
    assert!(same_day);
    let (yesterday, msg) = process_time_value(&e, "2021-04-22", &now);
    assert!(!yesterday);
    assert!(msg.contains("diff: 86400s >= threshold: 86400s"));
}

#[test]
fn unparseable_value_is_a_failed_match() {
    let now = clock_at(naive_secs("2021-04-23 13:45:00"));
    let e = exp("T", ".ts", "300s", "%Y-%m-%d %H:%M:%S");
    let (matched, msg) = process_time_value(&e, "not a time", &now);
    assert!(!matched);
    assert!(msg.contains("could not parse time value: not a time"));
}

#[test]
fn clock_snapshot_is_coherent() {
    let now = now_info();
    assert!(now.midnight_secs <= now.local_secs);
    assert!(now.local_secs < now.midnight_secs + 86400);
}

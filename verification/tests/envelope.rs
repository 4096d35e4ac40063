use mix_agent::envelope::{
    get_batch_id, get_local_ip, init_log, ship_plan, LogLevel, Priority,
};
use mix_agent::settings::GlobalConfig;
use mix_agent::text::StripBom;

#[test]
pub fn test_get_batch_id() {
    let batch_id = get_batch_id();
    println!("{}", batch_id);
}

#[test]
pub fn test_get_local_ip() {
    let local_ip = get_local_ip();
    println!("{}", local_ip);
}

#[test]
fn log_levels_have_lowercase_names() {
    assert_eq!(LogLevel::Info.to_lower(), "info");
    assert_eq!(LogLevel::Warn.to_lower(), "warn");
    assert_eq!(LogLevel::Error.to_lower(), "error");
    assert_eq!(LogLevel::Debug.to_lower(), "debug");
    assert_eq!(LogLevel::Trace.to_lower(), "trace");
}

#[test]
fn priorities_have_lowercase_names() {
    assert_eq!(Priority::High.to_lower(), "high");
    assert_eq!(Priority::Middle.to_lower(), "middle");
    assert_eq!(Priority::Low.to_lower(), "low");
}

#[test]
fn envelope_carries_identity_and_payload() {
    let mut global = GlobalConfig::default();
    global.customer_id = "cust".to_string();
    global.project_id = "proj".to_string();
    global.env = "prod".to_string();
    let tags = Box::new(vec!["agent-desc|api".to_string()]);
    let log = init_log(&global, "api", "note", LogLevel::Warn, tags, 42u32, "agent-api");
    assert_eq!(log.identity.customer_id, "cust");
    assert_eq!(log.identity.project_id, "proj");
    assert_eq!(log.level, "warn");
    assert_eq!(log.category, "api");
    assert_eq!(log.content, "note");
    assert_eq!(log.raw_data, 42);
    assert_eq!(log.remark, "");
    assert_eq!(log.priority, "low");
    assert_eq!(log.env, "prod");
    assert_eq!(log.source.from, "agent");
    assert_eq!(log.source.name, "agent-api");
    assert_eq!(log.source.version, "v1.0.0");
    assert_eq!(log.source.lang, "rust");
    assert_eq!(log.tags.len(), 1);
}

#[test]
fn ship_plan_appends_collect_path() {
    let mut global = GlobalConfig::default();
    global.mix_endpoint = "http://collector".to_string();
    global.push_log = false;
    let plan = ship_plan(&global);
    assert_eq!(plan.endpoint, "http://collector/mix/api/v1/monitor/collect");
    assert!(plan.endpoint_configured);
    assert!(!plan.push_log);
    assert!(plan.print_log_json);
    assert_eq!(plan.timeout_millis, 5000);
}

#[test]
fn ship_plan_flags_missing_endpoint() {
    let mut global = GlobalConfig::default();
    global.mix_endpoint = String::new();
    let plan = ship_plan(&global);
    assert!(!plan.endpoint_configured);
    assert_eq!(plan.endpoint, "/mix/api/v1/monitor/collect");
}

#[test]
fn global_config_defaults() {
    let g = GlobalConfig::default();
    assert_eq!(g.customer_id, "");
    assert_eq!(g.mix_endpoint, "http://mix.wushiai.com");
    assert_eq!(g.env, "dev");
    assert_eq!(g.timeout, 5000);
    assert!(g.print_log_json);
    assert!(g.push_log);
}

#[test]
fn strip_bom_removes_a_leading_mark_only() {
    assert_eq!("\u{feff}abc".strip_bom(), "abc");
    assert_eq!("abc".strip_bom(), "abc");
    assert_eq!("".strip_bom(), "");
    let owned = format!("\u{feff}{}", "{}");
    assert_eq!(owned.strip_bom(), "{}");
}

#[test]
fn batch_id_is_a_full_timestamp_string() {
    let batch_id = get_batch_id();
    assert!(batch_id.len() >= 23);
    assert!(batch_id.chars().all(|c| c.is_ascii_digit()));
}

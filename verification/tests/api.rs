use mix_agent::agents::{cpu, directory, disk, machine, memory, process, service};
use mix_agent::api::{default_cron, target_source_configured, ApiAgentConfig, ApiResult};
use mix_agent::engine::{TargetResult};
use mix_agent::settings::MixConfig;

fn some_target_result(name: &str) -> TargetResult {
    TargetResult {
        name: name.to_string(),
        success: true,
        status: 200,
        auth: false,
        match_result: vec![],
        message: String::new(),
    }
}

#[test]
fn fresh_result_is_empty() {
    let r = ApiResult::init();
    assert_eq!(r.name, "");
    assert!(!r.auth);
    assert!(r.targets.is_empty());
    assert!(!r.success);
    assert_eq!(r.status, 0);
    assert_eq!(r.message, "");
}

#[test]
fn unauthenticated_tick_succeeds() {
    let r = ApiResult::unauthenticated("api", vec![some_target_result("t")]);
    assert_eq!(r.name, "api");
    assert!(!r.auth);
    assert!(r.success);
    assert_eq!(r.status, 200);
    assert_eq!(r.targets.len(), 1);
}

#[test]
fn authenticated_tick_records_token_response() {
    let r = ApiResult::authenticated("api", 201, "{\"token\":\"abc\"}", vec![]);
    assert!(r.auth);
    assert!(r.success);
    assert_eq!(r.status, 201);
    assert_eq!(r.message, "{\"token\":\"abc\"}");
}

#[test]
fn refused_token_stops_the_tick() {
    let r = ApiResult::token_refused("api", 401, "denied");
    assert!(r.auth);
    assert!(!r.success);
    assert_eq!(r.status, 401);
    assert_eq!(r.message, "denied");
    assert!(r.targets.is_empty());
}

#[test]
fn unreachable_token_endpoint_stops_the_tick() {
    let r = ApiResult::token_unreachable("api");
    assert!(r.auth);
    assert!(!r.success);
    assert_eq!(r.status, 0);
    assert!(r.targets.is_empty());
}

#[test]
fn target_source_needs_more_than_whitespace() {
    let mut cfg = ApiAgentConfig::default();
    assert!(!target_source_configured(&cfg));
    cfg.target_source.ip = "   ".to_string();
    assert!(!target_source_configured(&cfg));
    cfg.target_source.ip = " 10.0.0.2 ".to_string();
    assert!(target_source_configured(&cfg));
}

#[test]
fn api_config_defaults() {
    let cfg = ApiAgentConfig::new();
    assert_eq!(cfg.cron, "*/15 * * * * ?");
    assert_eq!(default_cron(), "*/15 * * * * ?");
    assert!(!cfg.auth.enabled);
    assert!(cfg.targets.is_empty());
}

#[test]
fn agent_schedules_default_as_configured() {
    assert_eq!(cpu::default_cron(), "*/5 * * * * ?");
    assert_eq!(memory::default_cron(), "*/10 * * * * ?");
    assert_eq!(disk::default_cron(), "0 0/30 * * * ?");
    assert_eq!(machine::default_cron(), "0 0 0 * * ?");
    assert_eq!(process::default_cron(), "0 0/10 * * * ?");
    assert_eq!(service::default_cron(), "0 0/10 * * * ?");
    assert_eq!(directory::default_cron(), "0 0 0 * * ?");
}

#[test]
fn disk_config_defaults_cover_common_file_systems() {
    let cfg = disk::DiskAgentConfig::new();
    assert_eq!(cfg.file_system, vec!["apfs", "ntfs", "fat32", "xfs", "ext3", "ext4"]);
}

#[test]
fn process_status_maps_platform_states() {
    assert_eq!(process::get_process_status("Idle"), "Idle");
    assert_eq!(process::get_process_status("Runnable"), "Running");
    assert_eq!(process::get_process_status("Sleeping"), "Sleeping");
    assert_eq!(process::get_process_status("Stopped"), "Stopped");
    assert_eq!(process::get_process_status("Zombie"), "Zombie");
    assert_eq!(process::get_process_status("Unknown"), "Unknown");
    assert_eq!(process::get_process_status("Strange"), "_");
}

#[test]
fn agent_records_start_empty() {
    let m = machine::Machine::init();
    assert_eq!(m.machine_name, "");
    assert_eq!(m.os_name, "");
    let p = process::Process::init();
    assert_eq!(p.pid, 0);
    assert!(!p.is_exist);
    assert_eq!(p.name, "");
    assert_eq!(p.status, "");
    let d = directory::Directory::init();
    assert_eq!(d.path, "");
    assert_eq!(d.app_name, "");
    assert_eq!(d.link_man, "");
    let s = service::Service::init();
    assert!(!s.is_exist);
    assert_eq!(s.status, "");
    assert_eq!(s.remark, "");
}

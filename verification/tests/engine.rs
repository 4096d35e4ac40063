use mix_agent::condition::Condition;
use mix_agent::engine::{
    evaluate_target, keyword_result, Engine, EngineAction, FetchOutcome, Target,
};
use mix_agent::jsonq::{extract_scalar, JsonScalar, QueryOutcome};
use mix_agent::timecheck::NowInfo;

fn clock() -> NowInfo {
    NowInfo { epoch_secs: 1_619_200_000, local_secs: 1_619_200_000, midnight_secs: 1_619_136_000 }
}

fn plain_target(name: &str, keywords: Vec<(&str, &str)>) -> Target {
    Target {
        name: name.to_string(),
        url: format!("http://host/{}", name),
        auth: false,
        keywords: keywords.iter().map(|(k, v)| (k.to_string(), v.to_string())).collect(),
        exclude: false,
        condition: None,
    }
}

#[test]
fn network_failure_reports_status_400() {
    let t = plain_target("svc", vec![]);
    let tr = evaluate_target(&t, FetchOutcome::Failure("connection refused".to_string()), &clock());
    assert_eq!(tr.name, "svc");
    assert!(!tr.success);
    assert_eq!(tr.status, 400);
    assert!(tr.match_result.is_empty());
    assert_eq!(tr.message, "connection refused");
}

#[test]
fn not_found_response_reports_status_and_body() {
    let t = plain_target("svc", vec![("k", "N|.a|1")]);
    let tr = evaluate_target(&t, FetchOutcome::Response(404, "missing".to_string()), &clock());
    assert!(!tr.success);
    assert_eq!(tr.status, 404);
    assert!(tr.match_result.is_empty());
    assert_eq!(tr.message, "404 missing");
}

#[test]
fn success_response_evaluates_keywords() {
    let t = plain_target("svc", vec![("sort", "N|.data.defaultFunction[0].sort|6.5")]);
    let body = r#"{"data":{"defaultFunction":[{"sort":6.5}]}}"#.to_string();
    let tr = evaluate_target(&t, FetchOutcome::Response(200, body), &clock());
    assert!(tr.success);
    assert_eq!(tr.status, 200);
    assert_eq!(tr.match_result.len(), 1);
    let mr = &tr.match_result[0];
    assert_eq!(mr.keyword, "sort");
    assert!(mr.found);
    assert!(mr.matched);
    assert_eq!(mr.message, "actual: 6.5, expected: 6.5, match ok");
}

#[test]
fn missing_keyword_produces_no_entry() {
    let t = plain_target("svc", vec![("gone", "N|.nope|1"), ("here", "N|.a|1")]);
    let body = r#"{"a": 1}"#.to_string();
    let tr = evaluate_target(&t, FetchOutcome::Response(200, body), &clock());
    assert_eq!(tr.match_result.len(), 1);
    assert_eq!(tr.match_result[0].keyword, "here");
    assert!(tr.match_result[0].matched);
}

#[test]
fn bom_in_body_is_tolerated() {
    let t = plain_target("svc", vec![("a", "N|.a|1")]);
    let body = format!("\u{feff}{}", r#"{"a": 1}"#);
    let tr = evaluate_target(&t, FetchOutcome::Response(200, body), &clock());
    assert_eq!(tr.match_result.len(), 1);
    assert!(tr.match_result[0].matched);
}

#[test]
fn keyword_result_skips_malformed_rule_and_misses() {
    let now = clock();
    let found = QueryOutcome::Found(JsonScalar::Str("x".to_string()));
    assert!(keyword_result("k", "bad", found, &now).is_none());
    assert!(keyword_result("k", "N|.a|1", QueryOutcome::Missing, &now).is_none());
    assert!(keyword_result("k", "N|.a|1", QueryOutcome::Unsupported, &now).is_none());
}

#[test]
fn keyword_result_time_rule_uses_threshold() {
    let now = clock();
    let outcome = extract_scalar(r#"{"ts": "1970-01-01 00:00:00"}"#, ".ts");
    let mr = keyword_result("fresh", "T|.ts|300s|%Y-%m-%d %H:%M:%S", outcome, &now).unwrap();
    assert!(mr.found);
    assert!(!mr.matched);
    assert!(mr.message.contains("outside the time range"));
}

#[test]
fn excluded_target_never_appears() {
    let mut excluded = plain_target("skipped", vec![]);
    excluded.exclude = true;
    let live = plain_target("live", vec![]);
    let mut engine = Engine::new(vec![excluded, live]);
    match engine.next_action() {
        EngineAction::FetchTarget { url, auth } => {
            assert_eq!(url, "http://host/live");
            assert!(!auth);
        },
        _ => panic!("expected a target fetch"),
    }
    engine.provide_response(FetchOutcome::Response(200, "{}".to_string()), &clock());
    assert!(matches!(engine.next_action(), EngineAction::Finished));
    assert_eq!(engine.results.len(), 1);
    assert_eq!(engine.results[0].name, "live");
}

#[test]
fn gated_out_target_never_appears() {
    let mut gated = plain_target("gated", vec![]);
    gated.condition = Some(Condition {
        url: "http://host/gate".to_string(),
        vars: vec![("level".to_string(), ".level".to_string())],
        when: "level > 2".to_string(),
    });
    let mut engine = Engine::new(vec![gated]);
    match engine.next_action() {
        EngineAction::FetchCondition { url } => assert_eq!(url, "http://host/gate"),
        _ => panic!("expected a condition fetch"),
    }
    let gate = engine.provide_condition_body(Some(r#"{"level": 1}"#));
    assert!(!gate);
    assert!(matches!(engine.next_action(), EngineAction::Finished));
    assert!(engine.results.is_empty());
}

#[test]
fn open_gate_lets_the_target_run() {
    let mut gated = plain_target("gated", vec![]);
    gated.condition = Some(Condition {
        url: "http://host/gate".to_string(),
        vars: vec![("level".to_string(), ".level".to_string())],
        when: "level > 2".to_string(),
    });
    let mut engine = Engine::new(vec![gated]);
    assert!(matches!(engine.next_action(), EngineAction::FetchCondition { .. }));
    let gate = engine.provide_condition_body(Some(r#"{"level": 3}"#));
    assert!(gate);
    assert!(matches!(engine.next_action(), EngineAction::FetchTarget { .. }));
    engine.provide_response(FetchOutcome::Response(204, String::new()), &clock());
    assert_eq!(engine.results.len(), 1);
    assert_eq!(engine.results[0].name, "gated");
    assert_eq!(engine.results[0].status, 204);
    assert!(engine.results[0].success);
}

#[test]
fn failed_condition_fetch_skips_the_target() {
    let mut gated = plain_target("gated", vec![]);
    gated.condition = Some(Condition {
        url: "http://host/gate".to_string(),
        vars: vec![],
        when: "true".to_string(),
    });
    let mut engine = Engine::new(vec![gated]);
    assert!(!engine.provide_condition_body(None));
    assert!(engine.results.is_empty());
    assert!(matches!(engine.next_action(), EngineAction::Finished));
}

#[test]
fn results_keep_configuration_order() {
    let a = plain_target("a", vec![]);
    let b = plain_target("b", vec![]);
    let mut engine = Engine::new(vec![a, b]);
    engine.provide_response(FetchOutcome::Response(200, "{}".to_string()), &clock());
    engine.provide_response(FetchOutcome::Failure("down".to_string()), &clock());
    assert_eq!(engine.results.len(), 2);
    assert_eq!(engine.results[0].name, "a");
    assert_eq!(engine.results[1].name, "b");
    assert_eq!(engine.results[1].status, 400);
}

#[test]
fn identical_inputs_give_identical_match_results() {
    let now = clock();
    let outcome = || QueryOutcome::Found(JsonScalar::Str("6.5".to_string()));
    let r1 = keyword_result("k", "N|.a|6.5", outcome(), &now).unwrap();
    let r2 = keyword_result("k", "N|.a|6.5", outcome(), &now).unwrap();
    assert_eq!(r1.keyword, r2.keyword);
    assert_eq!(r1.found, r2.found);
    assert_eq!(r1.matched, r2.matched);
    assert_eq!(r1.message, r2.message);
}

#[test]
fn empty_rule_path_skips_the_keyword() {
    let t = plain_target("svc", vec![("odd", "N||5")]);
    let tr = evaluate_target(&t, FetchOutcome::Response(200, "5".to_string()), &clock());
    assert!(tr.success);
    assert!(tr.match_result.is_empty());
}

use mix_agent::condition::{evaluate_condition, evaluate_when, CondValue, Condition};

fn gate(vars: Vec<(&str, &str)>, when: &str) -> Condition {
    Condition {
        url: String::new(),
        vars: vars.iter().map(|(k, v)| (k.to_string(), v.to_string())).collect(),
        when: when.to_string(),
    }
}

#[test]
fn numeric_comparison_opens_the_gate() {
    let c = gate(vec![("level", ".level")], "level > 2");
    assert!(evaluate_condition(&c, Some(r#"{"level": 3}"#)));
    assert!(!evaluate_condition(&c, Some(r#"{"level": 2}"#)));
}

#[test]
fn fetch_failure_closes_the_gate() {
    let c = gate(vec![("level", ".level")], "level > 2");
    assert!(!evaluate_condition(&c, None));
}

#[test]
fn unparseable_document_closes_the_gate() {
    let c = gate(vec![("level", ".level")], "level > 2");
    assert!(!evaluate_condition(&c, Some("not json")));
}

#[test]
fn unbound_variable_closes_the_gate() {
    let c = gate(vec![("level", ".missing")], "level > 2");
    assert!(!evaluate_condition(&c, Some(r#"{"level": 3}"#)));
}

#[test]
fn string_and_boolean_variables_evaluate() {
    let c = gate(vec![("state", ".state"), ("up", ".up")], "state == \"ok\" && up");
    assert!(evaluate_condition(&c, Some(r#"{"state": "ok", "up": true}"#)));
    assert!(!evaluate_condition(&c, Some(r#"{"state": "bad", "up": true}"#)));
}

#[test]
fn fractional_number_is_bound_as_a_float() {
    let c = gate(vec![("level", ".level")], "level > 2.4");
    assert!(evaluate_condition(&c, Some(r#"{"level": 2.5}"#)));
    assert!(!evaluate_condition(&c, Some(r#"{"level": 2.3}"#)));
}

#[test]
fn explicit_bindings_evaluate() {
    let bindings = vec![
        ("level".to_string(), CondValue::Int(3)),
        ("name".to_string(), CondValue::Str("api".to_string())),
    ];
    assert!(evaluate_when("level > 2 && name == \"api\"", &bindings));
    assert!(!evaluate_when("level > 5", &bindings));
    assert!(!evaluate_when("nonsense >", &bindings));
}

#[test]
fn empty_variable_path_leaves_it_unbound() {
    let c = gate(vec![("level", "")], "level > 2");
    assert!(!evaluate_condition(&c, Some(r#"{"level": 3}"#)));
    assert!(!evaluate_condition(&c, Some("3")));
}

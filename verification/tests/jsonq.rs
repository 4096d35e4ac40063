use mix_agent::jsonq::{extract_scalar, get_token, scalar_text, JsonScalar, QueryOutcome};

#[test]
fn extracts_number_by_path() {
    let doc = r#"{"data":{"defaultFunction":[{"sort":6.5}]}}"#;
    let out = extract_scalar(doc, ".data.defaultFunction[0].sort");
    match out {
        QueryOutcome::Found(JsonScalar::Num { text, int_val }) => {
            assert_eq!(text, "6.5");
            assert_eq!(int_val, None);
        },
        _ => panic!("expected a number scalar"),
    }
}

#[test]
fn extracts_integer_with_its_value() {
    let out = extract_scalar(r#"{"level": 3}"#, ".level");
    match out {
        QueryOutcome::Found(JsonScalar::Num { text, int_val }) => {
            assert_eq!(text, "3");
            assert_eq!(int_val, Some(3));
        },
        _ => panic!("expected a number scalar"),
    }
}

#[test]
fn extracts_string_and_bool() {
    let out = extract_scalar(r#"{"a": "hi", "b": true}"#, ".a");
    assert!(matches!(out, QueryOutcome::Found(JsonScalar::Str(s)) if s == "hi"));
    let out2 = extract_scalar(r#"{"a": "hi", "b": true}"#, ".b");
    match out2 {
        QueryOutcome::Found(scalar) => assert_eq!(scalar_text(&scalar), "true"),
        _ => panic!("expected a boolean scalar"),
    }
}

#[test]
fn missing_path_yields_missing() {
    let out = extract_scalar(r#"{"a": 1}"#, ".b");
    assert!(matches!(out, QueryOutcome::Missing));
}

#[test]
fn non_scalar_node_is_unsupported() {
    let doc = r#"{"a": {"b": 1}, "c": [1, 2], "d": null}"#;
    assert!(matches!(extract_scalar(doc, ".a"), QueryOutcome::Unsupported));
    assert!(matches!(extract_scalar(doc, ".c"), QueryOutcome::Unsupported));
    assert!(matches!(extract_scalar(doc, ".d"), QueryOutcome::Unsupported));
}

#[test]
fn unparseable_body_yields_missing() {
    assert!(matches!(extract_scalar("not json", ".a"), QueryOutcome::Missing));
}

#[test]
fn token_is_the_string_at_the_path() {
    assert_eq!(get_token(r#"{"data":{"token":"abc"}}"#, ".data.token"), Some("abc".to_string()));
    assert_eq!(get_token(r#"{"data":{"token":42}}"#, ".data.token"), None);
    assert_eq!(get_token("garbage", ".data.token"), None);
}

#[test]
fn empty_path_is_missing_not_a_panic() {
    assert!(matches!(extract_scalar("5", ""), QueryOutcome::Missing));
    assert!(matches!(extract_scalar(r#"{"a": 1}"#, ""), QueryOutcome::Missing));
    assert!(matches!(extract_scalar("true", ""), QueryOutcome::Missing));
}

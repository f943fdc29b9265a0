use serde_json::Value;
use tailview::ocpp::{parse_json, Message};

#[test]
fn decodes_a_call_message() {
    let msg = parse_json(r#"[2, "19223201", "BootNotification", {"vendor": "X"}]"#).unwrap();
    match msg {
        Message::Call { unique_id, action, data } => {
            assert_eq!(unique_id, "19223201");
            assert_eq!(action, "BootNotification");
            let mut expected = serde_json::Map::new();
            expected.insert("vendor".to_string(), Value::String("X".to_string()));
            assert_eq!(data, expected);
        }
        other => panic!("expected a call, got {:?}", other),
    }
}

#[test]
fn decodes_a_call_result_message() {
    let msg = parse_json(r#"[3, "19223201", {"status": "Accepted"}]"#).unwrap();
    match msg {
        Message::CallResult { unique_id, data } => {
            assert_eq!(unique_id, "19223201");
            let mut expected = serde_json::Map::new();
            expected.insert("status".to_string(), Value::String("Accepted".to_string()));
            assert_eq!(data, expected);
        }
        other => panic!("expected a call result, got {:?}", other),
    }
}

#[test]
fn decodes_a_call_error_message() {
    let msg = parse_json(r#"[4, "19223201", "NotSupported", "bad action"]"#).unwrap();
    match msg {
        Message::CallError { unique_id, error_code, error_description } => {
            assert_eq!(unique_id, "19223201");
            assert_eq!(error_code, "NotSupported");
            assert_eq!(error_description, "bad action");
        }
        other => panic!("expected a call error, got {:?}", other),
    }
}

#[test]
fn rejects_text_that_is_not_json() {
    assert!(parse_json("not json at all").is_err());
    assert!(parse_json("").is_err());
}

#[test]
fn rejects_payloads_that_are_not_arrays() {
    assert!(parse_json(r#"{"a": 1}"#).is_err());
    assert!(parse_json("7").is_err());
    assert!(parse_json(r#""text""#).is_err());
}

#[test]
fn rejects_a_missing_or_non_numeric_kind() {
    assert!(parse_json("[]").is_err());
    assert!(parse_json(r#"["2", "id", "Action", {}]"#).is_err());
    assert!(parse_json(r#"[2.5, "id", "Action", {}]"#).is_err());
}

#[test]
fn rejects_a_missing_or_non_string_unique_id() {
    assert!(parse_json("[2]").is_err());
    assert!(parse_json(r#"[2, 17, "Action", {}]"#).is_err());
}

#[test]
fn rejects_an_unknown_kind_number() {
    assert!(parse_json(r#"[5, "id", "Action", {}]"#).is_err());
    assert!(parse_json(r#"[1, "id"]"#).is_err());
}

#[test]
fn rejects_a_call_with_missing_or_ill_typed_fields() {
    assert!(parse_json(r#"[2, "id"]"#).is_err());
    assert!(parse_json(r#"[2, "id", "Action"]"#).is_err());
    assert!(parse_json(r#"[2, "id", 9, {}]"#).is_err());
    assert!(parse_json(r#"[2, "id", "Action", []]"#).is_err());
}

#[test]
fn rejects_a_call_result_without_an_object() {
    assert!(parse_json(r#"[3, "id"]"#).is_err());
    assert!(parse_json(r#"[3, "id", "text"]"#).is_err());
}

#[test]
fn rejects_a_call_error_with_missing_texts() {
    assert!(parse_json(r#"[4, "id", "Code"]"#).is_err());
    assert!(parse_json(r#"[4, "id", "Code", {}]"#).is_err());
    assert!(parse_json(r#"[4, "id", 1, "desc"]"#).is_err());
}

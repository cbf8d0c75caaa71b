use deploy_smoke::payload::{batch_payload_ready, batch_ready, payload_under_review, review_confirmed};
use serde_json::Value;

fn json(text: &str) -> Value {
    serde_json::from_str(text).unwrap()
}

#[test]
fn marker_text_is_not_ready() {
    assert!(!batch_ready(Some("NotReady")));
    assert!(!batch_ready(Some("status: NotReady yet")));
}

#[test]
fn other_text_or_none_is_ready() {
    assert!(batch_ready(Some("Ready")));
    assert!(batch_ready(Some("")));
    assert!(batch_ready(Some("notready")));
    assert!(batch_ready(None));
}

#[test]
fn batch_payload_first_element_not_ready() {
    assert!(!batch_payload_ready(&json(r#"["NotReady", "x"]"#)));
}

#[test]
fn batch_payload_other_first_elements_are_ready() {
    assert!(batch_payload_ready(&json(r#"[{"rating": 3}]"#)));
    assert!(batch_payload_ready(&json(r#"["Done"]"#)));
    assert!(batch_payload_ready(&json(r#"[]"#)));
    assert!(batch_payload_ready(&json(r#"[null, "NotReady"]"#)));
    assert!(batch_payload_ready(&json(r#"{"a": "NotReady"}"#)));
}

#[test]
fn review_flag_must_be_true() {
    assert!(review_confirmed(Some(true)));
    assert!(!review_confirmed(Some(false)));
    assert!(!review_confirmed(None));
}

#[test]
fn under_review_member_read_from_payload() {
    assert!(payload_under_review(&json(r#"{"underReview": true}"#)));
    assert!(!payload_under_review(&json(r#"{"underReview": false}"#)));
    assert!(!payload_under_review(&json(r#"{"other": true}"#)));
    assert!(!payload_under_review(&json(r#"{"underReview": "true"}"#)));
    assert!(!payload_under_review(&json(r#"[true]"#)));
}

use gemini_bridge::{error_payload, handle_response, BridgeError};
use serde_json::{Number, Value};

fn response_body(text: &str) -> String {
    let mut part = serde_json::Map::new();
    part.insert("text".to_string(), Value::String(text.to_string()));
    let mut content = serde_json::Map::new();
    content.insert("parts".to_string(), Value::Array(vec![Value::Object(part)]));
    let mut cand = serde_json::Map::new();
    cand.insert("content".to_string(), Value::Object(content));
    let mut root = serde_json::Map::new();
    root.insert("candidates".to_string(), Value::Array(vec![Value::Object(cand)]));
    serde_json::to_string(&Value::Object(root)).unwrap()
}

fn inner_todo_text() -> String {
    let mut issue = serde_json::Map::new();
    issue.insert("title".to_string(), Value::String("窓口手順の見直し".to_string()));
    issue.insert("description".to_string(), Value::String("説明".to_string()));
    issue.insert(
        "estimated_working_hours".to_string(),
        Value::Number(Number::from(4)),
    );
    let mut todo = serde_json::Map::new();
    todo.insert("title".to_string(), Value::String("事象タイトル".to_string()));
    todo.insert("summary".to_string(), Value::String("要約".to_string()));
    todo.insert("issues".to_string(), Value::Array(vec![Value::Object(issue)]));
    serde_json::to_string(&Value::Object(todo)).unwrap()
}

#[test]
fn full_pipeline_decodes_a_todo() {
    let body = response_body(&inner_todo_text());
    let todo = handle_response(&body).unwrap();
    assert_eq!(todo.title, Some("事象タイトル".to_string()));
    assert_eq!(todo.summary, Some("要約".to_string()));
    let issues = todo.issues.unwrap();
    assert_eq!(issues.len(), 1);
    assert_eq!(issues[0].title, Some("窓口手順の見直し".to_string()));
    assert_eq!(issues[0].description, Some("説明".to_string()));
    assert_eq!(issues[0].estimated_working_hours, Some(4));
    assert_eq!(todo.created_at, None);
}

#[test]
fn invalid_body_is_response_not_json() {
    assert_eq!(handle_response("not json at all"), Err(BridgeError::ResponseNotJson));
    assert_eq!(handle_response(""), Err(BridgeError::ResponseNotJson));
}

#[test]
fn empty_candidates_body_is_missing_candidate() {
    let mut root = serde_json::Map::new();
    root.insert("candidates".to_string(), Value::Array(vec![]));
    let body = serde_json::to_string(&Value::Object(root)).unwrap();
    assert_eq!(handle_response(&body), Err(BridgeError::MissingCandidate));
}

#[test]
fn parts_of_wrong_shape_is_malformed_parts() {
    let mut content = serde_json::Map::new();
    content.insert("parts".to_string(), Value::String("oops".to_string()));
    let mut cand = serde_json::Map::new();
    cand.insert("content".to_string(), Value::Object(content));
    let mut root = serde_json::Map::new();
    root.insert("candidates".to_string(), Value::Array(vec![Value::Object(cand)]));
    let body = serde_json::to_string(&Value::Object(root)).unwrap();
    assert_eq!(handle_response(&body), Err(BridgeError::MalformedParts));
}

#[test]
fn inner_text_that_is_not_json_is_schema_decode() {
    let body = response_body("this is prose, not JSON");
    assert_eq!(handle_response(&body), Err(BridgeError::SchemaDecode));
}

#[test]
fn inner_text_of_wrong_shape_is_schema_decode() {
    let mut todo = serde_json::Map::new();
    todo.insert("title".to_string(), Value::Number(Number::from(9)));
    let inner = serde_json::to_string(&Value::Object(todo)).unwrap();
    let body = response_body(&inner);
    assert_eq!(handle_response(&body), Err(BridgeError::SchemaDecode));
}

#[test]
fn fractional_hours_are_schema_decode() {
    let mut issue = serde_json::Map::new();
    issue.insert(
        "estimated_working_hours".to_string(),
        Value::Number(Number::from_f64(3.5).unwrap()),
    );
    let mut todo = serde_json::Map::new();
    todo.insert("issues".to_string(), Value::Array(vec![Value::Object(issue)]));
    let inner = serde_json::to_string(&Value::Object(todo)).unwrap();
    let body = response_body(&inner);
    assert_eq!(handle_response(&body), Err(BridgeError::SchemaDecode));
}

#[test]
fn error_payload_wraps_and_escapes_the_message() {
    assert_eq!(error_payload("boom"), "{\"error\":\"boom\"}");
    assert_eq!(error_payload("a \"quoted\" part"), "{\"error\":\"a \\\"quoted\\\" part\"}");
    let parsed: Value = serde_json::from_str(&error_payload("line\nbreak")).unwrap();
    assert_eq!(parsed["error"].as_str(), Some("line\nbreak"));
}

#[test]
fn message_texts_match_the_error_kinds() {
    assert_eq!(
        BridgeError::MissingCandidate.message(),
        "`candidates` 配列の最初の要素、またはその中の `content` フィールドが見つかりませんでした。"
    );
    assert_eq!(
        BridgeError::MalformedParts.message(),
        "`content.parts` が配列でないか、見つかりませんでした。"
    );
    assert_eq!(BridgeError::Transport("no route".to_string()).message(), "no route");
}

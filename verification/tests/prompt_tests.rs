use gemini_bridge::escape::json_escape;
use gemini_bridge::{compose_prompt, request_body};
use serde_json::Value;

#[test]
fn empty_input_still_gives_a_valid_payload() {
    let prompt = compose_prompt("");
    assert!(!prompt.is_empty());
    let body = request_body("");
    let parsed: Value = serde_json::from_str(&body).unwrap();
    assert_eq!(
        parsed["contents"][0]["parts"][0]["text"].as_str(),
        Some(prompt.as_str())
    );
}

#[test]
fn prompt_embeds_the_input_verbatim() {
    let prompt = compose_prompt("サーバーが落ちた");
    assert!(prompt.contains("サーバーが落ちた"));
    assert!(prompt.starts_with("以下は現在直面している"));
    assert!(prompt.contains("以下本文"));
    assert!(prompt.ends_with("\n```"));
}

#[test]
fn prompt_grows_by_exactly_the_input() {
    let empty = compose_prompt("").chars().count();
    let with_input = compose_prompt("abc").chars().count();
    assert_eq!(with_input, empty + 3);
}

#[test]
fn request_body_is_json_with_the_fixed_generation_config() {
    let body = request_body("問題の説明");
    let parsed: Value = serde_json::from_str(&body).unwrap();
    let config = &parsed["generationConfig"];
    assert_eq!(config["temperature"].as_f64(), Some(0.1));
    assert_eq!(config["maxOutputTokens"].as_i64(), Some(2048));
    assert_eq!(config["topK"].as_i64(), Some(1));
    assert_eq!(config["topP"].as_f64(), Some(0.1));
    assert_eq!(config["response_mime_type"].as_str(), Some("application/json"));
    let schema = &config["response_schema"];
    assert_eq!(schema["type"].as_str(), Some("OBJECT"));
    assert_eq!(
        schema["required"],
        Value::Array(vec![
            Value::String("title".to_string()),
            Value::String("summary".to_string()),
            Value::String("issues".to_string()),
        ])
    );
    assert_eq!(
        schema["properties"]["issues"]["items"]["properties"]["estimated_working_hours"]["type"]
            .as_str(),
        Some("INTEGER")
    );
}

#[test]
fn request_body_survives_hostile_input() {
    let input = "quote \" backslash \\ newline \n tab \t done";
    let body = request_body(input);
    let parsed: Value = serde_json::from_str(&body).unwrap();
    let text = parsed["contents"][0]["parts"][0]["text"].as_str().unwrap();
    assert_eq!(text, compose_prompt(input));
    assert!(text.contains(input));
}

#[test]
fn escape_handles_the_special_characters() {
    assert_eq!(json_escape("plain"), "plain");
    assert_eq!(json_escape("a\"b"), "a\\\"b");
    assert_eq!(json_escape("a\\b"), "a\\\\b");
    assert_eq!(json_escape("a\nb\rc\td"), "a\\nb\\rc\\td");
    assert_eq!(json_escape("\u{0}\u{1f}"), "\\u0000\\u001f");
    assert_eq!(json_escape(""), "");
    assert_eq!(json_escape("日本語はそのまま"), "日本語はそのまま");
}

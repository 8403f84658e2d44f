use gemini_bridge::{handle_response, issue_json_text, todo_json_text, Issue, Todo};
use serde_json::Value;

fn s(x: &str) -> String {
    x.to_string()
}

#[test]
fn all_none_todo_renders_null_fields() {
    let todo = Todo { title: None, summary: None, issues: None, created_at: None };
    assert_eq!(
        todo_json_text(&todo),
        "{\"title\":null,\"summary\":null,\"issues\":null,\"created_at\":null}"
    );
}

#[test]
fn rendered_todo_is_the_expected_json_text() {
    let todo = Todo {
        title: Some(s("T")),
        summary: Some(s("S")),
        issues: Some(vec![Issue {
            title: Some(s("i")),
            description: None,
            estimated_working_hours: Some(12),
        }]),
        created_at: None,
    };
    assert_eq!(
        todo_json_text(&todo),
        "{\"title\":\"T\",\"summary\":\"S\",\"issues\":[{\"title\":\"i\",\"description\":null,\"estimated_working_hours\":12}],\"created_at\":null}"
    );
}

#[test]
fn rendered_text_escapes_and_parses_back() {
    let todo = Todo {
        title: Some(s("a \"quoted\"\ntitle")),
        summary: None,
        issues: None,
        created_at: Some(s("2024-05-01T09:30:00Z")),
    };
    let text = todo_json_text(&todo);
    let parsed: Value = serde_json::from_str(&text).unwrap();
    assert_eq!(parsed["title"].as_str(), Some("a \"quoted\"\ntitle"));
    assert_eq!(parsed["created_at"].as_str(), Some("2024-05-01T09:30:00Z"));
    assert!(parsed["summary"].is_null());
}

#[test]
fn issue_renders_negative_and_extreme_hours() {
    let issue = Issue { title: None, description: None, estimated_working_hours: Some(-7) };
    assert_eq!(
        issue_json_text(&issue),
        "{\"title\":null,\"description\":null,\"estimated_working_hours\":-7}"
    );
    let extreme = Issue { title: None, description: None, estimated_working_hours: Some(i16::MIN) };
    let text = issue_json_text(&extreme);
    assert!(text.contains("\"estimated_working_hours\":-32768"));
    let top = Issue { title: None, description: None, estimated_working_hours: Some(i16::MAX) };
    assert!(issue_json_text(&top).contains("\"estimated_working_hours\":32767"));
}

#[test]
fn rendered_todo_fed_back_through_the_pipeline_is_equal() {
    let todo = Todo {
        title: Some(s("事象タイトル")),
        summary: Some(s("backslash \\ and \"quote\"")),
        issues: Some(vec![
            Issue {
                title: Some(s("one")),
                description: Some(s("line\nbreak")),
                estimated_working_hours: Some(0),
            },
            Issue { title: None, description: None, estimated_working_hours: None },
        ]),
        created_at: Some(s("2024-05-01T09:30:00Z")),
    };
    let inner = todo_json_text(&todo);
    let mut part = serde_json::Map::new();
    part.insert("text".to_string(), Value::String(inner));
    let mut content = serde_json::Map::new();
    content.insert("parts".to_string(), Value::Array(vec![Value::Object(part)]));
    let mut cand = serde_json::Map::new();
    cand.insert("content".to_string(), Value::Object(content));
    let mut root = serde_json::Map::new();
    root.insert("candidates".to_string(), Value::Array(vec![Value::Object(cand)]));
    let body = serde_json::to_string(&Value::Object(root)).unwrap();
    assert_eq!(handle_response(&body), Ok(todo));
}

use gemini_bridge::{extract_text, ExtractError, JsonValue};

fn s(x: &str) -> String {
    x.to_string()
}

fn text_part(t: &str) -> JsonValue {
    JsonValue::Obj(vec![(s("text"), JsonValue::Str(s(t)))])
}

fn content_with_parts(parts: JsonValue) -> JsonValue {
    JsonValue::Obj(vec![(s("content"), JsonValue::Obj(vec![(s("parts"), parts)]))])
}

fn response_doc(parts: Vec<JsonValue>) -> JsonValue {
    JsonValue::Obj(vec![(
        s("candidates"),
        JsonValue::Arr(vec![content_with_parts(JsonValue::Arr(parts))]),
    )])
}

#[test]
fn one_candidate_two_parts_concatenated() {
    let doc = response_doc(vec![text_part("A"), text_part("B")]);
    assert_eq!(extract_text(&doc), Ok(s("AB")));
}

#[test]
fn empty_candidates_is_missing_candidate() {
    let doc = JsonValue::Obj(vec![(s("candidates"), JsonValue::Arr(vec![]))]);
    assert_eq!(extract_text(&doc), Err(ExtractError::MissingCandidate));
}

#[test]
fn absent_candidates_is_missing_candidate() {
    let doc = JsonValue::Obj(vec![(s("error"), JsonValue::Str(s("quota")))]);
    assert_eq!(extract_text(&doc), Err(ExtractError::MissingCandidate));
}

#[test]
fn candidates_not_array_is_missing_candidate() {
    let doc = JsonValue::Obj(vec![(s("candidates"), JsonValue::Str(s("nope")))]);
    assert_eq!(extract_text(&doc), Err(ExtractError::MissingCandidate));
}

#[test]
fn candidate_not_object_is_missing_candidate() {
    let doc = JsonValue::Obj(vec![(s("candidates"), JsonValue::Arr(vec![JsonValue::Int(3)]))]);
    assert_eq!(extract_text(&doc), Err(ExtractError::MissingCandidate));
}

#[test]
fn candidate_without_content_is_missing_candidate() {
    let doc = JsonValue::Obj(vec![(
        s("candidates"),
        JsonValue::Arr(vec![JsonValue::Obj(vec![(s("finishReason"), JsonValue::Str(s("STOP")))])]),
    )]);
    assert_eq!(extract_text(&doc), Err(ExtractError::MissingCandidate));
}

#[test]
fn non_array_parts_is_malformed_parts() {
    let doc = JsonValue::Obj(vec![(
        s("candidates"),
        JsonValue::Arr(vec![content_with_parts(JsonValue::Str(s("not an array")))]),
    )]);
    assert_eq!(extract_text(&doc), Err(ExtractError::MalformedParts));
}

#[test]
fn absent_parts_is_malformed_parts() {
    let doc = JsonValue::Obj(vec![(
        s("candidates"),
        JsonValue::Arr(vec![JsonValue::Obj(vec![(
            s("content"),
            JsonValue::Obj(vec![(s("role"), JsonValue::Str(s("model")))]),
        )])]),
    )]);
    assert_eq!(extract_text(&doc), Err(ExtractError::MalformedParts));
}

#[test]
fn content_not_object_is_malformed_parts() {
    let doc = JsonValue::Obj(vec![(
        s("candidates"),
        JsonValue::Arr(vec![JsonValue::Obj(vec![(s("content"), JsonValue::Int(1))])]),
    )]);
    assert_eq!(extract_text(&doc), Err(ExtractError::MalformedParts));
}

#[test]
fn mixed_parts_skip_non_text_entries() {
    let doc = response_doc(vec![
        text_part("A"),
        JsonValue::Obj(vec![(s("inlineData"), JsonValue::Str(s("...")))]),
        JsonValue::Obj(vec![(s("text"), JsonValue::Int(7))]),
        JsonValue::Str(s("bare string part")),
        text_part("B"),
    ]);
    assert_eq!(extract_text(&doc), Ok(s("AB")));
}

#[test]
fn empty_parts_give_the_empty_string() {
    let doc = response_doc(vec![]);
    assert_eq!(extract_text(&doc), Ok(s("")));
}

#[test]
fn second_candidate_is_ignored() {
    let good = content_with_parts(JsonValue::Arr(vec![text_part("first")]));
    let other = content_with_parts(JsonValue::Arr(vec![text_part("second")]));
    let doc = JsonValue::Obj(vec![(s("candidates"), JsonValue::Arr(vec![good, other]))]);
    assert_eq!(extract_text(&doc), Ok(s("first")));
}

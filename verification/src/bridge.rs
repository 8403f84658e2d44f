//! The response-side operation of the bridge: response body text in,
//! decoded `Todo` or a typed error out, and the error payload handed to
//! the caller boundary.

use vstd::prelude::*;

use crate::escape::{json_escape, spec_escape};
use crate::extract::{extract_text, spec_extract, ExtractError};
use crate::parse::{parse_json, spec_parse};
use crate::schema::{spec_todo_of, todo_from_json, Todo, TodoView};

verus! {

/// Everything that can go wrong on the way from the outbound call to a
/// decoded `Todo`.
#[derive(Debug, Clone, PartialEq, Eq)]
pub enum BridgeError {
    /// The outbound call itself failed; the caller supplies the message.
    Transport(String),
    /// The response body is not valid JSON.
    ResponseNotJson,
    /// `candidates` is missing, not an array or empty, or its first
    /// entry has no `content` field.
    MissingCandidate,
    /// The candidate's `content.parts` is missing or not an array.
    MalformedParts,
    /// The extracted text is not valid JSON of the Todo shape.
    SchemaDecode,
}

impl BridgeError {
    /// The message text for the caller boundary.
    pub fn message(&self) -> (r: String)
        ensures
            match *self {
                BridgeError::Transport(m) => r@ == m@,
                BridgeError::ResponseNotJson => r@ == "the response body is not valid JSON"@,
                BridgeError::MissingCandidate => r@
                    == "`candidates` 配列の最初の要素、またはその中の `content` フィールドが見つかりませんでした。"@,
                BridgeError::MalformedParts => r@
                    == "`content.parts` が配列でないか、見つかりませんでした。"@,
                BridgeError::SchemaDecode => r@
                    == "the response text does not decode to the Todo shape"@,
            },
    {
        match self {
            BridgeError::Transport(m) => m.clone(),
            BridgeError::ResponseNotJson => String::from_str(
                "the response body is not valid JSON",
            ),
            BridgeError::MissingCandidate => String::from_str(
                "`candidates` 配列の最初の要素、またはその中の `content` フィールドが見つかりませんでした。",
            ),
            BridgeError::MalformedParts => String::from_str(
                "`content.parts` が配列でないか、見つかりませんでした。",
            ),
            BridgeError::SchemaDecode => String::from_str(
                "the response text does not decode to the Todo shape",
            ),
        }
    }
}

/// What handling a response body yields, for every body: the decoded
/// Todo on the one happy path, and which failure otherwise. The body
/// must parse as JSON, the text fragments are recovered from it, and
/// that text must itself parse and fit the Todo shape.
pub open spec fn spec_handle(body: Seq<char>) -> Result<TodoView, BridgeError> {
    match spec_parse(body) {
        None => Err(BridgeError::ResponseNotJson),
        Some(doc) => match spec_extract(doc) {
            Err(ExtractError::MissingCandidate) => Err(BridgeError::MissingCandidate),
            Err(ExtractError::MalformedParts) => Err(BridgeError::MalformedParts),
            Ok(text) => match spec_parse(text) {
                None => Err(BridgeError::SchemaDecode),
                Some(inner) => match spec_todo_of(inner) {
                    None => Err(BridgeError::SchemaDecode),
                    Some(t) => Ok(t),
                },
            },
        },
    }
}

/// Turns the raw response body of the generative-content call into the
/// decoded `Todo`, or says which step refused it.
pub fn handle_response(body: &str) -> (r: Result<Todo, BridgeError>)
    ensures
        match r {
            Ok(t) => spec_handle(body@) == Ok::<TodoView, BridgeError>(t@),
            Err(e) => spec_handle(body@) == Err::<TodoView, BridgeError>(e),
        },
{
    let doc = match parse_json(body) {
        Some(d) => d,
        None => {
            return Err(BridgeError::ResponseNotJson);
        },
    };
    let text = match extract_text(&doc) {
        Ok(t) => t,
        Err(ExtractError::MissingCandidate) => {
            return Err(BridgeError::MissingCandidate);
        },
        Err(ExtractError::MalformedParts) => {
            return Err(BridgeError::MalformedParts);
        },
    };
    let inner = match parse_json(text.as_str()) {
        Some(d) => d,
        None => {
            return Err(BridgeError::SchemaDecode);
        },
    };
    match todo_from_json(&inner) {
        Some(t) => Ok(t),
        None => Err(BridgeError::SchemaDecode),
    }
}

/// The error value wrapped for the caller boundary:
/// `{"error": <message>}` as JSON text.
pub fn error_payload(msg: &str) -> (r: String)
    ensures
        r@ == "{\"error\":\""@ + spec_escape(msg@) + "\"}"@,
{
    let escaped = json_escape(msg);
    let mut out = String::from_str("{\"error\":\"");
    out.append(escaped.as_str());
    out.append("\"}");
    out
}

} // verus!

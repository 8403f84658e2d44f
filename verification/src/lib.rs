//! Bridge from free-text problem descriptions to a structured Todo:
//! composes the fixed instruction prompt for a generative-language API,
//! walks the untrusted JSON response for its text fragments, and decodes
//! the concatenated text into the Todo / Issue schema.

pub mod bridge;
pub mod escape;
pub mod extract;
pub mod json;
pub mod parse;
pub mod prompt;
pub mod render;
pub mod schema;

pub use bridge::{error_payload, handle_response, BridgeError};
pub use extract::{extract_text, ExtractError};
pub use json::JsonValue;
pub use prompt::{compose_prompt, request_body};
pub use render::{issue_json_text, todo_json_text};
pub use schema::{issue_from_json, issue_to_json, todo_from_json, todo_to_json, Issue, Todo};

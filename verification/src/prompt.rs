//! The prompt composer and the request body builder: the fixed
//! instruction text with the caller's input embedded verbatim, and the
//! complete JSON body sent to the generative-content endpoint, with its
//! fixed generation parameters and output schema.

use vstd::prelude::*;

use crate::escape::{json_escape, spec_escape};

verus! {

/// The instruction text that precedes the caller's input.
pub open spec fn spec_prompt_head() -> Seq<char> {
    "以下は現在直面している対応するべき問題または事象です。添付した指定構造に分解・分類し、TODO及びTaskに因子分解し日本語で出力してください。\n\n構造化出力指定型各フィールドの説明:\n- Todo: 事象のタイトル、概要、関連するIssueのリスト、作成日時を含む。\n    - title: 事象のタイトル（短く端的に\n    - summary: 事象の概要（要約\n    - issues: 事象に関連するIssueのリスト\n        - title: Issueの名称\n        - description: Issueの対処法・問題解決法などの説明\n        - estimated_working_hours: Issueの見積もり作業時間\n\nいずれも大切なフィールドです。\nフィールドが満ちていることを期待します。\n\n対象: \n- デジタル非ネイティブの日本語話者\n- 非プログラマ\n- 役割: ディレクター\n- 具体的な職務: 窓口、折衝、判断や評価、知識や話術差異を翻訳する業務が多い\n- 部下に仕事を割り振り、進捗を管理する\n\n\n\n出力時の注意点:\n- **重複出力**: 重複出力、または同じ内容の出力は避けてください。\n- **構造化**: Raw JSONとして構造化されたデータを期待します。\n\n\n以下本文: \n```\n"@
}

/// The text that closes the instruction after the caller's input.
pub open spec fn spec_prompt_tail() -> Seq<char> {
    "\n```"@
}

/// The complete instruction payload: the fixed text with the input
/// embedded verbatim. Any input is accepted, the empty string included.
pub open spec fn spec_prompt(input: Seq<char>) -> Seq<char> {
    spec_prompt_head() + input + spec_prompt_tail()
}

/// Builds the instruction payload for the given raw input.
pub fn compose_prompt(input: &str) -> (r: String)
    ensures
        r@ == spec_prompt(input@),
{
    let mut out = String::from_str("以下は現在直面している対応するべき問題または事象です。添付した指定構造に分解・分類し、TODO及びTaskに因子分解し日本語で出力してください。\n\n構造化出力指定型各フィールドの説明:\n- Todo: 事象のタイトル、概要、関連するIssueのリスト、作成日時を含む。\n    - title: 事象のタイトル（短く端的に\n    - summary: 事象の概要（要約\n    - issues: 事象に関連するIssueのリスト\n        - title: Issueの名称\n        - description: Issueの対処法・問題解決法などの説明\n        - estimated_working_hours: Issueの見積もり作業時間\n\nいずれも大切なフィールドです。\nフィールドが満ちていることを期待します。\n\n対象: \n- デジタル非ネイティブの日本語話者\n- 非プログラマ\n- 役割: ディレクター\n- 具体的な職務: 窓口、折衝、判断や評価、知識や話術差異を翻訳する業務が多い\n- 部下に仕事を割り振り、進捗を管理する\n\n\n\n出力時の注意点:\n- **重複出力**: 重複出力、または同じ内容の出力は避けてください。\n- **構造化**: Raw JSONとして構造化されたデータを期待します。\n\n\n以下本文: \n```\n");
    out.append(input);
    out.append("\n```");
    out
}

/// The request body text up to the embedded prompt.
pub open spec fn spec_body_head() -> Seq<char> {
    "{\"contents\":[{\"parts\":[{\"text\":\""@
}

/// The request body text after the embedded prompt: the fixed generation
/// parameters and the schema the model's output must match.
pub open spec fn spec_body_tail() -> Seq<char> {
    "\"}]}],\"generationConfig\":{\"temperature\":0.1,\"maxOutputTokens\":2048,\"topK\":1,\"topP\":0.1,\"response_mime_type\":\"application/json\",\"response_schema\":{\"type\":\"OBJECT\",\"properties\":{\"title\":{\"type\":\"STRING\",\"description\":\"The main title of the output.\"},\"summary\":{\"type\":\"STRING\",\"description\":\"A brief summary.\"},\"issues\":{\"type\":\"ARRAY\",\"description\":\"A list of identified issues.\",\"items\":{\"type\":\"OBJECT\",\"properties\":{\"title\":{\"type\":\"STRING\",\"description\":\"Title of the issue.\"},\"description\":{\"type\":\"STRING\",\"description\":\"Detailed description of the issue.\"},\"estimated_working_hours\":{\"type\":\"INTEGER\",\"description\":\"Estimated hours to resolve the issue.\"}},\"required\":[\"title\",\"description\"],\"propertyOrdering\":[\"title\",\"description\",\"estimated_working_hours\"]}}},\"required\":[\"title\",\"summary\",\"issues\"],\"propertyOrdering\":[\"title\",\"summary\",\"issues\"]}}}"@
}

/// The complete JSON body of the outbound call: the composed prompt,
/// escaped for its place inside a JSON string literal, between the two
/// fixed body pieces.
pub open spec fn spec_request_body(input: Seq<char>) -> Seq<char> {
    spec_body_head() + spec_escape(spec_prompt(input)) + spec_body_tail()
}

/// Builds the whole JSON body to send for the given raw input.
pub fn request_body(input: &str) -> (r: String)
    ensures
        r@ == spec_request_body(input@),
{
    let prompt = compose_prompt(input);
    let escaped = json_escape(prompt.as_str());
    let mut out = String::from_str("{\"contents\":[{\"parts\":[{\"text\":\"");
    out.append(escaped.as_str());
    out.append("\"}]}],\"generationConfig\":{\"temperature\":0.1,\"maxOutputTokens\":2048,\"topK\":1,\"topP\":0.1,\"response_mime_type\":\"application/json\",\"response_schema\":{\"type\":\"OBJECT\",\"properties\":{\"title\":{\"type\":\"STRING\",\"description\":\"The main title of the output.\"},\"summary\":{\"type\":\"STRING\",\"description\":\"A brief summary.\"},\"issues\":{\"type\":\"ARRAY\",\"description\":\"A list of identified issues.\",\"items\":{\"type\":\"OBJECT\",\"properties\":{\"title\":{\"type\":\"STRING\",\"description\":\"Title of the issue.\"},\"description\":{\"type\":\"STRING\",\"description\":\"Detailed description of the issue.\"},\"estimated_working_hours\":{\"type\":\"INTEGER\",\"description\":\"Estimated hours to resolve the issue.\"}},\"required\":[\"title\",\"description\"],\"propertyOrdering\":[\"title\",\"description\",\"estimated_working_hours\"]}}},\"required\":[\"title\",\"summary\",\"issues\"],\"propertyOrdering\":[\"title\",\"summary\",\"issues\"]}}}");
    out
}

} // verus!

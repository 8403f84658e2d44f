//! Walks an untrusted JSON response for the text fragments under
//! `candidates[0].content.parts[*].text` and concatenates them in array
//! order, as the response extractor needs before the schema decode.

use vstd::prelude::*;

use crate::json::{spec_get, JsonValue};

verus! {

/// Why extraction of the response text failed.
#[derive(Debug, Clone, Copy, PartialEq, Eq)]
pub enum ExtractError {
    /// `candidates` is missing, not an array or empty, or its first
    /// entry has no `content` field: one failure, not distinguished.
    MissingCandidate,
    /// The candidate's `content.parts` is missing or not an array.
    MalformedParts,
}

/// The `content` of the first candidate, when the document has one.
pub open spec fn spec_candidate_content(doc: JsonValue) -> Option<JsonValue> {
    match spec_get(doc, "candidates"@) {
        Some(JsonValue::Arr(cs)) => if cs@.len() > 0 {
            spec_get(cs@[0], "content"@)
        } else {
            None
        },
        _ => None,
    }
}

/// The text a single part contributes: its `text` field when that is a
/// string, nothing otherwise.
pub open spec fn spec_part_text(part: JsonValue) -> Seq<char> {
    match spec_get(part, "text"@) {
        Some(JsonValue::Str(s)) => s@,
        _ => Seq::empty(),
    }
}

/// The concatenation, in array order with no separator, of the text of
/// every part.
pub open spec fn spec_texts(parts: Seq<JsonValue>) -> Seq<char>
    decreases parts.len(),
{
    if parts.len() == 0 {
        Seq::empty()
    } else {
        spec_texts(parts.drop_last()) + spec_part_text(parts.last())
    }
}

/// What extraction returns on any document: the concatenated part texts
/// on the happy path, and which of the two failures otherwise.
pub open spec fn spec_extract(doc: JsonValue) -> Result<Seq<char>, ExtractError> {
    match spec_candidate_content(doc) {
        None => Err(ExtractError::MissingCandidate),
        Some(content) => match spec_get(content, "parts"@) {
            Some(JsonValue::Arr(ps)) => Ok(spec_texts(ps@)),
            _ => Err(ExtractError::MalformedParts),
        },
    }
}

/// Skipping law, first half: a part without a string `text` field
/// contributes nothing to the extracted text.
pub proof fn lemma_part_without_text_contributes_nothing(part: JsonValue)
    requires
        !(spec_get(part, "text"@) matches Some(JsonValue::Str(_))),
    ensures
        spec_part_text(part) == Seq::<char>::empty(),
{
}

/// Skipping law, second half: once a first candidate with `content` is
/// there and its `parts` is an array, extraction succeeds, whatever mix
/// of entries the array holds.
pub proof fn lemma_extraction_skips_non_text(doc: JsonValue, content: JsonValue)
    requires
        spec_candidate_content(doc) == Some(content),
        spec_get(content, "parts"@) matches Some(JsonValue::Arr(_)),
    ensures
        spec_extract(doc) is Ok,
        spec_get(content, "parts"@) matches Some(JsonValue::Arr(ps)) ==> spec_extract(doc)
            == Ok::<Seq<char>, ExtractError>(spec_texts(ps@)),
{
}

/// Locates `candidates[0].content.parts` in `doc` and concatenates the
/// `text` of every part, in array order with no separator; parts without
/// a string `text` field are skipped. Succeeds exactly when the document
/// has a first candidate with `content` whose `parts` is an array, and
/// the result may be the empty string.
pub fn extract_text(doc: &JsonValue) -> (r: Result<String, ExtractError>)
    ensures
        match r {
            Ok(s) => spec_extract(*doc) == Ok::<Seq<char>, ExtractError>(s@),
            Err(e) => spec_extract(*doc) == Err::<Seq<char>, ExtractError>(e),
        },
{
    let content: &JsonValue = match doc.get("candidates") {
        Some(JsonValue::Arr(cs)) => {
            if cs.len() > 0 {
                match (&cs[0]).get("content") {
                    Some(c) => c,
                    None => {
                        return Err(ExtractError::MissingCandidate);
                    },
                }
            } else {
                return Err(ExtractError::MissingCandidate);
            }
        },
        _ => {
            return Err(ExtractError::MissingCandidate);
        },
    };
    match content.get("parts") {
        Some(JsonValue::Arr(ps)) => {
            let n = ps.len();
            let mut out = String::new();
            let mut i: usize = 0;
            proof {
                assert(ps@.subrange(0, 0) =~= Seq::<JsonValue>::empty());
            }
            while i < n
                invariant
                    n == ps@.len(),
                    i <= n,
                    spec_extract(*doc) == Ok::<Seq<char>, ExtractError>(spec_texts(ps@)),
                    out@ == spec_texts(ps@.subrange(0, i as int)),
                decreases n - i,
            {
                proof {
                    assert(ps@.subrange(0, i + 1).drop_last() =~= ps@.subrange(0, i as int));
                    assert(ps@.subrange(0, i + 1).last() == ps@[i as int]);
                }
                match (&ps[i]).get("text") {
                    Some(JsonValue::Str(s)) => {
                        out.append(s.as_str());
                    },
                    _ => {
                        proof {
                            assert(out@ + spec_part_text(ps@[i as int]) =~= out@);
                        }
                    },
                }
                i = i + 1;
            }
            proof {
                assert(ps@.subrange(0, n as int) =~= ps@);
            }
            Ok(out)
        },
        _ => Err(ExtractError::MalformedParts),
    }
}

} // verus!

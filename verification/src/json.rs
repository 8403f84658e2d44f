//! The library's own model of a parsed JSON document, and lookup of a
//! field of a JSON object, as the response walker needs it.

use vstd::prelude::*;

verus! {

/// A parsed JSON document.
///
/// A number keeps its exact `i64` value where it has one; any other JSON
/// number (a fraction, or an integer out of `i64` range) is `OtherNum`,
/// which the schema decoder rejects wherever an integer is expected.
#[derive(Debug, PartialEq)]
pub enum JsonValue {
    Null,
    Bool(bool),
    Int(i64),
    OtherNum,
    Str(String),
    Arr(Vec<JsonValue>),
    Obj(Vec<(String, JsonValue)>),
}

/// The value under `key` in a sequence of object fields: the first
/// occurrence wins.
pub open spec fn spec_lookup(fields: Seq<(String, JsonValue)>, key: Seq<char>) -> Option<JsonValue>
    decreases fields.len(),
{
    if fields.len() == 0 {
        None
    } else if fields[0].0@ == key {
        Some(fields[0].1)
    } else {
        spec_lookup(fields.drop_first(), key)
    }
}

/// The value under `key` when `v` is an object that has it; `None` when
/// `v` is no object or has no such field.
pub open spec fn spec_get(v: JsonValue, key: Seq<char>) -> Option<JsonValue> {
    match v {
        JsonValue::Obj(fields) => spec_lookup(fields@, key),
        _ => None,
    }
}

impl JsonValue {
    /// Field access as the response walker uses it: `None` on anything
    /// that is not an object with the field.
    pub fn get<'a>(&'a self, key: &str) -> (r: Option<&'a JsonValue>)
        ensures
            match r {
                Some(v) => spec_get(*self, key@) == Some(*v),
                None => spec_get(*self, key@) is None,
            },
    {
        match self {
            JsonValue::Obj(fields) => {
                let k = String::from_str(key);
                let n = fields.len();
                let mut i: usize = 0;
                proof {
                    assert(spec_get(*self, key@) == spec_lookup(fields@, key@));
                    assert(fields@.skip(0) =~= fields@);
                }
                while i < n
                    invariant
                        n == fields@.len(),
                        i <= n,
                        k@ == key@,
                        spec_get(*self, key@) == spec_lookup(fields@, key@),
                        spec_lookup(fields@, key@) == spec_lookup(fields@.skip(i as int), key@),
                    decreases n - i,
                {
                    proof {
                        assert(fields@.skip(i as int).len() == n - i);
                        assert(fields@.skip(i as int)[0] == fields@[i as int]);
                        assert(fields@.skip(i as int).drop_first() =~= fields@.skip(i + 1));
                    }
                    if fields[i].0 == k {
                        proof {
                            assert(spec_lookup(fields@.skip(i as int), key@)
                                == Some(fields@[i as int].1));
                        }
                        return Some(&fields[i].1);
                    }
                    i = i + 1;
                }
                proof {
                    assert(fields@.skip(n as int) =~= Seq::<(String, JsonValue)>::empty());
                }
                None
            },
            _ => None,
        }
    }
}

} // verus!

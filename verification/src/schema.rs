//! The target schema of the bridge: a `Todo` with its `Issue` records,
//! the decode of a parsed JSON document into that shape, and the encode
//! back into the JSON shape the model is asked for. The encoder's
//! contract is the round-trip law: what it builds decodes to an equal
//! value.

use vstd::prelude::*;

use crate::json::{spec_get, spec_lookup, JsonValue};

verus! {

/// One issue of a decomposed problem. Every field is optional: absence
/// is valid, not an error.
#[derive(Debug, Clone, PartialEq)]
pub struct Issue {
    pub title: Option<String>,
    pub description: Option<String>,
    pub estimated_working_hours: Option<i16>,
}

/// The decomposed problem itself. Every field is optional; the creation
/// timestamp is carried as plain text and never computed on.
#[derive(Debug, Clone, PartialEq)]
pub struct Todo {
    pub title: Option<String>,
    pub summary: Option<String>,
    pub issues: Option<Vec<Issue>>,
    pub created_at: Option<String>,
}

/// The mathematical value of an [`Issue`].
pub struct IssueView {
    pub title: Option<Seq<char>>,
    pub description: Option<Seq<char>>,
    pub estimated_working_hours: Option<i16>,
}

/// The mathematical value of a [`Todo`].
pub struct TodoView {
    pub title: Option<Seq<char>>,
    pub summary: Option<Seq<char>>,
    pub issues: Option<Seq<IssueView>>,
    pub created_at: Option<Seq<char>>,
}

pub open spec fn view_opt_text(o: Option<String>) -> Option<Seq<char>> {
    match o {
        Some(s) => Some(s@),
        None => None,
    }
}

pub open spec fn spec_issue_views(s: Seq<Issue>) -> Seq<IssueView> {
    s.map_values(|x: Issue| x@)
}

impl View for Issue {
    type V = IssueView;

    open spec fn view(&self) -> IssueView {
        IssueView {
            title: view_opt_text(self.title),
            description: view_opt_text(self.description),
            estimated_working_hours: self.estimated_working_hours,
        }
    }
}

impl View for Todo {
    type V = TodoView;

    open spec fn view(&self) -> TodoView {
        TodoView {
            title: view_opt_text(self.title),
            summary: view_opt_text(self.summary),
            issues: match self.issues {
                Some(v) => Some(spec_issue_views(v@)),
                None => None,
            },
            created_at: view_opt_text(self.created_at),
        }
    }
}

/// An optional text field of the schema: absent or `null` is a valid
/// `None`, a string is kept, anything else refuses the whole document.
pub open spec fn spec_opt_text(field: Option<JsonValue>) -> Option<Option<Seq<char>>> {
    match field {
        None => Some(None),
        Some(JsonValue::Null) => Some(None),
        Some(JsonValue::Str(s)) => Some(Some(s@)),
        _ => None,
    }
}

/// The optional effort field: absent or `null` is a valid `None`, an
/// integer in `i16` range is kept, anything else refuses the document.
pub open spec fn spec_opt_hours(field: Option<JsonValue>) -> Option<Option<i16>> {
    match field {
        None => Some(None),
        Some(JsonValue::Null) => Some(None),
        Some(JsonValue::Int(i)) => if i16::MIN as int <= i as int && i as int <= i16::MAX as int {
            Some(Some(i as i16))
        } else {
            None
        },
        _ => None,
    }
}

/// The decode of one issue: an object whose three known fields fit the
/// schema; unknown fields are ignored.
pub open spec fn spec_issue_of(v: JsonValue) -> Option<IssueView> {
    if !(v is Obj) {
        None
    } else {
        match (
            spec_opt_text(spec_get(v, "title"@)),
            spec_opt_text(spec_get(v, "description"@)),
            spec_opt_hours(spec_get(v, "estimated_working_hours"@)),
        ) {
            (Some(t), Some(d), Some(h)) => Some(
                IssueView { title: t, description: d, estimated_working_hours: h },
            ),
            _ => None,
        }
    }
}

/// The decode of an issue list: every element must decode.
pub open spec fn spec_issues_of(vs: Seq<JsonValue>) -> Option<Seq<IssueView>>
    decreases vs.len(),
{
    if vs.len() == 0 {
        Some(Seq::empty())
    } else {
        match (spec_issues_of(vs.drop_last()), spec_issue_of(vs.last())) {
            (Some(init), Some(last)) => Some(init.push(last)),
            _ => None,
        }
    }
}

/// The optional issue list field: absent or `null` is a valid `None`, an
/// array of well-formed issues is kept, anything else refuses the
/// document.
pub open spec fn spec_opt_issues(field: Option<JsonValue>) -> Option<Option<Seq<IssueView>>> {
    match field {
        None => Some(None),
        Some(JsonValue::Null) => Some(None),
        Some(JsonValue::Arr(vs)) => match spec_issues_of(vs@) {
            Some(s) => Some(Some(s)),
            None => None,
        },
        _ => None,
    }
}

/// The decode of the whole document into the Todo shape: an object whose
/// four known fields fit the schema; unknown fields are ignored; any
/// mismatch refuses the whole document, with no partial recovery.
pub open spec fn spec_todo_of(v: JsonValue) -> Option<TodoView> {
    if !(v is Obj) {
        None
    } else {
        match (
            spec_opt_text(spec_get(v, "title"@)),
            spec_opt_text(spec_get(v, "summary"@)),
            spec_opt_issues(spec_get(v, "issues"@)),
            spec_opt_text(spec_get(v, "created_at"@)),
        ) {
            (Some(t), Some(s), Some(i), Some(c)) => Some(
                TodoView { title: t, summary: s, issues: i, created_at: c },
            ),
            _ => None,
        }
    }
}

/// An optional field of `v` as the exec decoder reads it.
pub open spec fn deref_opt(o: Option<&JsonValue>) -> Option<JsonValue> {
    match o {
        Some(v) => Some(*v),
        None => None,
    }
}

fn decode_opt_text(field: Option<&JsonValue>) -> (r: Option<Option<String>>)
    ensures
        match r {
            Some(o) => spec_opt_text(deref_opt(field)) == Some(view_opt_text(o)),
            None => spec_opt_text(deref_opt(field)) is None,
        },
{
    match field {
        None => Some(None),
        Some(JsonValue::Null) => Some(None),
        Some(JsonValue::Str(s)) => Some(Some(s.clone())),
        Some(_) => None,
    }
}

fn decode_opt_hours(field: Option<&JsonValue>) -> (r: Option<Option<i16>>)
    ensures
        match r {
            Some(o) => spec_opt_hours(deref_opt(field)) == Some(o),
            None => spec_opt_hours(deref_opt(field)) is None,
        },
{
    match field {
        None => Some(None),
        Some(JsonValue::Null) => Some(None),
        Some(JsonValue::Int(i)) => {
            let i = *i;
            if i16::MIN as i64 <= i && i <= i16::MAX as i64 {
                Some(Some(i as i16))
            } else {
                None
            }
        },
        Some(_) => None,
    }
}

/// If one element of an issue array does not decode, the array does not.
proof fn lemma_issues_of_fail(vs: Seq<JsonValue>, i: int)
    requires
        0 <= i < vs.len(),
        spec_issue_of(vs[i]) is None,
    ensures
        spec_issues_of(vs) is None,
    decreases vs.len(),
{
    if i == vs.len() - 1 {
    } else {
        lemma_issues_of_fail(vs.drop_last(), i);
    }
}

fn issues_from_json(vs: &Vec<JsonValue>) -> (r: Option<Vec<Issue>>)
    ensures
        match r {
            Some(out) => spec_issues_of(vs@) == Some(spec_issue_views(out@)),
            None => spec_issues_of(vs@) is None,
        },
{
    let n = vs.len();
    let mut out: Vec<Issue> = Vec::new();
    let mut i: usize = 0;
    proof {
        assert(vs@.subrange(0, 0) =~= Seq::<JsonValue>::empty());
        assert(spec_issue_views(out@) =~= Seq::<IssueView>::empty());
    }
    while i < n
        invariant
            n == vs@.len(),
            i <= n,
            spec_issues_of(vs@.subrange(0, i as int)) == Some(spec_issue_views(out@)),
        decreases n - i,
    {
        proof {
            assert(vs@.subrange(0, i + 1).drop_last() =~= vs@.subrange(0, i as int));
            assert(vs@.subrange(0, i + 1).last() == vs@[i as int]);
        }
        match issue_from_json(&vs[i]) {
            Some(issue) => {
                proof {
                    assert(spec_issue_views(out@.push(issue)) =~= spec_issue_views(out@).push(
                        issue@,
                    ));
                }
                out.push(issue);
            },
            None => {
                proof {
                    lemma_issues_of_fail(vs@, i as int);
                }
                return None;
            },
        }
        i = i + 1;
    }
    proof {
        assert(vs@.subrange(0, n as int) =~= vs@);
    }
    Some(out)
}

fn decode_opt_issues(field: Option<&JsonValue>) -> (r: Option<Option<Vec<Issue>>>)
    ensures
        match r {
            Some(o) => spec_opt_issues(deref_opt(field)) == Some(
                match o {
                    Some(v) => Some(spec_issue_views(v@)),
                    None => None::<Seq<IssueView>>,
                },
            ),
            None => spec_opt_issues(deref_opt(field)) is None,
        },
{
    match field {
        None => Some(None),
        Some(JsonValue::Null) => Some(None),
        Some(JsonValue::Arr(vs)) => match issues_from_json(vs) {
            Some(v) => Some(Some(v)),
            None => None,
        },
        Some(_) => None,
    }
}

/// Decodes one issue object; `None` on any field mismatch.
pub fn issue_from_json(v: &JsonValue) -> (r: Option<Issue>)
    ensures
        match r {
            Some(issue) => spec_issue_of(*v) == Some(issue@),
            None => spec_issue_of(*v) is None,
        },
{
    match v {
        JsonValue::Obj(_) => {
            let t = decode_opt_text(v.get("title"));
            let d = decode_opt_text(v.get("description"));
            let h = decode_opt_hours(v.get("estimated_working_hours"));
            match (t, d, h) {
                (Some(t), Some(d), Some(h)) => Some(
                    Issue { title: t, description: d, estimated_working_hours: h },
                ),
                _ => None,
            }
        },
        _ => None,
    }
}

fn opt_text_json(o: &Option<String>) -> (r: JsonValue)
    ensures
        spec_opt_text(Some(r)) == Some(view_opt_text(*o)),
{
    match o {
        Some(s) => JsonValue::Str(s.clone()),
        None => JsonValue::Null,
    }
}

fn opt_hours_json(o: &Option<i16>) -> (r: JsonValue)
    ensures
        spec_opt_hours(Some(r)) == Some(*o),
{
    match o {
        Some(h) => JsonValue::Int(*h as i64),
        None => JsonValue::Null,
    }
}

fn issues_to_json(issues: &Vec<Issue>) -> (r: Vec<JsonValue>)
    ensures
        spec_issues_of(r@) == Some(spec_issue_views(issues@)),
{
    let n = issues.len();
    let mut out: Vec<JsonValue> = Vec::new();
    let mut i: usize = 0;
    proof {
        assert(issues@.subrange(0, 0) =~= Seq::<Issue>::empty());
        assert(spec_issue_views(issues@.subrange(0, 0)) =~= Seq::<IssueView>::empty());
    }
    while i < n
        invariant
            n == issues@.len(),
            i <= n,
            spec_issues_of(out@) == Some(spec_issue_views(issues@.subrange(0, i as int))),
        decreases n - i,
    {
        let j = issue_to_json(&issues[i]);
        proof {
            assert(out@.push(j).drop_last() =~= out@);
            assert(out@.push(j).last() == j);
            assert(spec_issue_views(issues@.subrange(0, i + 1)) =~= spec_issue_views(
                issues@.subrange(0, i as int),
            ).push(issues@[i as int]@));
        }
        out.push(j);
        i = i + 1;
    }
    proof {
        assert(issues@.subrange(0, n as int) =~= issues@);
    }
    out
}

fn opt_issues_json(o: &Option<Vec<Issue>>) -> (r: JsonValue)
    ensures
        spec_opt_issues(Some(r)) == Some(
            match *o {
                Some(v) => Some(spec_issue_views(v@)),
                None => None::<Seq<IssueView>>,
            },
        ),
{
    match o {
        Some(v) => JsonValue::Arr(issues_to_json(v)),
        None => JsonValue::Null,
    }
}

/// Encodes one issue in the JSON shape the schema asks for. The contract
/// is the round trip: the object it builds decodes back to an equal
/// issue.
pub fn issue_to_json(issue: &Issue) -> (r: JsonValue)
    ensures
        spec_issue_of(r) == Some(issue@),
{
    let k0 = String::from_str("title");
    let k1 = String::from_str("description");
    let k2 = String::from_str("estimated_working_hours");
    let v0 = opt_text_json(&issue.title);
    let v1 = opt_text_json(&issue.description);
    let v2 = opt_hours_json(&issue.estimated_working_hours);
    let mut fields: Vec<(String, JsonValue)> = Vec::new();
    fields.push((k0, v0));
    fields.push((k1, v1));
    fields.push((k2, v2));
    let r = JsonValue::Obj(fields);
    proof {
        reveal_strlit("title");
        reveal_strlit("description");
        reveal_strlit("estimated_working_hours");
        assert("title"@.len() == 5);
        assert("description"@.len() == 11);
        assert("estimated_working_hours"@.len() == 23);
        let fs = fields@;
        let s1 = seq![(k1, v1), (k2, v2)];
        let s2 = seq![(k2, v2)];
        assert(fs =~= seq![(k0, v0), (k1, v1), (k2, v2)]);
        assert(fs.drop_first() =~= s1);
        assert(s1.drop_first() =~= s2);
        assert(spec_lookup(fs, "title"@) == Some(v0));
        assert(spec_lookup(s1, "description"@) == Some(v1));
        assert(spec_lookup(fs, "description"@) == Some(v1));
        assert(spec_lookup(s2, "estimated_working_hours"@) == Some(v2));
        assert(spec_lookup(s1, "estimated_working_hours"@) == Some(v2));
        assert(spec_lookup(fs, "estimated_working_hours"@) == Some(v2));
    }
    r
}

/// Encodes a `Todo` in the JSON shape the model is asked for: an object
/// with the four schema fields, absent values as `null`. The contract is
/// the round-trip law: the document it builds decodes back to an equal
/// `Todo`.
pub fn todo_to_json(todo: &Todo) -> (r: JsonValue)
    ensures
        spec_todo_of(r) == Some(todo@),
{
    let k0 = String::from_str("title");
    let k1 = String::from_str("summary");
    let k2 = String::from_str("issues");
    let k3 = String::from_str("created_at");
    let v0 = opt_text_json(&todo.title);
    let v1 = opt_text_json(&todo.summary);
    let v2 = opt_issues_json(&todo.issues);
    let v3 = opt_text_json(&todo.created_at);
    let mut fields: Vec<(String, JsonValue)> = Vec::new();
    fields.push((k0, v0));
    fields.push((k1, v1));
    fields.push((k2, v2));
    fields.push((k3, v3));
    let r = JsonValue::Obj(fields);
    proof {
        reveal_strlit("title");
        reveal_strlit("summary");
        reveal_strlit("issues");
        reveal_strlit("created_at");
        assert("title"@.len() == 5);
        assert("summary"@.len() == 7);
        assert("issues"@.len() == 6);
        assert("created_at"@.len() == 10);
        let fs = fields@;
        let s1 = seq![(k1, v1), (k2, v2), (k3, v3)];
        let s2 = seq![(k2, v2), (k3, v3)];
        let s3 = seq![(k3, v3)];
        assert(fs =~= seq![(k0, v0), (k1, v1), (k2, v2), (k3, v3)]);
        assert(fs.drop_first() =~= s1);
        assert(s1.drop_first() =~= s2);
        assert(s2.drop_first() =~= s3);
        assert(spec_lookup(fs, "title"@) == Some(v0));
        assert(spec_lookup(s1, "summary"@) == Some(v1));
        assert(spec_lookup(fs, "summary"@) == Some(v1));
        assert(spec_lookup(s2, "issues"@) == Some(v2));
        assert(spec_lookup(s1, "issues"@) == Some(v2));
        assert(spec_lookup(fs, "issues"@) == Some(v2));
        assert(spec_lookup(s3, "created_at"@) == Some(v3));
        assert(spec_lookup(s2, "created_at"@) == Some(v3));
        assert(spec_lookup(s1, "created_at"@) == Some(v3));
        assert(spec_lookup(fs, "created_at"@) == Some(v3));
    }
    r
}

/// Decodes a parsed JSON document into the Todo shape; `None` on any
/// field mismatch, with no partial recovery.
pub fn todo_from_json(v: &JsonValue) -> (r: Option<Todo>)
    ensures
        match r {
            Some(todo) => spec_todo_of(*v) == Some(todo@),
            None => spec_todo_of(*v) is None,
        },
{
    match v {
        JsonValue::Obj(_) => {
            let t = decode_opt_text(v.get("title"));
            let s = decode_opt_text(v.get("summary"));
            let i = decode_opt_issues(v.get("issues"));
            let c = decode_opt_text(v.get("created_at"));
            match (t, s, i, c) {
                (Some(t), Some(s), Some(i), Some(c)) => Some(
                    Todo { title: t, summary: s, issues: i, created_at: c },
                ),
                _ => None,
            }
        },
        _ => None,
    }
}

} // verus!

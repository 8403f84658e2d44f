//! Rendering of a decoded `Todo` back to JSON text, for the caller
//! boundary: the library frames the bytes itself, so the host only has
//! to hand them on.

use vstd::prelude::*;

use crate::escape::{json_escape, spec_escape};
use crate::schema::{Issue, IssueView, Todo, TodoView};

verus! {

/// The decimal digit character for `n`.
pub open spec fn spec_digit_char(n: nat) -> char {
    if n == 0 { '0' } else if n == 1 { '1' } else if n == 2 { '2' } else if n == 3 { '3' }
    else if n == 4 { '4' } else if n == 5 { '5' } else if n == 6 { '6' } else if n == 7 { '7' }
    else if n == 8 { '8' } else { '9' }
}

/// The decimal digits of `n`, most significant first, no leading zero
/// except for zero itself.
pub open spec fn spec_digits(n: nat) -> Seq<char>
    decreases n,
{
    if n < 10 {
        seq![spec_digit_char(n)]
    } else {
        spec_digits(n / 10).push(spec_digit_char(n % 10))
    }
}

/// The decimal text of `i`, with a leading minus for a negative value.
pub open spec fn spec_int_text(i: int) -> Seq<char> {
    if i < 0 {
        seq!['-'] + spec_digits((-i) as nat)
    } else {
        spec_digits(i as nat)
    }
}

fn digit_str(d: u32) -> (r: &'static str)
    requires
        d < 10,
    ensures
        r@ == seq![spec_digit_char(d as nat)],
{
    let r = if d == 0 { "0" } else if d == 1 { "1" } else if d == 2 { "2" } else if d == 3 { "3" }
    else if d == 4 { "4" } else if d == 5 { "5" } else if d == 6 { "6" } else if d == 7 { "7" }
    else if d == 8 { "8" } else { "9" };
    proof {
        reveal_strlit("0");
        reveal_strlit("1");
        reveal_strlit("2");
        reveal_strlit("3");
        reveal_strlit("4");
        reveal_strlit("5");
        reveal_strlit("6");
        reveal_strlit("7");
        reveal_strlit("8");
        reveal_strlit("9");
        assert(r@ =~= seq![spec_digit_char(d as nat)]);
    }
    r
}

fn digits_text(n: u32) -> (r: String)
    ensures
        r@ == spec_digits(n as nat),
    decreases n,
{
    if n < 10 {
        String::from_str(digit_str(n))
    } else {
        let mut s = digits_text(n / 10);
        s.append(digit_str(n % 10));
        proof {
            assert(s@ =~= spec_digits((n / 10) as nat).push(spec_digit_char((n % 10) as nat)));
        }
        s
    }
}

/// The decimal text of an effort value.
fn int_text(i: i16) -> (r: String)
    ensures
        r@ == spec_int_text(i as int),
{
    let wide: i32 = i as i32;
    if wide < 0 {
        let mut s = String::from_str("-");
        let digits = digits_text((-wide) as u32);
        s.append(digits.as_str());
        proof {
            reveal_strlit("-");
            assert(s@ =~= spec_int_text(i as int));
        }
        s
    } else {
        digits_text(wide as u32)
    }
}

/// An optional text field as JSON: `null`, or the quoted escaped text.
pub open spec fn spec_opt_text_json(o: Option<Seq<char>>) -> Seq<char> {
    match o {
        None => "null"@,
        Some(s) => seq!['"'] + spec_escape(s) + seq!['"'],
    }
}

/// The optional effort field as JSON: `null` or the decimal number.
pub open spec fn spec_opt_hours_json(o: Option<i16>) -> Seq<char> {
    match o {
        None => "null"@,
        Some(h) => spec_int_text(h as int),
    }
}

fn opt_text_json_text(o: &Option<String>) -> (r: String)
    ensures
        r@ == spec_opt_text_json(crate::schema::view_opt_text(*o)),
{
    match o {
        None => String::from_str("null"),
        Some(s) => {
            let mut out = String::from_str("\"");
            let escaped = json_escape(s.as_str());
            out.append(escaped.as_str());
            out.append("\"");
            proof {
                reveal_strlit("\"");
                assert(out@ =~= seq!['"'] + spec_escape(s@) + seq!['"']);
            }
            out
        },
    }
}

/// One issue as JSON text, with its three fields in schema order.
pub open spec fn spec_issue_text(i: IssueView) -> Seq<char> {
    "{\"title\":"@ + spec_opt_text_json(i.title) + ",\"description\":"@ + spec_opt_text_json(
        i.description,
    ) + ",\"estimated_working_hours\":"@ + spec_opt_hours_json(i.estimated_working_hours) + "}"@
}

/// An issue list as JSON text: the issues in order, comma separated.
pub open spec fn spec_issues_text(s: Seq<IssueView>) -> Seq<char>
    decreases s.len(),
{
    if s.len() == 0 {
        Seq::empty()
    } else if s.len() == 1 {
        spec_issue_text(s[0])
    } else {
        spec_issues_text(s.drop_last()) + ","@ + spec_issue_text(s.last())
    }
}

/// The optional issues field as JSON: `null` or the bracketed list.
pub open spec fn spec_opt_issues_json(o: Option<Seq<IssueView>>) -> Seq<char> {
    match o {
        None => "null"@,
        Some(s) => "["@ + spec_issues_text(s) + "]"@,
    }
}

/// The whole `Todo` as JSON text, its four fields in schema order,
/// absent values written `null`.
pub open spec fn spec_todo_text(t: TodoView) -> Seq<char> {
    "{\"title\":"@ + spec_opt_text_json(t.title) + ",\"summary\":"@ + spec_opt_text_json(t.summary)
        + ",\"issues\":"@ + spec_opt_issues_json(t.issues) + ",\"created_at\":"@
        + spec_opt_text_json(t.created_at) + "}"@
}

/// Renders one issue as JSON text.
pub fn issue_json_text(issue: &Issue) -> (r: String)
    ensures
        r@ == spec_issue_text(issue@),
{
    let mut out = String::from_str("{\"title\":");
    let t = opt_text_json_text(&issue.title);
    out.append(t.as_str());
    out.append(",\"description\":");
    let d = opt_text_json_text(&issue.description);
    out.append(d.as_str());
    out.append(",\"estimated_working_hours\":");
    match &issue.estimated_working_hours {
        None => {
            out.append("null");
        },
        Some(h) => {
            let n = int_text(*h);
            out.append(n.as_str());
        },
    }
    out.append("}");
    proof {
        assert(out@ =~= spec_issue_text(issue@));
    }
    out
}

fn issues_json_text(issues: &Vec<Issue>) -> (r: String)
    ensures
        r@ == spec_issues_text(crate::schema::spec_issue_views(issues@)),
{
    let n = issues.len();
    let mut out = String::new();
    let mut i: usize = 0;
    proof {
        assert(crate::schema::spec_issue_views(issues@).subrange(0, 0) =~= Seq::<
            IssueView,
        >::empty());
    }
    while i < n
        invariant
            n == issues@.len(),
            i <= n,
            out@ == spec_issues_text(crate::schema::spec_issue_views(issues@).subrange(0, i as int)),
        decreases n - i,
    {
        if i > 0 {
            out.append(",");
            proof {
                reveal_strlit(",");
            }
        }
        let one = issue_json_text(&issues[i]);
        out.append(one.as_str());
        proof {
            let views = crate::schema::spec_issue_views(issues@);
            assert(views.subrange(0, i + 1).drop_last() =~= views.subrange(0, i as int));
            assert(views.subrange(0, i + 1).last() == views[i as int]);
            assert(views[i as int] == issues@[i as int]@);
            if i == 0 {
                assert(out@ =~= spec_issues_text(views.subrange(0, 1)));
            } else {
                assert(out@ =~= spec_issues_text(views.subrange(0, i + 1)));
            }
        }
        i = i + 1;
    }
    proof {
        assert(crate::schema::spec_issue_views(issues@).subrange(
            0,
            crate::schema::spec_issue_views(issues@).len() as int,
        ) =~= crate::schema::spec_issue_views(issues@));
    }
    out
}

/// Renders a decoded `Todo` back to JSON text: the four schema fields in
/// order, absent values as `null`, text escaped for its place.
pub fn todo_json_text(todo: &Todo) -> (r: String)
    ensures
        r@ == spec_todo_text(todo@),
{
    let mut out = String::from_str("{\"title\":");
    let t = opt_text_json_text(&todo.title);
    out.append(t.as_str());
    out.append(",\"summary\":");
    let s = opt_text_json_text(&todo.summary);
    out.append(s.as_str());
    out.append(",\"issues\":");
    match &todo.issues {
        None => {
            out.append("null");
        },
        Some(v) => {
            out.append("[");
            let body = issues_json_text(v);
            out.append(body.as_str());
            out.append("]");
            proof {
                reveal_strlit("[");
                reveal_strlit("]");
            }
        },
    }
    out.append(",\"created_at\":");
    let c = opt_text_json_text(&todo.created_at);
    out.append(c.as_str());
    out.append("}");
    proof {
        assert(out@ =~= spec_todo_text(todo@));
    }
    out
}

} // verus!

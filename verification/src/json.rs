//! JSON request bodies: objects whose values are all strings.
use vstd::prelude::*;

use crate::text::{join_strings, joined};

verus! {

/// The JSON string literal that `serde_json` writes for a text: quoted, with
/// the characters that JSON requires escaped.
pub uninterp spec fn json_string_text(s: Seq<char>) -> Seq<char>;

/// Calls `serde_json::to_string` on a `&str`. Claimed: the literal is a
/// function of the text alone, named `json_string_text`; nothing more is
/// claimed of it (the escaping is `serde_json`'s). Serializing a `str` into
/// memory does not fail; the error arm only converts the `Result`.
#[verifier::external_body]
fn json_string(s: &str) -> (text: String)
    ensures
        text@ == json_string_text(s@),
{
    match serde_json::to_string(s) {
        Ok(text) => text,
        Err(_) => String::new(),
    }
}

/// One member of a JSON object whose value is a string: `"name":"value"`.
pub open spec fn json_member(field: (Seq<char>, Seq<char>)) -> Seq<char> {
    json_string_text(field.0) + ":"@ + json_string_text(field.1)
}

/// The compact JSON object with one string member per field, in the order
/// of the fields.
pub open spec fn json_object_text(fields: Seq<(Seq<char>, Seq<char>)>) -> Seq<char> {
    "{"@ + joined(fields.map_values(|f: (Seq<char>, Seq<char>)| json_member(f)), ","@) + "}"@
}

/// Writes the compact JSON object with one string member per field, in order.
pub fn json_object(fields: &Vec<(String, String)>) -> (text: String)
    ensures
        text@ == json_object_text(fields.deep_view()),
{
    let ghost all = fields.deep_view();
    let ghost member = |f: (Seq<char>, Seq<char>)| json_member(f);
    let mut members: Vec<String> = Vec::new();
    let n: usize = fields.len();
    let mut i: usize = 0;
    while i < n
        invariant
            n == fields.len(),
            all == fields.deep_view(),
            member == (|f: (Seq<char>, Seq<char>)| json_member(f)),
            i <= n,
            members.deep_view() == all.take(i as int).map_values(member),
        decreases n - i,
    {
        let ghost before = members.deep_view();
        let mut m = json_string(fields[i].0.as_str());
        m.append(":");
        let value = json_string(fields[i].1.as_str());
        m.append(value.as_str());
        members.push(m);
        proof {
            assert(all[i as int] == (fields[i as int].0@, fields[i as int].1@));
            assert(all.take(i + 1) =~= all.take(i as int).push(all[i as int]));
            assert(all.take(i + 1).map_values(member) =~= before.push(json_member(all[i as int])));
            assert(members.deep_view() =~= before.push(m@));
        }
        i = i + 1;
    }
    proof {
        assert(all.take(n as int) =~= all);
    }
    let mut text = String::from_str("{");
    let inner = join_strings(&members, ",");
    text.append(inner.as_str());
    text.append("}");
    text
}

/// The text of an optional string, empty when absent (`unwrap_or_default`).
pub open spec fn or_empty(s: Option<Seq<char>>) -> Seq<char> {
    match s {
        Some(t) => t,
        None => Seq::empty(),
    }
}

fn string_or_empty(s: Option<String>) -> (r: String)
    ensures
        r@ == or_empty(s.deep_view()),
{
    match s {
        Some(t) => t,
        None => String::new(),
    }
}

/// The members of the share body: `customer_id` and `q`, each empty when not set.
pub open spec fn share_fields(customer_id: Option<Seq<char>>, q: Option<Seq<char>>) -> Seq<(Seq<char>, Seq<char>)> {
    seq![("customer_id"@, or_empty(customer_id)), ("q"@, or_empty(q))]
}

/// The JSON body of a share event.
pub fn share_body(customer_id: Option<String>, q: Option<String>) -> (body: String)
    ensures
        body@ == json_object_text(share_fields(customer_id.deep_view(), q.deep_view())),
{
    let ghost cid = customer_id.deep_view();
    let ghost qv = q.deep_view();
    let mut fields: Vec<(String, String)> = Vec::new();
    fields.push((String::from_str("customer_id"), string_or_empty(customer_id)));
    fields.push((String::from_str("q"), string_or_empty(q)));
    assert(fields.deep_view() =~= share_fields(cid, qv));
    json_object(&fields)
}

/// The members of the report body: `customer_id` (empty when not set) and `reason`.
pub open spec fn report_fields(customer_id: Option<Seq<char>>, reason: Seq<char>) -> Seq<(Seq<char>, Seq<char>)> {
    seq![("customer_id"@, or_empty(customer_id)), ("reason"@, reason)]
}

/// The JSON body of a report, given the reason's wire name.
pub fn report_body(customer_id: Option<String>, reason: &str) -> (body: String)
    ensures
        body@ == json_object_text(report_fields(customer_id.deep_view(), reason@)),
{
    let ghost cid = customer_id.deep_view();
    let mut fields: Vec<(String, String)> = Vec::new();
    fields.push((String::from_str("customer_id"), string_or_empty(customer_id)));
    fields.push((String::from_str("reason"), String::from_str(reason)));
    assert(fields.deep_view() =~= report_fields(cid, reason@));
    json_object(&fields)
}

/// The members of an emoji generation body: `prompt`, and `callback_url`
/// only when one is given.
pub open spec fn generate_fields(prompt: Seq<char>, callback_url: Option<Seq<char>>) -> Seq<(Seq<char>, Seq<char>)> {
    match callback_url {
        Some(url) => seq![("prompt"@, prompt), ("callback_url"@, url)],
        None => seq![("prompt"@, prompt)],
    }
}

/// The JSON body of an emoji generation request.
pub fn generate_body(prompt: &str, callback_url: Option<String>) -> (body: String)
    ensures
        body@ == json_object_text(generate_fields(prompt@, callback_url.deep_view())),
{
    let ghost cb = callback_url.deep_view();
    let mut fields: Vec<(String, String)> = Vec::new();
    fields.push((String::from_str("prompt"), String::from_str(prompt)));
    match callback_url {
        Some(url) => {
            fields.push((String::from_str("callback_url"), url));
        },
        None => {},
    }
    assert(fields.deep_view() =~= generate_fields(prompt@, cb));
    json_object(&fields)
}

} // verus!

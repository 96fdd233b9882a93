//! The commands: which API call each one makes and what it shows.
pub mod admin;
pub mod auth;
pub mod events;
pub mod links;
pub mod pixels;
pub mod realtime;
pub mod reports;
pub mod sessions;
pub mod shares;
pub mod stats;
pub mod teams;
pub mod users;
pub mod websites;

use vstd::prelude::*;
use crate::api::http::{pairs_view, ApiCall, ApiCallView, Method};
use crate::config::opt_str;
use crate::json::{fields_view, lemma_object_view, Json, JsonValue};
use crate::text::{decimal, i64_to_text, owned, signed_decimal, u64_to_text};

verus! {

/// A call with the given parts.
pub open spec fn call_of(
    method: Method,
    path: Seq<char>,
    query: Seq<(Seq<char>, Seq<char>)>,
    body: Option<JsonValue>,
) -> ApiCallView {
    ApiCallView { method, path, query, body }
}

/// A GET call without query parameters.
pub open spec fn get_of(path: Seq<char>) -> ApiCallView {
    call_of(Method::Get, path, Seq::empty(), None)
}

/// A GET call with query parameters.
pub open spec fn get_query_of(path: Seq<char>, query: Seq<(Seq<char>, Seq<char>)>) -> ApiCallView {
    call_of(Method::Get, path, query, None)
}

/// A POST call with a JSON body.
pub open spec fn post_of(path: Seq<char>, body: JsonValue) -> ApiCallView {
    call_of(Method::Post, path, Seq::empty(), Some(body))
}

/// A DELETE call.
pub open spec fn delete_of(path: Seq<char>) -> ApiCallView {
    call_of(Method::Delete, path, Seq::empty(), None)
}

/// A GET call.
pub fn get_call(path: String) -> (c: ApiCall)
    ensures
        c@ == get_of(path@),
{
    let query: Vec<(String, String)> = Vec::new();
    assert(pairs_view(query@) =~= Seq::empty());
    ApiCall { method: Method::Get, path, query, body: None }
}

/// A GET call with query parameters.
pub fn get_query_call(path: String, query: Vec<(String, String)>) -> (c: ApiCall)
    ensures
        c@ == get_query_of(path@, pairs_view(query@)),
{
    ApiCall { method: Method::Get, path, query, body: None }
}

/// A POST call.
pub fn post_call(path: String, body: Json) -> (c: ApiCall)
    ensures
        c@ == post_of(path@, body@),
{
    let query: Vec<(String, String)> = Vec::new();
    assert(pairs_view(query@) =~= Seq::empty());
    ApiCall { method: Method::Post, path, query, body: Some(body) }
}

/// A DELETE call.
pub fn delete_call(path: String) -> (c: ApiCall)
    ensures
        c@ == delete_of(path@),
{
    let query: Vec<(String, String)> = Vec::new();
    assert(pairs_view(query@) =~= Seq::empty());
    ApiCall { method: Method::Delete, path, query, body: None }
}

/// Adds a query parameter.
pub fn push_pair(query: &mut Vec<(String, String)>, name: &str, value: String)
    ensures
        pairs_view(final(query)@) == pairs_view(old(query)@).push((name@, value@)),
{
    query.push((owned(name), value));
    assert(pairs_view(final(query)@) =~= pairs_view(old(query)@).push((name@, value@)));
}

/// Adds a query parameter when there is a value.
pub fn push_opt_pair(query: &mut Vec<(String, String)>, name: &str, value: &Option<String>)
    ensures
        pairs_view(final(query)@) == opt_pair(pairs_view(old(query)@), name@, opt_str(*value)),
{
    match value {
        Some(v) => push_pair(query, name, v.clone()),
        None => {},
    }
}

/// The parameters with `(name, value)` added when there is a value.
pub open spec fn opt_pair(
    query: Seq<(Seq<char>, Seq<char>)>,
    name: Seq<char>,
    value: Option<Seq<char>>,
) -> Seq<(Seq<char>, Seq<char>)> {
    match value {
        Some(v) => query.push((name, v)),
        None => query,
    }
}

/// The parameters of a page of a listing, with an optional search text.
pub open spec fn page_query_of(page: u32, search: Option<Seq<char>>) -> Seq<(Seq<char>, Seq<char>)> {
    opt_pair(seq![("page"@, decimal(page as nat))], "search"@, search)
}

/// The parameters of a page of a listing.
pub fn page_query(page: u32, search: &Option<String>) -> (q: Vec<(String, String)>)
    ensures
        pairs_view(q@) == page_query_of(page, opt_str(*search)),
{
    let mut q: Vec<(String, String)> = Vec::new();
    push_pair(&mut q, "page", u64_to_text(page as u64));
    assert(pairs_view(q@) =~= seq![("page"@, decimal(page as nat))]);
    push_opt_pair(&mut q, "search", search);
    q
}

/// The parameters of a time range in milliseconds since the epoch.
pub open spec fn range_query_of(start_at: i64, end_at: i64) -> Seq<(Seq<char>, Seq<char>)> {
    seq![
        ("startAt"@, signed_decimal(start_at as int)),
        ("endAt"@, signed_decimal(end_at as int)),
    ]
}

/// The parameters of a time range.
pub fn range_query(start_at: i64, end_at: i64) -> (q: Vec<(String, String)>)
    ensures
        pairs_view(q@) == range_query_of(start_at, end_at),
{
    let mut q: Vec<(String, String)> = Vec::new();
    push_pair(&mut q, "startAt", i64_to_text(start_at));
    push_pair(&mut q, "endAt", i64_to_text(end_at));
    assert(pairs_view(q@) =~= range_query_of(start_at, end_at));
    q
}

/// Adds a field to fields under construction.
pub fn push_field(fields: &mut Vec<(String, Json)>, name: &str, value: Json)
    ensures
        fields_view(final(fields)@) == fields_view(old(fields)@).push((name@, value@)),
{
    fields.push((owned(name), value));
    assert(fields_view(final(fields)@) =~= fields_view(old(fields)@).push((name@, value@)));
}

/// Adds a string field when there is a value.
pub fn push_opt_str_field(fields: &mut Vec<(String, Json)>, name: &str, value: &Option<String>)
    ensures
        fields_view(final(fields)@) == opt_field(
            fields_view(old(fields)@),
            name@,
            opt_str(*value),
        ),
{
    match value {
        Some(v) => push_field(fields, name, Json::String(v.clone())),
        None => {},
    }
}

/// The fields with a string field added when there is a value.
pub open spec fn opt_field(
    fields: Seq<(Seq<char>, JsonValue)>,
    name: Seq<char>,
    value: Option<Seq<char>>,
) -> Seq<(Seq<char>, JsonValue)> {
    match value {
        Some(v) => fields.push((name, JsonValue::String(v))),
        None => fields,
    }
}

/// An object with the given fields.
pub fn object(fields: Vec<(String, Json)>) -> (j: Json)
    ensures
        j@ == JsonValue::Object(fields_view(fields@)),
{
    proof {
        lemma_object_view(fields);
    }
    Json::Object(fields)
}

/// A new empty list of fields.
pub fn no_fields() -> (f: Vec<(String, Json)>)
    ensures
        fields_view(f@) == Seq::<(Seq<char>, JsonValue)>::empty(),
{
    let f: Vec<(String, Json)> = Vec::new();
    assert(fields_view(f@) =~= Seq::<(Seq<char>, JsonValue)>::empty());
    f
}

/// An object with one string field.
pub open spec fn obj1(a: Seq<char>, x: Seq<char>) -> JsonValue {
    JsonValue::Object(seq![(a, JsonValue::String(x))])
}

/// An object with two string fields.
pub open spec fn obj2(a: Seq<char>, x: Seq<char>, b: Seq<char>, y: Seq<char>) -> JsonValue {
    JsonValue::Object(seq![(a, JsonValue::String(x)), (b, JsonValue::String(y))])
}

/// An object with one string field.
pub fn object1(a: &str, x: String) -> (j: Json)
    ensures
        j@ == obj1(a@, x@),
{
    let mut f = no_fields();
    push_field(&mut f, a, Json::String(x));
    assert(fields_view(f@) =~= seq![(a@, JsonValue::String(x@))]);
    object(f)
}

/// An object with two string fields.
pub fn object2(a: &str, x: String, b: &str, y: String) -> (j: Json)
    ensures
        j@ == obj2(a@, x@, b@, y@),
{
    let mut f = no_fields();
    push_field(&mut f, a, Json::String(x));
    push_field(&mut f, b, Json::String(y));
    assert(fields_view(f@) =~= seq![(a@, JsonValue::String(x@)), (b@, JsonValue::String(y@))]);
    object(f)
}

} // verus!

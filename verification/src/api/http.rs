//! Requests to send and replies received, as plain values.
use vstd::prelude::*;
use crate::json::{Json, JsonValue};
use crate::text::{concat3, decimal, u64_to_text};

verus! {

/// The HTTP methods the API is called with.
#[derive(Clone, Copy, Debug, PartialEq, Eq)]
pub enum Method {
    Get,
    Post,
    Delete,
}

/// The views of a sequence of name/value string pairs.
pub open spec fn pairs_view(p: Seq<(String, String)>) -> Seq<(Seq<char>, Seq<char>)> {
    Seq::new(p.len(), |i: int| (p[i].0@, p[i].1@))
}

/// The view of an optional JSON body.
pub open spec fn body_view(b: Option<Json>) -> Option<JsonValue> {
    match b {
        Some(j) => Some(j@),
        None => None,
    }
}

/// One call of the API: method, path below the server URL, query
/// parameters and JSON body.
#[derive(Debug)]
pub struct ApiCall {
    pub method: Method,
    pub path: String,
    pub query: Vec<(String, String)>,
    pub body: Option<Json>,
}

/// The view of an [`ApiCall`].
pub struct ApiCallView {
    pub method: Method,
    pub path: Seq<char>,
    pub query: Seq<(Seq<char>, Seq<char>)>,
    pub body: Option<JsonValue>,
}

impl View for ApiCall {
    type V = ApiCallView;

    open spec fn view(&self) -> ApiCallView {
        ApiCallView {
            method: self.method,
            path: self.path@,
            query: pairs_view(self.query@),
            body: body_view(self.body),
        }
    }
}

/// A request ready to be sent: method, full URL, headers, query parameters
/// and JSON body.
#[derive(Debug)]
pub struct HttpRequest {
    pub method: Method,
    pub url: String,
    pub headers: Vec<(String, String)>,
    pub query: Vec<(String, String)>,
    pub body: Option<Json>,
}

/// The view of an [`HttpRequest`].
pub struct RequestView {
    pub method: Method,
    pub url: Seq<char>,
    pub headers: Seq<(Seq<char>, Seq<char>)>,
    pub query: Seq<(Seq<char>, Seq<char>)>,
    pub body: Option<JsonValue>,
}

impl View for HttpRequest {
    type V = RequestView;

    open spec fn view(&self) -> RequestView {
        RequestView {
            method: self.method,
            url: self.url@,
            headers: pairs_view(self.headers@),
            query: pairs_view(self.query@),
            body: body_view(self.body),
        }
    }
}

/// A reply as received: the status code, the body as text, and the body
/// read as JSON when it is JSON.
#[derive(Debug)]
pub struct HttpReply {
    pub status: u16,
    pub text: String,
    pub json: Option<Json>,
}

/// Whether a character may stand in an HTTP header value: visible ASCII,
/// space, tab, and anything beyond ASCII (whose UTF-8 bytes are all 0x80
/// or above).
pub open spec fn header_char_ok(c: char) -> bool {
    ((c as u32) >= 32 && (c as u32) != 127) || c == '\t'
}

/// Whether a text may stand as an HTTP header value.
pub open spec fn header_value_ok(s: Seq<char>) -> bool {
    forall|i: int| 0 <= i < s.len() ==> header_char_ok(#[trigger] s[i])
}

/// The message of a rejected header value.
pub open spec fn header_error_text() -> Seq<char> {
    "failed to parse header value"@
}

/// Checks a header value with `http::HeaderValue::from_str`.
///
/// Trusted: `from_str` rejects the value exactly when one of its UTF-8
/// bytes is below 32 other than tab, or is 127; its error displays as
/// "failed to parse header value". The accepted value itself is not kept.
#[verifier::external_body]
pub(crate) fn check_header_value(s: &str) -> (r: Result<(), String>)
    ensures
        r is Ok <==> header_value_ok(s@),
        r matches Err(m) ==> m@ == header_error_text(),
{
    match reqwest::header::HeaderValue::from_str(s) {
        Ok(_) => Ok(()),
        Err(e) => Err(e.to_string()),
    }
}

/// The standard reason phrase of an HTTP status code.
pub uninterp spec fn reason_phrase(code: u16) -> Option<Seq<char>>;

/// The reason phrase of a status code, with `http::StatusCode::from_u16`
/// and `StatusCode::canonical_reason`.
///
/// Trusted: the result is the crate's fixed phrase for the code, and there
/// is none for codes outside 100..=999, which `from_u16` refuses.
#[verifier::external_body]
pub(crate) fn canonical_reason(code: u16) -> (r: Option<String>)
    ensures
        match r {
            Some(t) => reason_phrase(code) == Some(t@),
            None => reason_phrase(code) is None,
        },
        (code < 100 || code > 999) ==> r is None,
{
    reqwest::StatusCode::from_u16(code).ok().and_then(|s| s.canonical_reason()).map(|t| t.to_string())
}

/// How a status code is displayed: its number, a space, and its reason
/// phrase or "<unknown status code>".
pub open spec fn status_text_of(code: u16) -> Seq<char> {
    decimal(code as nat) + " "@ + match reason_phrase(code) {
        Some(p) => p,
        None => "<unknown status code>"@,
    }
}

/// The display text of a status code.
pub fn status_text(code: u16) -> (s: String)
    ensures
        s@ == status_text_of(code),
{
    let number = u64_to_text(code as u64);
    let reason = match canonical_reason(code) {
        Some(p) => p,
        None => "<unknown status code>".to_owned(),
    };
    concat3(number.as_str(), " ", reason.as_str())
}

/// Whether a status code reports success (200..=299).
pub open spec fn is_success(code: u16) -> bool {
    200 <= code < 300
}

} // verus!

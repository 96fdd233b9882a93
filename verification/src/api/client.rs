//! The API client: which requests it sends and how it reads the replies.
use vstd::prelude::*;
use crate::api::http::{
    body_view, check_header_value, header_error_text, header_value_ok, pairs_view, ApiCall,
    HttpReply, HttpRequest, Method, RequestView,
};
use crate::config::{clone_opt, opt_str, Config};
use crate::json::{Json, JsonValue};
use crate::text::{concat, decimal, owned, trim_end_char, trim_end_slashes, u64_to_text};

verus! {

/// Why a call of the API failed.
#[derive(Clone, Debug, PartialEq)]
pub enum ApiError {
    /// The request could not be sent or the reply could not be read.
    Http(String),
    /// The server answered with an error status.
    Api { status: u16, body: String },
    /// No token is saved.
    NotAuthenticated,
    /// Any other failure, with its message.
    Other(String),
}

/// The view of an [`ApiError`].
pub enum ApiErrorView {
    Http(Seq<char>),
    Api { status: u16, body: Seq<char> },
    NotAuthenticated,
    Other(Seq<char>),
}

impl View for ApiError {
    type V = ApiErrorView;

    open spec fn view(&self) -> ApiErrorView {
        match self {
            ApiError::Http(m) => ApiErrorView::Http(m@),
            ApiError::Api { status, body } => ApiErrorView::Api { status: *status, body: body@ },
            ApiError::NotAuthenticated => ApiErrorView::NotAuthenticated,
            ApiError::Other(m) => ApiErrorView::Other(m@),
        }
    }
}

/// The message shown for an error.
pub open spec fn error_text(e: ApiErrorView) -> Seq<char> {
    match e {
        ApiErrorView::Http(m) => "HTTP error: "@ + m,
        ApiErrorView::Api { status, body } => "API error ("@ + decimal(status as nat) + "): "@
            + body,
        ApiErrorView::NotAuthenticated => "Not authenticated. Run `umami-cli auth login` first."@,
        ApiErrorView::Other(m) => m,
    }
}

/// The message of a reply body that is not JSON.
pub open spec fn decode_error_text() -> Seq<char> {
    "error decoding response body"@
}

/// The message when no server URL is saved.
pub open spec fn no_server_text() -> Seq<char> {
    "No server URL configured. Run `umami-cli auth login` first."@
}

impl ApiError {
    /// The message shown for this error.
    pub fn message(&self) -> (m: String)
        ensures
            m@ == error_text(self@),
    {
        match self {
            ApiError::Http(m) => concat("HTTP error: ", m.as_str()),
            ApiError::Api { status, body } => {
                let mut s = "API error (".to_owned();
                let code = u64_to_text(*status as u64);
                s.append(code.as_str());
                s.append("): ");
                s.append(body.as_str());
                s
            },
            ApiError::NotAuthenticated => owned(
                "Not authenticated. Run `umami-cli auth login` first.",
            ),
            ApiError::Other(m) => m.clone(),
        }
    }
}

/// The result of a call, seen through views.
pub open spec fn result_view(r: Result<Json, ApiError>) -> Result<JsonValue, ApiErrorView> {
    match r {
        Ok(j) => Ok(j@),
        Err(e) => Err(e@),
    }
}

/// A client of one Umami server: its base URL, and the token once logged in.
pub struct UmamiClient {
    base_url: String,
    token: Option<String>,
}

/// The view of an [`UmamiClient`].
pub struct ClientView {
    pub base_url: Seq<char>,
    pub token: Option<Seq<char>>,
}

impl View for UmamiClient {
    type V = ClientView;

    closed spec fn view(&self) -> ClientView {
        ClientView { base_url: self.base_url@, token: opt_str(self.token) }
    }
}

/// The `Content-Type` header every request carries.
pub open spec fn content_type_header() -> (Seq<char>, Seq<char>) {
    ("content-type"@, "application/json"@)
}

/// The value of the `Authorization` header for a token.
pub open spec fn bearer(token: Seq<char>) -> Seq<char> {
    "Bearer "@ + token
}

/// The headers of an authenticated request, or the error when the token
/// cannot stand in a header.
pub open spec fn auth_headers(token: Seq<char>) -> Result<Seq<(Seq<char>, Seq<char>)>, ApiErrorView> {
    if header_value_ok(bearer(token)) {
        Ok(seq![content_type_header(), ("authorization"@, bearer(token))])
    } else {
        Err(ApiErrorView::Other(header_error_text()))
    }
}

/// The request an authenticated call becomes: it needs a token, sends the
/// JSON content type and the bearer token, and goes to the base URL
/// followed by the path.
pub open spec fn authed_request(
    c: ClientView,
    method: Method,
    path: Seq<char>,
    query: Seq<(Seq<char>, Seq<char>)>,
    body: Option<JsonValue>,
) -> Result<RequestView, ApiErrorView> {
    match c.token {
        None => Err(ApiErrorView::NotAuthenticated),
        Some(t) => match auth_headers(t) {
            Err(e) => Err(e),
            Ok(headers) => Ok(
                RequestView { method, url: c.base_url + path, headers, query, body },
            ),
        },
    }
}

/// The view of a prepared request or its error.
pub open spec fn request_result_view(r: Result<HttpRequest, ApiError>) -> Result<
    RequestView,
    ApiErrorView,
> {
    match r {
        Ok(q) => Ok(q@),
        Err(e) => Err(e@),
    }
}

/// How a reply is read: an error status gives the status and the body
/// text, a successful one the JSON body, and a body that is not JSON fails.
pub open spec fn reply_result(status: u16, text: Seq<char>, json: Option<JsonValue>) -> Result<
    JsonValue,
    ApiErrorView,
> {
    if status >= 400 {
        Err(ApiErrorView::Api { status, body: text })
    } else {
        match json {
            Some(j) => Ok(j),
            None => Err(ApiErrorView::Http(decode_error_text())),
        }
    }
}

/// The view of a reply's JSON body.
pub open spec fn reply_json(r: HttpReply) -> Option<JsonValue> {
    body_view(r.json)
}

/// The token in a login reply, if the reply has a string `token` field.
pub open spec fn token_of(data: JsonValue) -> Option<Seq<char>> {
    match data.get("token"@) {
        Some(JsonValue::String(t)) => Some(t),
        _ => None,
    }
}

/// The login request for a user.
pub open spec fn login_request_of(c: ClientView, username: Seq<char>, password: Seq<char>) -> RequestView {
    RequestView {
        method: Method::Post,
        url: c.base_url + "/api/auth/login"@,
        headers: seq![content_type_header()],
        query: Seq::empty(),
        body: Some(
            JsonValue::Object(
                seq![
                    ("username"@, JsonValue::String(username)),
                    ("password"@, JsonValue::String(password)),
                ],
            ),
        ),
    }
}

/// The client after a login reply: the token of a successful reply is
/// kept, and nothing else changes.
pub open spec fn after_login(c: ClientView, result: Result<JsonValue, ApiErrorView>) -> ClientView {
    match result {
        Ok(data) => match token_of(data) {
            Some(t) => ClientView { base_url: c.base_url, token: Some(t) },
            None => c,
        },
        Err(_) => c,
    }
}

impl UmamiClient {
    /// A client for the server at `base_url` (trailing slashes removed),
    /// with an optional token.
    pub fn new(base_url: &str, token: Option<String>) -> (c: UmamiClient)
        ensures
            c@ == (ClientView { base_url: trim_end_char(base_url@, '/'), token: opt_str(token) }),
    {
        UmamiClient { base_url: trim_end_slashes(base_url), token }
    }

    /// A client for the saved settings: fails when no server URL is saved.
    pub fn from_config(config: &Config) -> (r: Result<UmamiClient, ApiError>)
        ensures
            match config@.server_url {
                None => r matches Err(e) && e@ == ApiErrorView::Other(no_server_text()),
                Some(url) => r matches Ok(c) && c@ == (ClientView {
                    base_url: trim_end_char(url, '/'),
                    token: config@.token,
                }),
            },
    {
        match &config.server_url {
            None => Err(ApiError::Other(owned("No server URL configured. Run `umami-cli auth login` first."))),
            Some(url) => Ok(
                UmamiClient { base_url: trim_end_slashes(url.as_str()), token: clone_opt(&config.token) },
            ),
        }
    }

    /// The server URL, without trailing slashes.
    pub fn base_url(&self) -> (s: &String)
        ensures
            s@ == self@.base_url,
    {
        &self.base_url
    }

    /// The token, if logged in.
    pub fn token(&self) -> (t: Option<String>)
        ensures
            opt_str(t) == self@.token,
    {
        clone_opt(&self.token)
    }

    /// The headers of an authenticated request.
    fn headers(&self, token: &String) -> (r: Result<Vec<(String, String)>, ApiError>)
        ensures
            match auth_headers(token@) {
                Ok(h) => r matches Ok(v) && pairs_view(v@) == h,
                Err(e) => r matches Err(x) && x@ == e,
            },
    {
        let value = concat("Bearer ", token.as_str());
        match check_header_value(value.as_str()) {
            Ok(()) => {
                let mut headers: Vec<(String, String)> = Vec::new();
                headers.push((owned("content-type"), owned("application/json")));
                headers.push((owned("authorization"), value));
                assert(pairs_view(headers@) =~= seq![
                    content_type_header(),
                    ("authorization"@, bearer(token@)),
                ]);
                Ok(headers)
            },
            Err(m) => Err(ApiError::Other(m)),
        }
    }

    /// Fails unless a token is saved.
    pub fn require_auth(&self) -> (r: Result<(), ApiError>)
        ensures
            r is Ok <==> self@.token is Some,
            r matches Err(e) ==> e@ == ApiErrorView::NotAuthenticated,
    {
        match &self.token {
            None => Err(ApiError::NotAuthenticated),
            Some(_) => Ok(()),
        }
    }

    /// An authenticated request.
    fn request(
        &self,
        method: Method,
        path: &str,
        query: Vec<(String, String)>,
        body: Option<Json>,
    ) -> (r: Result<HttpRequest, ApiError>)
        ensures
            request_result_view(r) == authed_request(
                self@,
                method,
                path@,
                pairs_view(query@),
                body_view(body),
            ),
    {
        match &self.token {
            None => Err(ApiError::NotAuthenticated),
            Some(t) => {
                let headers = match self.headers(t) {
                    Ok(h) => h,
                    Err(e) => {
                        return Err(e);
                    },
                };
                let url = concat(self.base_url.as_str(), path);
                Ok(HttpRequest { method, url, headers, query, body })
            },
        }
    }

    /// The request of a GET call.
    pub fn get_request(&self, path: &str) -> (r: Result<HttpRequest, ApiError>)
        ensures
            request_result_view(r) == authed_request(
                self@,
                Method::Get,
                path@,
                Seq::empty(),
                None,
            ),
    {
        let query: Vec<(String, String)> = Vec::new();
        assert(pairs_view(query@) =~= Seq::empty());
        self.request(Method::Get, path, query, None)
    }

    /// The request of a GET call with query parameters.
    pub fn get_with_query_request(&self, path: &str, query: Vec<(String, String)>) -> (r: Result<
        HttpRequest,
        ApiError,
    >)
        ensures
            request_result_view(r) == authed_request(
                self@,
                Method::Get,
                path@,
                pairs_view(query@),
                None,
            ),
    {
        self.request(Method::Get, path, query, None)
    }

    /// The request of a POST call with a JSON body.
    pub fn post_request(&self, path: &str, body: Json) -> (r: Result<HttpRequest, ApiError>)
        ensures
            request_result_view(r) == authed_request(
                self@,
                Method::Post,
                path@,
                Seq::empty(),
                Some(body@),
            ),
    {
        let query: Vec<(String, String)> = Vec::new();
        assert(pairs_view(query@) =~= Seq::empty());
        self.request(Method::Post, path, query, Some(body))
    }

    /// The request of a DELETE call.
    pub fn delete_request(&self, path: &str) -> (r: Result<HttpRequest, ApiError>)
        ensures
            request_result_view(r) == authed_request(
                self@,
                Method::Delete,
                path@,
                Seq::empty(),
                None,
            ),
    {
        let query: Vec<(String, String)> = Vec::new();
        assert(pairs_view(query@) =~= Seq::empty());
        self.request(Method::Delete, path, query, None)
    }

    /// The request of an API call described by a command.
    pub fn prepare(&self, call: ApiCall) -> (r: Result<HttpRequest, ApiError>)
        ensures
            request_result_view(r) == authed_request(
                self@,
                call@.method,
                call@.path,
                call@.query,
                call@.body,
            ),
    {
        let ApiCall { method, path, query, body } = call;
        self.request(method, path.as_str(), query, body)
    }

    /// The request that verifies the saved token.
    pub fn verify_request(&self) -> (r: Result<HttpRequest, ApiError>)
        ensures
            request_result_view(r) == authed_request(
                self@,
                Method::Post,
                "/api/auth/verify"@,
                Seq::empty(),
                Some(JsonValue::Object(Seq::empty())),
            ),
    {
        match self.require_auth() {
            Err(e) => Err(e),
            Ok(()) => self.post_request("/api/auth/verify", Json::empty_object()),
        }
    }

    /// The login request for a user: it needs no token.
    pub fn login_request(&self, username: &str, password: &str) -> (r: HttpRequest)
        ensures
            r@ == login_request_of(self@, username@, password@),
    {
        let mut headers: Vec<(String, String)> = Vec::new();
        headers.push((owned("content-type"), owned("application/json")));
        assert(pairs_view(headers@) =~= seq![content_type_header()]);
        let query: Vec<(String, String)> = Vec::new();
        assert(pairs_view(query@) =~= Seq::empty());
        let mut fields: Vec<(String, Json)> = Vec::new();
        fields.push((owned("username"), Json::str(username)));
        fields.push((owned("password"), Json::str(password)));
        let body = Json::Object(fields);
        proof {
            crate::json::lemma_object_view(fields);
            assert(crate::json::fields_view(fields@) =~= seq![
                ("username"@, JsonValue::String(username@)),
                ("password"@, JsonValue::String(password@)),
            ]);
        }
        let url = concat(self.base_url.as_str(), "/api/auth/login");
        HttpRequest { method: Method::Post, url, headers, query, body: Some(body) }
    }

    /// Reads a reply: an error status fails with the status and body text;
    /// otherwise the JSON body is the result, and a body that is not JSON
    /// fails.
    pub fn handle_response(reply: HttpReply) -> (r: Result<Json, ApiError>)
        ensures
            result_view(r) == reply_result(reply.status, reply.text@, reply_json(reply)),
    {
        let HttpReply { status, text, json } = reply;
        if status >= 400 {
            return Err(ApiError::Api { status, body: text });
        }
        match json {
            Some(j) => Ok(j),
            None => Err(ApiError::Http(owned("error decoding response body"))),
        }
    }

    /// Reads a login reply and keeps the token it carries.
    pub fn finish_login(&mut self, reply: HttpReply) -> (r: Result<Json, ApiError>)
        ensures
            result_view(r) == reply_result(reply.status, reply.text@, reply_json(reply)),
            final(self)@ == after_login(old(self)@, result_view(r)),
    {
        let r = UmamiClient::handle_response(reply);
        match &r {
            Ok(data) => match data.get("token") {
                Some(t) => match t.as_str() {
                    Some(s) => {
                        self.token = Some(s.clone());
                    },
                    None => {},
                },
                None => {},
            },
            Err(_) => {},
        }
        r
    }
}

/// Trailing slashes of the server URL do not matter: the base URL is the
/// same with or without one more.
pub proof fn lemma_trailing_slash_ignored(url: Seq<char>)
    ensures
        trim_end_char(url.push('/'), '/') == trim_end_char(url, '/'),
{
    assert(url.push('/').drop_last() =~= url);
}

/// The base URL is never left with a trailing slash, so normalizing it
/// again changes nothing.
pub proof fn lemma_base_url_normalized(url: Seq<char>)
    ensures
        trim_end_char(trim_end_char(url, '/'), '/') == trim_end_char(url, '/'),
        trim_end_char(url, '/').len() == 0 || trim_end_char(url, '/').last() != '/',
    decreases url.len(),
{
    if url.len() > 0 && url.last() == '/' {
        lemma_base_url_normalized(url.drop_last());
    }
}

/// Without a token every authenticated call fails before anything is sent.
pub proof fn lemma_no_token_no_request(
    c: ClientView,
    method: Method,
    path: Seq<char>,
    query: Seq<(Seq<char>, Seq<char>)>,
    body: Option<JsonValue>,
)
    requires
        c.token is None,
    ensures
        authed_request(c, method, path, query, body) == Err::<RequestView, ApiErrorView>(
            ApiErrorView::NotAuthenticated,
        ),
{
}

/// Every authenticated request that goes out carries the saved token as
/// its bearer credential and the JSON content type.
pub proof fn lemma_requests_carry_token(
    c: ClientView,
    method: Method,
    path: Seq<char>,
    query: Seq<(Seq<char>, Seq<char>)>,
    body: Option<JsonValue>,
)
    requires
        authed_request(c, method, path, query, body) is Ok,
    ensures
        c.token is Some,
        authed_request(c, method, path, query, body)->Ok_0.headers.contains(
            ("authorization"@, bearer(c.token->Some_0)),
        ),
        authed_request(c, method, path, query, body)->Ok_0.headers.contains(content_type_header()),
{
    let q = authed_request(c, method, path, query, body)->Ok_0;
    assert(q.headers[0] == content_type_header());
    assert(q.headers[1] == ("authorization"@, bearer(c.token->Some_0)));
}

/// After a successful login whose reply carries a token, authenticated
/// calls go out with that token as the bearer credential.
pub proof fn lemma_login_authenticates(
    c: ClientView,
    status: u16,
    text: Seq<char>,
    data: JsonValue,
    token: Seq<char>,
    method: Method,
    path: Seq<char>,
    query: Seq<(Seq<char>, Seq<char>)>,
    body: Option<JsonValue>,
)
    requires
        status < 400,
        token_of(data) == Some(token),
        header_value_ok(bearer(token)),
    ensures
        ({
            let after = after_login(c, reply_result(status, text, Some(data)));
            &&& after.token == Some(token)
            &&& after.base_url == c.base_url
            &&& authed_request(after, method, path, query, body) matches Ok(q)
            &&& q.url == c.base_url + path
            &&& q.headers.contains(("authorization"@, bearer(token)))
        }),
{
    let after = after_login(c, reply_result(status, text, Some(data)));
    let q = authed_request(after, method, path, query, body)->Ok_0;
    assert(q.headers[1] == ("authorization"@, bearer(token)));
}

/// A failed login leaves the client as it was.
pub proof fn lemma_failed_login_keeps_client(c: ClientView, status: u16, text: Seq<char>, json: Option<JsonValue>)
    requires
        status >= 400,
    ensures
        after_login(c, reply_result(status, text, json)) == c,
{
}

} // verus!

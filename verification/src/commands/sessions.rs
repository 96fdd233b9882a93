//! Session data.
use vstd::prelude::*;
use crate::api::client::ApiError;
use crate::api::http::{pairs_view, ApiCall, ApiCallView, Method};
use crate::commands::{
    get_call, get_of, get_query_call, get_query_of, opt_pair, push_opt_pair, push_pair,
    range_query, range_query_of,
};
use crate::config::opt_str;
use crate::json::{Json, JsonValue};
use crate::output::{
    column_headers, column_keys, lemma_details_fields, lemma_listing_columns, list_items,
    shows_columns, shows_fields, details, error_outputs, listing, outputs_view, show_details, show_error, show_json,
    show_listing, strs_view, ListSource, Output, OutputView,
};
use crate::text::{concat, concat3, decimal, signed_decimal, u64_to_text};

verus! {

/// View session data.
pub enum SessionsCmd {
    /// List sessions of a website.
    List {
        website_id: String,
        start_at: i64,
        end_at: i64,
        search: Option<String>,
        page: u32,
        json: bool,
    },
    /// Session statistics.
    Stats { website_id: String, start_at: i64, end_at: i64, json: bool },
    /// Details of one session.
    Get { website_id: String, session_id: String, json: bool },
    /// Activity of one session.
    Activity { website_id: String, session_id: String, json: bool },
    /// Properties of one session.
    Properties { website_id: String, session_id: String, json: bool },
    /// Sessions by hour of weekday.
    Weekly { website_id: String, start_at: i64, end_at: i64, timezone: String, json: bool },
}

/// The path of one session.
pub open spec fn session_path(website: Seq<char>, session: Seq<char>) -> Seq<char> {
    "/api/websites/"@ + website + "/sessions/"@ + session
}

/// The path of one session.
fn session_path_of(website: &String, session: &String) -> (p: String)
    ensures
        p@ == session_path(website@, session@),
{
    concat(concat3("/api/websites/", website.as_str(), "/sessions/").as_str(), session.as_str())
}

impl SessionsCmd {
    /// The API call of the command.
    pub open spec fn request(&self) -> ApiCallView {
        match self {
            SessionsCmd::List { website_id, start_at, end_at, search, page, .. } => get_query_of(
                "/api/websites/"@ + website_id@ + "/sessions"@,
                opt_pair(
                    range_query_of(*start_at, *end_at).push(("page"@, decimal(*page as nat))),
                    "search"@,
                    opt_str(*search),
                ),
            ),
            SessionsCmd::Stats { website_id, start_at, end_at, .. } => get_query_of(
                "/api/websites/"@ + website_id@ + "/sessions/stats"@,
                range_query_of(*start_at, *end_at),
            ),
            SessionsCmd::Get { website_id, session_id, .. } => get_of(
                session_path(website_id@, session_id@),
            ),
            SessionsCmd::Activity { website_id, session_id, .. } => get_of(
                session_path(website_id@, session_id@) + "/activity"@,
            ),
            SessionsCmd::Properties { website_id, session_id, .. } => get_of(
                session_path(website_id@, session_id@) + "/properties"@,
            ),
            SessionsCmd::Weekly { website_id, start_at, end_at, timezone, .. } => get_query_of(
                "/api/websites/"@ + website_id@ + "/sessions/weekly"@,
                range_query_of(*start_at, *end_at).push(("timezone"@, timezone@)),
            ),
        }
    }

    /// What the command shows for a successful reply.
    pub open spec fn display(&self, data: JsonValue) -> Seq<OutputView> {
        match self {
            SessionsCmd::List { json, .. } => listing(
                data,
                *json,
                ListSource::Data,
                seq!["ID"@, "BROWSER"@, "OS"@, "COUNTRY"@, "VISITS"@, "VIEWS"@],
                seq!["id"@, "browser"@, "os"@, "country"@, "visits"@, "views"@],
            ),
            SessionsCmd::Stats { json, .. } => details(
                data,
                *json,
                seq!["Pageviews: "@, "Visitors:  "@, "Visits:    "@, "Countries: "@, "Events:    "@],
                seq!["pageviews"@, "visitors"@, "visits"@, "countries"@, "events"@],
            ),
            SessionsCmd::Get { json, .. } => details(
                data,
                *json,
                seq![
                    "ID:       "@,
                    "Browser:  "@,
                    "OS:       "@,
                    "Device:   "@,
                    "Country:  "@,
                    "Language: "@,
                    "Visits:   "@,
                    "Views:    "@,
                ],
                seq![
                    "id"@,
                    "browser"@,
                    "os"@,
                    "device"@,
                    "country"@,
                    "language"@,
                    "visits"@,
                    "views"@,
                ],
            ),
            SessionsCmd::Activity { json, .. } => listing(
                data,
                *json,
                ListSource::Array,
                seq!["TIME"@, "TYPE"@, "EVENT"@, "URL"@],
                seq!["createdAt"@, "eventType"@, "eventName"@, "urlPath"@],
            ),
            SessionsCmd::Properties { .. } => seq![OutputView::Json(data)],
            SessionsCmd::Weekly { .. } => seq![OutputView::Json(data)],
        }
    }

    /// The API call of the command.
    pub fn call(&self) -> (c: ApiCall)
        ensures
            c@ == self.request(),
    {
        match self {
            SessionsCmd::List { website_id, start_at, end_at, search, page, .. } => {
                let mut q = range_query(*start_at, *end_at);
                push_pair(&mut q, "page", u64_to_text(*page as u64));
                push_opt_pair(&mut q, "search", search);
                get_query_call(concat3("/api/websites/", website_id.as_str(), "/sessions"), q)
            },
            SessionsCmd::Stats { website_id, start_at, end_at, .. } => get_query_call(
                concat3("/api/websites/", website_id.as_str(), "/sessions/stats"),
                range_query(*start_at, *end_at),
            ),
            SessionsCmd::Get { website_id, session_id, .. } => {
                get_call(session_path_of(website_id, session_id))
            },
            SessionsCmd::Activity { website_id, session_id, .. } => {
                let p = session_path_of(website_id, session_id);
                get_call(concat(p.as_str(), "/activity"))
            },
            SessionsCmd::Properties { website_id, session_id, .. } => {
                let p = session_path_of(website_id, session_id);
                get_call(concat(p.as_str(), "/properties"))
            },
            SessionsCmd::Weekly { website_id, start_at, end_at, timezone, .. } => {
                let mut q = range_query(*start_at, *end_at);
                push_pair(&mut q, "timezone", timezone.clone());
                get_query_call(concat3("/api/websites/", website_id.as_str(), "/sessions/weekly"), q)
            },
        }
    }

    /// What the command shows for a successful reply.
    pub fn render(&self, data: Json) -> (v: Vec<Output>)
        ensures
            outputs_view(v@) == self.display(data@),
    {
        match self {
            SessionsCmd::List { json, .. } => {
                let headers: &[&str] = &["ID", "BROWSER", "OS", "COUNTRY", "VISITS", "VIEWS"];
                let keys: &[&str] = &["id", "browser", "os", "country", "visits", "views"];
                assert(strs_view(headers@) =~= seq![
                    "ID"@,
                    "BROWSER"@,
                    "OS"@,
                    "COUNTRY"@,
                    "VISITS"@,
                    "VIEWS"@,
                ]);
                assert(strs_view(keys@) =~= seq![
                    "id"@,
                    "browser"@,
                    "os"@,
                    "country"@,
                    "visits"@,
                    "views"@,
                ]);
                show_listing(data, *json, ListSource::Data, headers, keys)
            },
            SessionsCmd::Stats { json, .. } => {
                let labels: &[&str] = &["Pageviews: ", "Visitors:  ", "Visits:    ", "Countries: ", "Events:    "];
                let keys: &[&str] = &["pageviews", "visitors", "visits", "countries", "events"];
                assert(strs_view(labels@) =~= seq![
                    "Pageviews: "@,
                    "Visitors:  "@,
                    "Visits:    "@,
                    "Countries: "@,
                    "Events:    "@,
                ]);
                assert(strs_view(keys@) =~= seq![
                    "pageviews"@,
                    "visitors"@,
                    "visits"@,
                    "countries"@,
                    "events"@,
                ]);
                show_details(data, *json, labels, keys)
            },
            SessionsCmd::Get { json, .. } => {
                let labels: &[&str] = &[
                    "ID:       ",
                    "Browser:  ",
                    "OS:       ",
                    "Device:   ",
                    "Country:  ",
                    "Language: ",
                    "Visits:   ",
                    "Views:    ",
                ];
                let keys: &[&str] = &[
                    "id",
                    "browser",
                    "os",
                    "device",
                    "country",
                    "language",
                    "visits",
                    "views",
                ];
                assert(strs_view(labels@) =~= seq![
                    "ID:       "@,
                    "Browser:  "@,
                    "OS:       "@,
                    "Device:   "@,
                    "Country:  "@,
                    "Language: "@,
                    "Visits:   "@,
                    "Views:    "@,
                ]);
                assert(strs_view(keys@) =~= seq![
                    "id"@,
                    "browser"@,
                    "os"@,
                    "device"@,
                    "country"@,
                    "language"@,
                    "visits"@,
                    "views"@,
                ]);
                show_details(data, *json, labels, keys)
            },
            SessionsCmd::Activity { json, .. } => {
                let headers: &[&str] = &["TIME", "TYPE", "EVENT", "URL"];
                let keys: &[&str] = &["createdAt", "eventType", "eventName", "urlPath"];
                assert(strs_view(headers@) =~= seq!["TIME"@, "TYPE"@, "EVENT"@, "URL"@]);
                assert(strs_view(keys@) =~= seq![
                    "createdAt"@,
                    "eventType"@,
                    "eventName"@,
                    "urlPath"@,
                ]);
                show_listing(data, *json, ListSource::Array, headers, keys)
            },
            SessionsCmd::Properties { .. } => show_json(data),
            SessionsCmd::Weekly { .. } => show_json(data),
        }
    }

    /// What the command shows for the result of its call.
    pub fn outcome(&self, result: Result<Json, ApiError>) -> (v: Vec<Output>)
        ensures
            match result {
                Ok(data) => outputs_view(v@) == self.display(data@),
                Err(e) => outputs_view(v@) == error_outputs(""@, e@),
            },
    {
        match result {
            Ok(data) => self.render(data),
            Err(e) => show_error("", &e),
        }
    }
}

impl SessionsCmd {
    /// Whether the raw JSON reply was asked for (`--json`).
    pub open spec fn json_requested(&self) -> bool {
        match self {
            SessionsCmd::List { json, .. } => *json,
            SessionsCmd::Stats { json, .. } => *json,
            SessionsCmd::Get { json, .. } => *json,
            SessionsCmd::Activity { json, .. } => *json,
            SessionsCmd::Properties { json, .. } => *json,
            SessionsCmd::Weekly { json, .. } => *json,
        }
    }
}

/// With `--json`, the command shows the reply exactly as it came.
pub proof fn lemma_json_shows_reply(cmd: SessionsCmd, data: JsonValue)
    requires
        cmd.json_requested(),
    ensures
        cmd.display(data) == seq![OutputView::Json(data)],
{
}

/// The calls sent: each asks for the named website's sessions (or one
/// session) by GET, with the time range as `startAt` and `endAt` in
/// milliseconds, the page and the search text after them in the listing,
/// and the time zone of the weekly view.
pub proof fn lemma_sessions_calls(cmd: SessionsCmd)
    ensures
        match cmd {
            SessionsCmd::List { website_id, start_at, end_at, search, page, .. } => cmd.request()
                == (ApiCallView {
                method: Method::Get,
                path: "/api/websites/"@ + website_id@ + "/sessions"@,
                query: seq![
                    ("startAt"@, signed_decimal(start_at as int)),
                    ("endAt"@, signed_decimal(end_at as int)),
                    ("page"@, decimal(page as nat)),
                ] + match search {
                    Some(t) => seq![("search"@, t@)],
                    None => Seq::empty(),
                },
                body: None,
            }),
            SessionsCmd::Stats { website_id, start_at, end_at, .. } => cmd.request() == (ApiCallView {
                method: Method::Get,
                path: "/api/websites/"@ + website_id@ + "/sessions/stats"@,
                query: seq![
                    ("startAt"@, signed_decimal(start_at as int)),
                    ("endAt"@, signed_decimal(end_at as int)),
                ],
                body: None,
            }),
            SessionsCmd::Get { website_id, session_id, .. } => cmd.request() == (ApiCallView {
                method: Method::Get,
                path: "/api/websites/"@ + website_id@ + "/sessions/"@ + session_id@,
                query: Seq::empty(),
                body: None,
            }),
            SessionsCmd::Activity { website_id, session_id, .. } => cmd.request() == (ApiCallView {
                method: Method::Get,
                path: "/api/websites/"@ + website_id@ + "/sessions/"@ + session_id@ + "/activity"@,
                query: Seq::empty(),
                body: None,
            }),
            SessionsCmd::Properties { website_id, session_id, .. } => cmd.request() == (ApiCallView {
                method: Method::Get,
                path: "/api/websites/"@ + website_id@ + "/sessions/"@ + session_id@
                    + "/properties"@,
                query: Seq::empty(),
                body: None,
            }),
            SessionsCmd::Weekly { website_id, start_at, end_at, timezone, .. } => cmd.request()
                == (ApiCallView {
                method: Method::Get,
                path: "/api/websites/"@ + website_id@ + "/sessions/weekly"@,
                query: seq![
                    ("startAt"@, signed_decimal(start_at as int)),
                    ("endAt"@, signed_decimal(end_at as int)),
                    ("timezone"@, timezone@),
                ],
                body: None,
            }),
        },
{
    match cmd {
        SessionsCmd::List { search, .. } => {
            assert(cmd.request().query =~= seq![
                cmd.request().query[0],
                cmd.request().query[1],
                cmd.request().query[2],
            ] + match search {
                Some(t) => seq![("search"@, t@)],
                None => Seq::empty(),
            });
        },
        SessionsCmd::Weekly { .. } => {
            assert(cmd.request().query =~= seq![
                cmd.request().query[0],
                cmd.request().query[1],
                cmd.request().query[2],
            ]);
        },
        _ => {},
    }
}

/// Without `--json`, the session listing is a table of the reply's `data`
/// items: under ID, BROWSER, OS, COUNTRY, VISITS and VIEWS stand each
/// session's `id`, `browser`, `os`, `country`, `visits` and `views`; the
/// activity listing shows each event's `createdAt`, `eventType`,
/// `eventName` and `urlPath` under TIME, TYPE, EVENT and URL. A reply
/// without such items is shown as it came.
pub proof fn lemma_sessions_tables(cmd: SessionsCmd, data: JsonValue)
    requires
        !cmd.json_requested(),
    ensures
        cmd is List ==> match list_items(data, ListSource::Data) {
            Some(items) => shows_columns(
                cmd.display(data),
                items,
                seq![
                    ("ID"@, "id"@),
                    ("BROWSER"@, "browser"@),
                    ("OS"@, "os"@),
                    ("COUNTRY"@, "country"@),
                    ("VISITS"@, "visits"@),
                    ("VIEWS"@, "views"@),
                ],
            ),
            None => cmd.display(data) == seq![OutputView::Json(data)],
        },
        cmd is Activity ==> match list_items(data, ListSource::Array) {
            Some(items) => shows_columns(
                cmd.display(data),
                items,
                seq![
                    ("TIME"@, "createdAt"@),
                    ("TYPE"@, "eventType"@),
                    ("EVENT"@, "eventName"@),
                    ("URL"@, "urlPath"@),
                ],
            ),
            None => cmd.display(data) == seq![OutputView::Json(data)],
        },
{
    let list = seq![
        ("ID"@, "id"@),
        ("BROWSER"@, "browser"@),
        ("OS"@, "os"@),
        ("COUNTRY"@, "country"@),
        ("VISITS"@, "visits"@),
        ("VIEWS"@, "views"@),
    ];
    let activity = seq![
        ("TIME"@, "createdAt"@),
        ("TYPE"@, "eventType"@),
        ("EVENT"@, "eventName"@),
        ("URL"@, "urlPath"@),
    ];
    assert(column_headers(list) =~= seq!["ID"@, "BROWSER"@, "OS"@, "COUNTRY"@, "VISITS"@, "VIEWS"@]);
    assert(column_keys(list) =~= seq!["id"@, "browser"@, "os"@, "country"@, "visits"@, "views"@]);
    assert(column_headers(activity) =~= seq!["TIME"@, "TYPE"@, "EVENT"@, "URL"@]);
    assert(column_keys(activity) =~= seq!["createdAt"@, "eventType"@, "eventName"@, "urlPath"@]);
    if list_items(data, ListSource::Data) is Some {
        lemma_listing_columns(data, ListSource::Data, list);
    }
    if list_items(data, ListSource::Array) is Some {
        lemma_listing_columns(data, ListSource::Array, activity);
    }
}

/// Without `--json`, the statistics and the details of a session are one
/// labelled line per field, each label followed by the text of its field.
pub proof fn lemma_sessions_details(cmd: SessionsCmd, data: JsonValue)
    requires
        !cmd.json_requested(),
    ensures
        cmd is Stats ==> shows_fields(
            cmd.display(data),
            data,
            seq![
                ("Pageviews: "@, "pageviews"@),
                ("Visitors:  "@, "visitors"@),
                ("Visits:    "@, "visits"@),
                ("Countries: "@, "countries"@),
                ("Events:    "@, "events"@),
            ],
        ),
        cmd is Get ==> shows_fields(
            cmd.display(data),
            data,
            seq![
                ("ID:       "@, "id"@),
                ("Browser:  "@, "browser"@),
                ("OS:       "@, "os"@),
                ("Device:   "@, "device"@),
                ("Country:  "@, "country"@),
                ("Language: "@, "language"@),
                ("Visits:   "@, "visits"@),
                ("Views:    "@, "views"@),
            ],
        ),
{
    let stats = seq![
        ("Pageviews: "@, "pageviews"@),
        ("Visitors:  "@, "visitors"@),
        ("Visits:    "@, "visits"@),
        ("Countries: "@, "countries"@),
        ("Events:    "@, "events"@),
    ];
    let one = seq![
        ("ID:       "@, "id"@),
        ("Browser:  "@, "browser"@),
        ("OS:       "@, "os"@),
        ("Device:   "@, "device"@),
        ("Country:  "@, "country"@),
        ("Language: "@, "language"@),
        ("Visits:   "@, "visits"@),
        ("Views:    "@, "views"@),
    ];
    assert(column_headers(stats) =~= seq!["Pageviews: "@, "Visitors:  "@, "Visits:    "@, "Countries: "@, "Events:    "@]);
    assert(column_keys(stats) =~= seq!["pageviews"@, "visitors"@, "visits"@, "countries"@, "events"@]);
    assert(column_headers(one) =~= seq![
        "ID:       "@,
        "Browser:  "@,
        "OS:       "@,
        "Device:   "@,
        "Country:  "@,
        "Language: "@,
        "Visits:   "@,
        "Views:    "@,
    ]);
    assert(column_keys(one) =~= seq![
        "id"@,
        "browser"@,
        "os"@,
        "device"@,
        "country"@,
        "language"@,
        "visits"@,
        "views"@,
    ]);
    lemma_details_fields(data, stats);
    lemma_details_fields(data, one);
}

} // verus!

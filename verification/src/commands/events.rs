//! Events: listings, statistics, and sending a tracking event.
use vstd::prelude::*;
use crate::api::client::ApiError;
use crate::api::http::{
    is_success, pairs_view, status_text, status_text_of, ApiCall, ApiCallView, Method,
};
use crate::commands::{
    get_query_call, get_query_of, no_fields, object, opt_field, opt_pair, push_field,
    push_opt_pair, push_opt_str_field, push_pair, range_query, range_query_of,
};
use crate::config::{opt_str, Config};
use crate::json::{fields_view, Json, JsonValue};
use crate::output::{
    column_headers, column_keys, lemma_listing_columns, list_items, shows_columns, error_outputs, listing, one, outputs_view, show_error, show_json, show_listing, strs_view,
    ListSource, Output, OutputView,
};
use crate::text::{
    concat, concat3, decimal, owned, signed_decimal, trim_end_char, trim_end_slashes,
};

verus! {

/// Manage and track events.
#[allow(inconsistent_fields)]
pub enum EventsCmd {
    /// List events of a website.
    List {
        website_id: String,
        start_at: i64,
        end_at: i64,
        search: Option<String>,
        page: u32,
        json: bool,
    },
    /// Event statistics, optionally compared with the previous period or year.
    Stats { website_id: String, start_at: i64, end_at: i64, compare: Option<String>, json: bool },
    /// Events over time.
    Series {
        website_id: String,
        start_at: i64,
        end_at: i64,
        unit: String,
        timezone: String,
        json: bool,
    },
    /// Event data grouped by name.
    Data { website_id: String, start_at: i64, end_at: i64, json: bool },
    /// Event data properties.
    Properties { website_id: String, start_at: i64, end_at: i64, json: bool },
    /// Send a tracking event (no token needed).
    Send {
        website_id: String,
        url: String,
        name: Option<String>,
        data: Option<String>,
        hostname: Option<String>,
        referrer: Option<String>,
    },
}

/// The parameters of the event listing.
pub open spec fn list_query_of(start_at: i64, end_at: i64, page: u32, search: Option<Seq<char>>) -> Seq<
    (Seq<char>, Seq<char>),
> {
    opt_pair(range_query_of(start_at, end_at).push(("page"@, decimal(page as nat))), "search"@, search)
}

/// Where tracking events are sent: the saved server URL (or the local
/// default), without trailing slashes, followed by `/api/send`.
pub open spec fn send_url_of(server_url: Option<Seq<char>>) -> Seq<char> {
    trim_end_char(
        match server_url {
            Some(u) => u,
            None => "http://localhost:3000"@,
        },
        '/',
    ) + "/api/send"@
}

/// The fields with a JSON field added when there is a value.
pub open spec fn opt_json_field(
    fields: Seq<(Seq<char>, JsonValue)>,
    name: Seq<char>,
    value: Option<JsonValue>,
) -> Seq<(Seq<char>, JsonValue)> {
    match value {
        Some(v) => fields.push((name, v)),
        None => fields,
    }
}

/// The body of a tracking event: a `payload` object with the website and
/// URL, and the name, data, hostname and referrer that are given.
pub open spec fn send_payload_of(
    website: Seq<char>,
    url: Seq<char>,
    name: Option<Seq<char>>,
    data: Option<JsonValue>,
    hostname: Option<Seq<char>>,
    referrer: Option<Seq<char>>,
) -> JsonValue {
    let base = seq![("website"@, JsonValue::String(website)), ("url"@, JsonValue::String(url))];
    let inner = opt_field(
        opt_field(opt_json_field(opt_field(base, "name"@, name), "data"@, data), "hostname"@, hostname),
        "referrer"@,
        referrer,
    );
    JsonValue::Object(seq![("payload"@, JsonValue::Object(inner))])
}

/// What sending an event shows for the reply status and body.
pub open spec fn send_result_of(status: u16, body: Seq<char>) -> Seq<OutputView> {
    if is_success(status) {
        seq![OutputView::Success("Event sent."@)]
    } else {
        seq![OutputView::Error("Failed ("@ + status_text_of(status) + "): "@ + body)]
    }
}

/// The address tracking events are sent to.
pub fn send_url(config: &Config) -> (u: String)
    ensures
        u@ == send_url_of(config@.server_url),
{
    let base = match &config.server_url {
        Some(u) => trim_end_slashes(u.as_str()),
        None => trim_end_slashes("http://localhost:3000"),
    };
    concat(base.as_str(), "/api/send")
}

/// The body of a tracking event; `data` is the event data already read as
/// JSON, and is left out when it could not be read.
pub fn send_payload(
    website_id: &String,
    url: &String,
    name: &Option<String>,
    data: Option<Json>,
    hostname: &Option<String>,
    referrer: &Option<String>,
) -> (p: Json)
    ensures
        p@ == send_payload_of(
            website_id@,
            url@,
            opt_str(*name),
            match data {
                Some(d) => Some(d@),
                None => None,
            },
            opt_str(*hostname),
            opt_str(*referrer),
        ),
{
    let mut f = no_fields();
    push_field(&mut f, "website", Json::String(website_id.clone()));
    push_field(&mut f, "url", Json::String(url.clone()));
    assert(fields_view(f@) =~= seq![
        ("website"@, JsonValue::String(website_id@)),
        ("url"@, JsonValue::String(url@)),
    ]);
    push_opt_str_field(&mut f, "name", name);
    match data {
        Some(d) => push_field(&mut f, "data", d),
        None => {},
    }
    push_opt_str_field(&mut f, "hostname", hostname);
    push_opt_str_field(&mut f, "referrer", referrer);
    let inner = object(f);
    let mut outer = no_fields();
    push_field(&mut outer, "payload", inner);
    assert(fields_view(outer@) =~= seq![("payload"@, inner@)]);
    object(outer)
}

/// What sending an event shows for the reply.
pub fn send_result(status: u16, body: String) -> (v: Vec<Output>)
    ensures
        outputs_view(v@) == send_result_of(status, body@),
{
    if status >= 200 && status < 300 {
        one(Output::Success(owned("Event sent.")))
    } else {
        let mut m = concat3("Failed (", status_text(status).as_str(), "): ");
        m.append(body.as_str());
        one(Output::Error(m))
    }
}

impl EventsCmd {
    /// The API call of the command; sending an event is no call of the API
    /// client.
    pub open spec fn request(&self) -> Option<ApiCallView> {
        match self {
            EventsCmd::List { website_id, start_at, end_at, search, page, .. } => Some(
                get_query_of(
                    "/api/websites/"@ + website_id@ + "/events"@,
                    list_query_of(*start_at, *end_at, *page, opt_str(*search)),
                ),
            ),
            EventsCmd::Stats { website_id, start_at, end_at, compare, .. } => Some(
                get_query_of(
                    "/api/websites/"@ + website_id@ + "/events/stats"@,
                    opt_pair(range_query_of(*start_at, *end_at), "compare"@, opt_str(*compare)),
                ),
            ),
            EventsCmd::Series { website_id, start_at, end_at, unit, timezone, .. } => Some(
                get_query_of(
                    "/api/websites/"@ + website_id@ + "/events/series"@,
                    range_query_of(*start_at, *end_at).push(("unit"@, unit@)).push(
                        ("timezone"@, timezone@),
                    ),
                ),
            ),
            EventsCmd::Data { website_id, start_at, end_at, .. } => Some(
                get_query_of(
                    "/api/websites/"@ + website_id@ + "/event-data"@,
                    range_query_of(*start_at, *end_at),
                ),
            ),
            EventsCmd::Properties { website_id, start_at, end_at, .. } => Some(
                get_query_of(
                    "/api/websites/"@ + website_id@ + "/event-data/properties"@,
                    range_query_of(*start_at, *end_at),
                ),
            ),
            EventsCmd::Send { .. } => None,
        }
    }

    /// What the command shows for a successful reply.
    pub open spec fn display(&self, data: JsonValue) -> Seq<OutputView> {
        match self {
            EventsCmd::List { json, .. } => listing(
                data,
                *json,
                ListSource::DataOrArray,
                seq!["EVENT"@, "URL"@, "TIME"@],
                seq!["eventName"@, "urlPath"@, "createdAt"@],
            ),
            _ => seq![OutputView::Json(data)],
        }
    }

    /// The API call of the command.
    pub fn call(&self) -> (c: Option<ApiCall>)
        ensures
            match c {
                Some(call) => self.request() == Some(call@),
                None => self.request() is None,
            },
    {
        match self {
            EventsCmd::List { website_id, start_at, end_at, search, page, .. } => {
                let mut q = range_query(*start_at, *end_at);
                push_pair(&mut q, "page", crate::text::u64_to_text(*page as u64));
                push_opt_pair(&mut q, "search", search);
                Some(get_query_call(concat3("/api/websites/", website_id.as_str(), "/events"), q))
            },
            EventsCmd::Stats { website_id, start_at, end_at, compare, .. } => {
                let mut q = range_query(*start_at, *end_at);
                push_opt_pair(&mut q, "compare", compare);
                Some(
                    get_query_call(concat3("/api/websites/", website_id.as_str(), "/events/stats"), q),
                )
            },
            EventsCmd::Series { website_id, start_at, end_at, unit, timezone, .. } => {
                let mut q = range_query(*start_at, *end_at);
                push_pair(&mut q, "unit", unit.clone());
                push_pair(&mut q, "timezone", timezone.clone());
                Some(
                    get_query_call(concat3("/api/websites/", website_id.as_str(), "/events/series"), q),
                )
            },
            EventsCmd::Data { website_id, start_at, end_at, .. } => Some(
                get_query_call(
                    concat3("/api/websites/", website_id.as_str(), "/event-data"),
                    range_query(*start_at, *end_at),
                ),
            ),
            EventsCmd::Properties { website_id, start_at, end_at, .. } => Some(
                get_query_call(
                    concat3("/api/websites/", website_id.as_str(), "/event-data/properties"),
                    range_query(*start_at, *end_at),
                ),
            ),
            EventsCmd::Send { .. } => None,
        }
    }

    /// What the command shows for a successful reply.
    pub fn render(&self, data: Json) -> (v: Vec<Output>)
        ensures
            outputs_view(v@) == self.display(data@),
    {
        match self {
            EventsCmd::List { json, .. } => {
                let headers: &[&str] = &["EVENT", "URL", "TIME"];
                let keys: &[&str] = &["eventName", "urlPath", "createdAt"];
                assert(strs_view(headers@) =~= seq!["EVENT"@, "URL"@, "TIME"@]);
                assert(strs_view(keys@) =~= seq!["eventName"@, "urlPath"@, "createdAt"@]);
                show_listing(data, *json, ListSource::DataOrArray, headers, keys)
            },
            _ => show_json(data),
        }
    }

    /// What the command shows for the result of its call.
    pub fn outcome(&self, result: Result<Json, ApiError>) -> (v: Vec<Output>)
        ensures
            match result {
                Ok(data) => outputs_view(v@) == self.display(data@),
                Err(e) => outputs_view(v@) == error_outputs(""@, e@),
            },
    {
        match result {
            Ok(data) => self.render(data),
            Err(e) => show_error("", &e),
        }
    }
}

impl EventsCmd {
    /// Whether the raw JSON reply was asked for (`--json`).
    pub open spec fn json_requested(&self) -> bool {
        match self {
            EventsCmd::List { json, .. } => *json,
            EventsCmd::Stats { json, .. } => *json,
            EventsCmd::Series { json, .. } => *json,
            EventsCmd::Data { json, .. } => *json,
            EventsCmd::Properties { json, .. } => *json,
            _ => false,
        }
    }
}

/// With `--json`, the command shows the reply exactly as it came.
pub proof fn lemma_json_shows_reply(cmd: EventsCmd, data: JsonValue)
    requires
        cmd.json_requested(),
    ensures
        cmd.display(data) == seq![OutputView::Json(data)],
{
}

/// The calls sent: each is a GET about the named website's events with
/// the time range as `startAt` and `endAt` in milliseconds; the listing
/// then asks for the page and, when given, the search text; the statistics
/// the comparison, when given; the series the unit and time zone. Sending
/// an event is no call of the API client.
pub proof fn lemma_events_calls(cmd: EventsCmd)
    ensures
        match cmd {
            EventsCmd::List { website_id, start_at, end_at, search, page, .. } => cmd.request()
                == Some(
                ApiCallView {
                    method: Method::Get,
                    path: "/api/websites/"@ + website_id@ + "/events"@,
                    query: seq![
                        ("startAt"@, signed_decimal(start_at as int)),
                        ("endAt"@, signed_decimal(end_at as int)),
                        ("page"@, decimal(page as nat)),
                    ] + match search {
                        Some(t) => seq![("search"@, t@)],
                        None => Seq::empty(),
                    },
                    body: None,
                },
            ),
            EventsCmd::Stats { website_id, start_at, end_at, compare, .. } => cmd.request() == Some(
                ApiCallView {
                    method: Method::Get,
                    path: "/api/websites/"@ + website_id@ + "/events/stats"@,
                    query: seq![
                        ("startAt"@, signed_decimal(start_at as int)),
                        ("endAt"@, signed_decimal(end_at as int)),
                    ] + match compare {
                        Some(t) => seq![("compare"@, t@)],
                        None => Seq::empty(),
                    },
                    body: None,
                },
            ),
            EventsCmd::Series { website_id, start_at, end_at, unit, timezone, .. } => cmd.request()
                == Some(
                ApiCallView {
                    method: Method::Get,
                    path: "/api/websites/"@ + website_id@ + "/events/series"@,
                    query: seq![
                        ("startAt"@, signed_decimal(start_at as int)),
                        ("endAt"@, signed_decimal(end_at as int)),
                        ("unit"@, unit@),
                        ("timezone"@, timezone@),
                    ],
                    body: None,
                },
            ),
            EventsCmd::Data { website_id, start_at, end_at, .. } => cmd.request() == Some(
                ApiCallView {
                    method: Method::Get,
                    path: "/api/websites/"@ + website_id@ + "/event-data"@,
                    query: seq![
                        ("startAt"@, signed_decimal(start_at as int)),
                        ("endAt"@, signed_decimal(end_at as int)),
                    ],
                    body: None,
                },
            ),
            EventsCmd::Properties { website_id, start_at, end_at, .. } => cmd.request() == Some(
                ApiCallView {
                    method: Method::Get,
                    path: "/api/websites/"@ + website_id@ + "/event-data/properties"@,
                    query: seq![
                        ("startAt"@, signed_decimal(start_at as int)),
                        ("endAt"@, signed_decimal(end_at as int)),
                    ],
                    body: None,
                },
            ),
            EventsCmd::Send { .. } => cmd.request() is None,
        },
{
    match cmd {
        EventsCmd::List { search, .. } => {
            let q = cmd.request()->Some_0.query;
            assert(q =~= seq![q[0], q[1], q[2]] + match search {
                Some(t) => seq![("search"@, t@)],
                None => Seq::empty(),
            });
        },
        EventsCmd::Stats { compare, .. } => {
            let q = cmd.request()->Some_0.query;
            assert(q =~= seq![q[0], q[1]] + match compare {
                Some(t) => seq![("compare"@, t@)],
                None => Seq::empty(),
            });
        },
        EventsCmd::Series { .. } => {
            let q = cmd.request()->Some_0.query;
            assert(q =~= seq![q[0], q[1], q[2], q[3]]);
        },
        _ => {},
    }
}

/// The body of a tracking event is a `payload` object holding the website
/// and the URL, then, each only when given, the event name, its data, the
/// host name and the referrer.
pub proof fn lemma_send_payload(
    website: Seq<char>,
    url: Seq<char>,
    name: Option<Seq<char>>,
    data: Option<JsonValue>,
    hostname: Option<Seq<char>>,
    referrer: Option<Seq<char>>,
)
    ensures
        send_payload_of(website, url, name, data, hostname, referrer) == JsonValue::Object(
            seq![
                (
                    "payload"@,
                    JsonValue::Object(
                        seq![
                            ("website"@, JsonValue::String(website)),
                            ("url"@, JsonValue::String(url)),
                        ] + match name {
                            Some(n) => seq![("name"@, JsonValue::String(n))],
                            None => Seq::empty(),
                        } + match data {
                            Some(d) => seq![("data"@, d)],
                            None => Seq::empty(),
                        } + match hostname {
                            Some(h) => seq![("hostname"@, JsonValue::String(h))],
                            None => Seq::empty(),
                        } + match referrer {
                            Some(r) => seq![("referrer"@, JsonValue::String(r))],
                            None => Seq::empty(),
                        },
                    ),
                ),
            ],
        ),
{
    let base = seq![("website"@, JsonValue::String(website)), ("url"@, JsonValue::String(url))];
    let a = opt_field(base, "name"@, name);
    let b = opt_json_field(a, "data"@, data);
    let c = opt_field(b, "hostname"@, hostname);
    let d = opt_field(c, "referrer"@, referrer);
    let ea = base + match name {
        Some(n) => seq![("name"@, JsonValue::String(n))],
        None => Seq::<(Seq<char>, JsonValue)>::empty(),
    };
    assert(a =~= ea);
    let eb = ea + match data {
        Some(x) => seq![("data"@, x)],
        None => Seq::<(Seq<char>, JsonValue)>::empty(),
    };
    assert(b =~= eb);
    let ec = eb + match hostname {
        Some(h) => seq![("hostname"@, JsonValue::String(h))],
        None => Seq::<(Seq<char>, JsonValue)>::empty(),
    };
    assert(c =~= ec);
    let ed = ec + match referrer {
        Some(r) => seq![("referrer"@, JsonValue::String(r))],
        None => Seq::<(Seq<char>, JsonValue)>::empty(),
    };
    assert(d =~= ed);
}

/// Without `--json`, the event listing is a table of the reply's items:
/// each event's `eventName`, `urlPath` and `createdAt` under EVENT, URL and
/// TIME; a reply without items is shown as it came.
pub proof fn lemma_events_table(cmd: EventsCmd, data: JsonValue)
    requires
        cmd is List,
        !cmd.json_requested(),
    ensures
        match list_items(data, ListSource::DataOrArray) {
            Some(items) => shows_columns(
                cmd.display(data),
                items,
                seq![("EVENT"@, "eventName"@), ("URL"@, "urlPath"@), ("TIME"@, "createdAt"@)],
            ),
            None => cmd.display(data) == seq![OutputView::Json(data)],
        },
{
    let cols = seq![("EVENT"@, "eventName"@), ("URL"@, "urlPath"@), ("TIME"@, "createdAt"@)];
    assert(column_headers(cols) =~= seq!["EVENT"@, "URL"@, "TIME"@]);
    assert(column_keys(cols) =~= seq!["eventName"@, "urlPath"@, "createdAt"@]);
    if list_items(data, ListSource::DataOrArray) is Some {
        lemma_listing_columns(data, ListSource::DataOrArray, cols);
    }
}

} // verus!

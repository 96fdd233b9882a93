//! Website statistics.
use vstd::prelude::*;
use crate::api::client::ApiError;
use crate::api::http::{pairs_view, ApiCall, ApiCallView, Method};
use crate::commands::{
    get_call, get_of, get_query_call, get_query_of, push_pair, range_query, range_query_of,
};
use crate::json::{Json, JsonValue, NumberValue};
use crate::output::{
    column_headers, column_keys, lemma_details_fields, lemma_listing_columns, list_items,
    shows_columns, shows_fields, details, error_outputs, listing, outputs_view, show_details, show_error, show_json,
    show_listing, strs_view, ListSource, Output, OutputView,
};
use crate::text::{concat, concat3, decimal, signed_decimal, u64_to_text};

verus! {

/// View website statistics.
pub enum StatsCmd {
    /// Summary statistics for a time range.
    Summary { website_id: String, start_at: i64, end_at: i64, json: bool },
    /// Active visitors (last 5 minutes).
    Active { website_id: String },
    /// Pageviews over time.
    Pageviews {
        website_id: String,
        start_at: i64,
        end_at: i64,
        unit: String,
        timezone: String,
        json: bool,
    },
    /// Metrics of one type (url, referrer, browser, os, device, country, event).
    Metrics { website_id: String, start_at: i64, end_at: i64, metric_type: String, json: bool },
    /// The range of dates with data.
    DateRange { website_id: String },
}

/// The number of active visitors in a reply: its `visitors` count, or 0.
pub open spec fn active_visitors(data: JsonValue) -> u64 {
    match data.get("visitors"@) {
        Some(v) => match v.as_u64() {
            Some(n) => n,
            None => 0,
        },
        None => 0,
    }
}

impl StatsCmd {
    /// The API call of the command.
    pub open spec fn request(&self) -> ApiCallView {
        match self {
            StatsCmd::Summary { website_id, start_at, end_at, .. } => get_query_of(
                "/api/websites/"@ + website_id@ + "/stats"@,
                range_query_of(*start_at, *end_at),
            ),
            StatsCmd::Active { website_id } => get_of(
                "/api/websites/"@ + website_id@ + "/active"@,
            ),
            StatsCmd::Pageviews { website_id, start_at, end_at, unit, timezone, .. } => get_query_of(
                "/api/websites/"@ + website_id@ + "/pageviews"@,
                range_query_of(*start_at, *end_at).push(("unit"@, unit@)).push(
                    ("timezone"@, timezone@),
                ),
            ),
            StatsCmd::Metrics { website_id, start_at, end_at, metric_type, .. } => get_query_of(
                "/api/websites/"@ + website_id@ + "/metrics"@,
                range_query_of(*start_at, *end_at).push(("type"@, metric_type@)),
            ),
            StatsCmd::DateRange { website_id } => get_of(
                "/api/websites/"@ + website_id@ + "/daterange"@,
            ),
        }
    }

    /// What the command shows for a successful reply.
    pub open spec fn display(&self, data: JsonValue) -> Seq<OutputView> {
        match self {
            StatsCmd::Summary { json, .. } => details(
                data,
                *json,
                seq!["Pageviews: "@, "Visitors:  "@, "Visits:    "@, "Bounces:   "@, "Totaltime: "@],
                seq!["pageviews"@, "visitors"@, "visits"@, "bounces"@, "totaltime"@],
            ),
            StatsCmd::Active { .. } => seq![
                OutputView::Line(
                    "Active visitors: "@ + decimal(active_visitors(data) as nat),
                ),
            ],
            StatsCmd::Pageviews { json, .. } => listing(
                data,
                *json,
                ListSource::Field("pageviews"),
                seq!["TIME"@, "PAGEVIEWS"@],
                seq!["x"@, "y"@],
            ),
            StatsCmd::Metrics { json, .. } => listing(
                data,
                *json,
                ListSource::Array,
                seq!["NAME"@, "COUNT"@],
                seq!["x"@, "y"@],
            ),
            StatsCmd::DateRange { .. } => seq![OutputView::Json(data)],
        }
    }

    /// The API call of the command.
    pub fn call(&self) -> (c: ApiCall)
        ensures
            c@ == self.request(),
    {
        match self {
            StatsCmd::Summary { website_id, start_at, end_at, .. } => get_query_call(
                concat3("/api/websites/", website_id.as_str(), "/stats"),
                range_query(*start_at, *end_at),
            ),
            StatsCmd::Active { website_id } => get_call(
                concat3("/api/websites/", website_id.as_str(), "/active"),
            ),
            StatsCmd::Pageviews { website_id, start_at, end_at, unit, timezone, .. } => {
                let mut q = range_query(*start_at, *end_at);
                push_pair(&mut q, "unit", unit.clone());
                push_pair(&mut q, "timezone", timezone.clone());
                get_query_call(concat3("/api/websites/", website_id.as_str(), "/pageviews"), q)
            },
            StatsCmd::Metrics { website_id, start_at, end_at, metric_type, .. } => {
                let mut q = range_query(*start_at, *end_at);
                push_pair(&mut q, "type", metric_type.clone());
                get_query_call(concat3("/api/websites/", website_id.as_str(), "/metrics"), q)
            },
            StatsCmd::DateRange { website_id } => get_call(
                concat3("/api/websites/", website_id.as_str(), "/daterange"),
            ),
        }
    }

    /// What the command shows for a successful reply.
    pub fn render(&self, data: Json) -> (v: Vec<Output>)
        ensures
            outputs_view(v@) == self.display(data@),
    {
        match self {
            StatsCmd::Summary { json, .. } => {
                let labels: &[&str] = &["Pageviews: ", "Visitors:  ", "Visits:    ", "Bounces:   ", "Totaltime: "];
                let keys: &[&str] = &["pageviews", "visitors", "visits", "bounces", "totaltime"];
                assert(strs_view(labels@) =~= seq![
                    "Pageviews: "@,
                    "Visitors:  "@,
                    "Visits:    "@,
                    "Bounces:   "@,
                    "Totaltime: "@,
                ]);
                assert(strs_view(keys@) =~= seq![
                    "pageviews"@,
                    "visitors"@,
                    "visits"@,
                    "bounces"@,
                    "totaltime"@,
                ]);
                show_details(data, *json, labels, keys)
            },
            StatsCmd::Active { .. } => {
                let visitors = match data.get("visitors") {
                    Some(v) => match v.as_u64() {
                        Some(n) => n,
                        None => 0,
                    },
                    None => 0,
                };
                let count = u64_to_text(visitors);
                crate::output::one(Output::Line(concat("Active visitors: ", count.as_str())))
            },
            StatsCmd::Pageviews { json, .. } => {
                let headers: &[&str] = &["TIME", "PAGEVIEWS"];
                let keys: &[&str] = &["x", "y"];
                assert(strs_view(headers@) =~= seq!["TIME"@, "PAGEVIEWS"@]);
                assert(strs_view(keys@) =~= seq!["x"@, "y"@]);
                show_listing(data, *json, ListSource::Field("pageviews"), headers, keys)
            },
            StatsCmd::Metrics { json, .. } => {
                let headers: &[&str] = &["NAME", "COUNT"];
                let keys: &[&str] = &["x", "y"];
                assert(strs_view(headers@) =~= seq!["NAME"@, "COUNT"@]);
                assert(strs_view(keys@) =~= seq!["x"@, "y"@]);
                show_listing(data, *json, ListSource::Array, headers, keys)
            },
            StatsCmd::DateRange { .. } => show_json(data),
        }
    }

    /// What the command shows for the result of its call.
    pub fn outcome(&self, result: Result<Json, ApiError>) -> (v: Vec<Output>)
        ensures
            match result {
                Ok(data) => outputs_view(v@) == self.display(data@),
                Err(e) => outputs_view(v@) == error_outputs(""@, e@),
            },
    {
        match result {
            Ok(data) => self.render(data),
            Err(e) => show_error("", &e),
        }
    }
}

impl StatsCmd {
    /// Whether the raw JSON reply was asked for (`--json`).
    pub open spec fn json_requested(&self) -> bool {
        match self {
            StatsCmd::Summary { json, .. } => *json,
            StatsCmd::Pageviews { json, .. } => *json,
            StatsCmd::Metrics { json, .. } => *json,
            _ => false,
        }
    }
}

/// With `--json`, the command shows the reply exactly as it came.
pub proof fn lemma_json_shows_reply(cmd: StatsCmd, data: JsonValue)
    requires
        cmd.json_requested(),
    ensures
        cmd.display(data) == seq![OutputView::Json(data)],
{
}

/// The calls sent: each is a GET of the named website's statistics, with
/// the time range as `startAt` and `endAt` in milliseconds; pageviews then
/// ask for the given unit and time zone, metrics for the given type.
pub proof fn lemma_stats_calls(cmd: StatsCmd)
    ensures
        match cmd {
            StatsCmd::Summary { website_id, start_at, end_at, .. } => cmd.request() == (ApiCallView {
                method: Method::Get,
                path: "/api/websites/"@ + website_id@ + "/stats"@,
                query: seq![
                    ("startAt"@, signed_decimal(start_at as int)),
                    ("endAt"@, signed_decimal(end_at as int)),
                ],
                body: None,
            }),
            StatsCmd::Active { website_id } => cmd.request() == (ApiCallView {
                method: Method::Get,
                path: "/api/websites/"@ + website_id@ + "/active"@,
                query: Seq::empty(),
                body: None,
            }),
            StatsCmd::Pageviews { website_id, start_at, end_at, unit, timezone, .. } =>
                cmd.request() == (ApiCallView {
                method: Method::Get,
                path: "/api/websites/"@ + website_id@ + "/pageviews"@,
                query: seq![
                    ("startAt"@, signed_decimal(start_at as int)),
                    ("endAt"@, signed_decimal(end_at as int)),
                    ("unit"@, unit@),
                    ("timezone"@, timezone@),
                ],
                body: None,
            }),
            StatsCmd::Metrics { website_id, start_at, end_at, metric_type, .. } => cmd.request()
                == (ApiCallView {
                method: Method::Get,
                path: "/api/websites/"@ + website_id@ + "/metrics"@,
                query: seq![
                    ("startAt"@, signed_decimal(start_at as int)),
                    ("endAt"@, signed_decimal(end_at as int)),
                    ("type"@, metric_type@),
                ],
                body: None,
            }),
            StatsCmd::DateRange { website_id } => cmd.request() == (ApiCallView {
                method: Method::Get,
                path: "/api/websites/"@ + website_id@ + "/daterange"@,
                query: Seq::empty(),
                body: None,
            }),
        },
{
    let q = cmd.request().query;
    match cmd {
        StatsCmd::Pageviews { .. } => {
            assert(q =~= seq![q[0], q[1], q[2], q[3]]);
        },
        StatsCmd::Metrics { .. } => {
            assert(q =~= seq![q[0], q[1], q[2]]);
        },
        _ => {},
    }
}

/// Without `--json`, the summary is one labelled line per statistic, the
/// pageviews are a table of the reply's `pageviews` points (`x` under TIME,
/// `y` under PAGEVIEWS) and the metrics a table of the reply's items (`x`
/// under NAME, `y` under COUNT); a reply without such items is shown as it
/// came. The active count is always the reply's `visitors` number.
pub proof fn lemma_stats_shown(cmd: StatsCmd, data: JsonValue)
    requires
        !cmd.json_requested(),
    ensures
        cmd is Summary ==> shows_fields(
            cmd.display(data),
            data,
            seq![
                ("Pageviews: "@, "pageviews"@),
                ("Visitors:  "@, "visitors"@),
                ("Visits:    "@, "visits"@),
                ("Bounces:   "@, "bounces"@),
                ("Totaltime: "@, "totaltime"@),
            ],
        ),
        cmd is Pageviews ==> match list_items(data, ListSource::Field("pageviews")) {
            Some(items) => shows_columns(
                cmd.display(data),
                items,
                seq![("TIME"@, "x"@), ("PAGEVIEWS"@, "y"@)],
            ),
            None => cmd.display(data) == seq![OutputView::Json(data)],
        },
        cmd is Metrics ==> match list_items(data, ListSource::Array) {
            Some(items) => shows_columns(
                cmd.display(data),
                items,
                seq![("NAME"@, "x"@), ("COUNT"@, "y"@)],
            ),
            None => cmd.display(data) == seq![OutputView::Json(data)],
        },
        forall|n: u64|
            cmd is Active && data.get("visitors"@) == Some(
                JsonValue::Number(NumberValue::PosInt(n)),
            ) ==> cmd.display(data) == seq![
                OutputView::Line("Active visitors: "@ + decimal(n as nat)),
            ],
{
    let summary = seq![
        ("Pageviews: "@, "pageviews"@),
        ("Visitors:  "@, "visitors"@),
        ("Visits:    "@, "visits"@),
        ("Bounces:   "@, "bounces"@),
        ("Totaltime: "@, "totaltime"@),
    ];
    let pv = seq![("TIME"@, "x"@), ("PAGEVIEWS"@, "y"@)];
    let mt = seq![("NAME"@, "x"@), ("COUNT"@, "y"@)];
    assert(column_headers(summary) =~= seq!["Pageviews: "@, "Visitors:  "@, "Visits:    "@, "Bounces:   "@, "Totaltime: "@]);
    assert(column_keys(summary) =~= seq!["pageviews"@, "visitors"@, "visits"@, "bounces"@, "totaltime"@]);
    assert(column_headers(pv) =~= seq!["TIME"@, "PAGEVIEWS"@]);
    assert(column_keys(pv) =~= seq!["x"@, "y"@]);
    assert(column_headers(mt) =~= seq!["NAME"@, "COUNT"@]);
    assert(column_keys(mt) =~= seq!["x"@, "y"@]);
    lemma_details_fields(data, summary);
    if list_items(data, ListSource::Field("pageviews")) is Some {
        lemma_listing_columns(data, ListSource::Field("pageviews"), pv);
    }
    if list_items(data, ListSource::Array) is Some {
        lemma_listing_columns(data, ListSource::Array, mt);
    }
}

} // verus!

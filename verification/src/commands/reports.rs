//! Reports: listing, viewing, deleting and running them.
use vstd::prelude::*;
use crate::api::client::ApiError;
use crate::api::http::{ApiCall, ApiCallView, Method};
use crate::commands::{
    delete_call, delete_of, get_call, get_of, get_query_call, get_query_of, no_fields, object,
    page_query, page_query_of, post_call, post_of, push_field,
};
use crate::config::opt_str;
use crate::json::{
    lemma_field_get_at, lemma_set_new_field, field_set, fields_view, items_view, lemma_array_view, lemma_object_view, Json, JsonValue,
    NumberValue,
};
use crate::output::{
    column_headers, column_keys, lemma_listing_columns, list_items, shows_columns, error_outputs, listing, outputs_view, show_error, show_json, show_listing, show_success,
    strs_view, ListSource, Output, OutputView,
};
use crate::text::{concat, decimal, split_char, split_on, trim, trim_ws, views};

verus! {

/// Run and manage reports.
#[allow(inconsistent_fields)]
pub enum ReportsCmd {
    /// List all reports.
    List { search: Option<String>, page: u32, json: bool },
    /// Get one report.
    Get { id: String, json: bool },
    /// Delete a report.
    Delete { id: String },
    /// Run an attribution report.
    Attribution { website_id: String, start_date: String, end_date: String, timezone: String, json: bool },
    /// Run a funnel report over comma-separated URLs within a window of days.
    Funnel {
        website_id: String,
        start_date: String,
        end_date: String,
        urls: String,
        window: u32,
        timezone: String,
        json: bool,
    },
    /// Run a retention report.
    Retention { website_id: String, start_date: String, end_date: String, timezone: String, json: bool },
    /// Run a journey report of a number of steps.
    Journey {
        website_id: String,
        start_date: String,
        end_date: String,
        steps: u32,
        timezone: String,
        json: bool,
    },
    /// Run a revenue report.
    Revenue { website_id: String, start_date: String, end_date: String, timezone: String, json: bool },
    /// Run a UTM report.
    Utm { website_id: String, start_date: String, end_date: String, timezone: String, json: bool },
    /// Run a breakdown report.
    Breakdown { website_id: String, start_date: String, end_date: String, timezone: String, json: bool },
    /// Run a goal report.
    Goal { website_id: String, start_date: String, end_date: String, timezone: String, json: bool },
    /// Run a performance (Core Web Vitals) report.
    Performance {
        website_id: String,
        start_date: String,
        end_date: String,
        timezone: String,
        json: bool,
    },
}

/// The fields after setting each extra field in turn: an extra field
/// replaces one of the same name, and later extra fields win.
pub open spec fn merged(fields: Seq<(Seq<char>, JsonValue)>, extra: Seq<(Seq<char>, JsonValue)>) -> Seq<
    (Seq<char>, JsonValue),
>
    decreases extra.len(),
{
    if extra.len() == 0 {
        fields
    } else {
        merged(field_set(fields, extra[0].0, extra[0].1), extra.drop_first())
    }
}

/// The parameters of a report: its date range and time zone, with the
/// fields of an extra object merged in.
pub open spec fn report_parameters(
    start_date: Seq<char>,
    end_date: Seq<char>,
    timezone: Seq<char>,
    extra: Option<JsonValue>,
) -> Seq<(Seq<char>, JsonValue)> {
    let base = seq![
        ("startDate"@, JsonValue::String(start_date)),
        ("endDate"@, JsonValue::String(end_date)),
        ("timezone"@, JsonValue::String(timezone)),
    ];
    match extra {
        Some(JsonValue::Object(e)) => merged(base, e),
        _ => base,
    }
}

/// The call that runs a report of a type.
pub open spec fn report_call_of(
    report_type: Seq<char>,
    website_id: Seq<char>,
    start_date: Seq<char>,
    end_date: Seq<char>,
    timezone: Seq<char>,
    extra: Option<JsonValue>,
) -> ApiCallView {
    post_of(
        "/api/reports/"@ + report_type,
        JsonValue::Object(
            seq![
                ("websiteId"@, JsonValue::String(website_id)),
                ("type"@, JsonValue::String(report_type)),
                (
                    "parameters"@,
                    JsonValue::Object(report_parameters(start_date, end_date, timezone, extra)),
                ),
            ],
        ),
    )
}

/// The URLs of a funnel: the comma-separated pieces, each trimmed of white
/// space.
pub open spec fn funnel_urls(urls: Seq<char>) -> Seq<JsonValue> {
    Seq::new(
        split_on(urls, ',').len(),
        |i: int| JsonValue::String(trim_ws(split_on(urls, ',')[i])),
    )
}

/// The extra parameters of a funnel report.
pub open spec fn funnel_extra(urls: Seq<char>, window: u32) -> JsonValue {
    JsonValue::Object(
        seq![
            ("urls"@, JsonValue::Array(funnel_urls(urls))),
            ("window"@, JsonValue::Number(NumberValue::PosInt(window as u64))),
        ],
    )
}

/// The extra parameters of a journey report.
pub open spec fn journey_extra(steps: u32) -> JsonValue {
    JsonValue::Object(seq![("steps"@, JsonValue::Number(NumberValue::PosInt(steps as u64)))])
}

/// Sets each extra field on the parameters in turn.
fn merge_into(params: &mut Json, extra: Vec<(String, Json)>)
    requires
        *old(params) is Object,
    ensures
        *final(params) is Object,
        final(params)@ == JsonValue::Object(
            merged(old(params)@->Object_0, fields_view(extra@)),
        ),
{
    let ghost target = merged(params@->Object_0, fields_view(extra@));
    let mut rest = extra;
    while rest.len() > 0
        invariant
            *params is Object,
            target == merged(params@->Object_0, fields_view(rest@)),
        decreases rest@.len(),
    {
        let ghost pre_rest = fields_view(rest@);
        let (k, v) = rest.remove(0);
        assert(fields_view(rest@) =~= pre_rest.drop_first());
        params.insert(k, v);
    }
}

/// The JSON array of funnel URLs.
fn funnel_urls_json(urls: &String) -> (j: Json)
    ensures
        j@ == JsonValue::Array(funnel_urls(urls@)),
{
    let pieces = split_char(urls.as_str(), ',');
    let mut items: Vec<Json> = Vec::new();
    let mut i: usize = 0;
    while i < pieces.len()
        invariant
            i <= pieces@.len(),
            views(pieces@) == split_on(urls@, ','),
            items@.len() == i,
            forall|x: int| 0 <= x < i ==> #[trigger] items@[x]@ == funnel_urls(urls@)[x],
        decreases pieces@.len() - i,
    {
        let t = trim(pieces[i].as_str());
        assert(views(pieces@)[i as int] == pieces@[i as int]@);
        items.push(Json::String(t));
        i = i + 1;
    }
    assert(items_view(items@) =~= funnel_urls(urls@));
    proof {
        lemma_array_view(items);
    }
    Json::Array(items)
}

/// The extra parameters of a funnel report.
fn funnel_extra_json(urls: &String, window: u32) -> (j: Json)
    ensures
        j@ == funnel_extra(urls@, window),
{
    let mut f = no_fields();
    push_field(&mut f, "urls", funnel_urls_json(urls));
    push_field(&mut f, "window", Json::uint(window as u64));
    assert(fields_view(f@) =~= funnel_extra(urls@, window)->Object_0);
    object(f)
}

/// The extra parameters of a journey report.
fn journey_extra_json(steps: u32) -> (j: Json)
    ensures
        j@ == journey_extra(steps),
{
    let mut f = no_fields();
    push_field(&mut f, "steps", Json::uint(steps as u64));
    assert(fields_view(f@) =~= journey_extra(steps)->Object_0);
    object(f)
}

/// The call that runs a report.
pub fn report_call(
    report_type: &str,
    website_id: &String,
    start_date: &String,
    end_date: &String,
    timezone: &String,
    extra: Option<Json>,
) -> (c: ApiCall)
    ensures
        c@ == report_call_of(
            report_type@,
            website_id@,
            start_date@,
            end_date@,
            timezone@,
            match extra {
                Some(e) => Some(e@),
                None => None,
            },
        ),
{
    let mut p = no_fields();
    push_field(&mut p, "startDate", Json::String(start_date.clone()));
    push_field(&mut p, "endDate", Json::String(end_date.clone()));
    push_field(&mut p, "timezone", Json::String(timezone.clone()));
    let ghost base = seq![
        ("startDate"@, JsonValue::String(start_date@)),
        ("endDate"@, JsonValue::String(end_date@)),
        ("timezone"@, JsonValue::String(timezone@)),
    ];
    assert(fields_view(p@) =~= base);
    let mut params = object(p);
    match extra {
        Some(Json::Object(e)) => {
            merge_into(&mut params, e);
            proof {
                lemma_object_view(e);
            }
        },
        _ => {},
    }
    let mut b = no_fields();
    push_field(&mut b, "websiteId", Json::String(website_id.clone()));
    push_field(&mut b, "type", Json::String(report_type.to_owned()));
    let ghost pv = params@;
    push_field(&mut b, "parameters", params);
    assert(fields_view(b@) =~= seq![
        ("websiteId"@, JsonValue::String(website_id@)),
        ("type"@, JsonValue::String(report_type@)),
        ("parameters"@, pv),
    ]);
    post_call(concat("/api/reports/", report_type), object(b))
}

impl ReportsCmd {
    /// The API call of the command.
    pub open spec fn request(&self) -> ApiCallView {
        match self {
            ReportsCmd::List { search, page, .. } => get_query_of(
                "/api/reports"@,
                page_query_of(*page, opt_str(*search)),
            ),
            ReportsCmd::Get { id, .. } => get_of("/api/reports/"@ + id@),
            ReportsCmd::Delete { id } => delete_of("/api/reports/"@ + id@),
            ReportsCmd::Attribution { website_id, start_date, end_date, timezone, .. } =>
                report_call_of("attribution"@, website_id@, start_date@, end_date@, timezone@, None),
            ReportsCmd::Funnel { website_id, start_date, end_date, urls, window, timezone, .. } =>
                report_call_of(
                "funnel"@,
                website_id@,
                start_date@,
                end_date@,
                timezone@,
                Some(funnel_extra(urls@, *window)),
            ),
            ReportsCmd::Retention { website_id, start_date, end_date, timezone, .. } =>
                report_call_of("retention"@, website_id@, start_date@, end_date@, timezone@, None),
            ReportsCmd::Journey { website_id, start_date, end_date, steps, timezone, .. } =>
                report_call_of(
                "journey"@,
                website_id@,
                start_date@,
                end_date@,
                timezone@,
                Some(journey_extra(*steps)),
            ),
            ReportsCmd::Revenue { website_id, start_date, end_date, timezone, .. } =>
                report_call_of("revenue"@, website_id@, start_date@, end_date@, timezone@, None),
            ReportsCmd::Utm { website_id, start_date, end_date, timezone, .. } => report_call_of(
                "utm"@,
                website_id@,
                start_date@,
                end_date@,
                timezone@,
                None,
            ),
            ReportsCmd::Breakdown { website_id, start_date, end_date, timezone, .. } =>
                report_call_of("breakdown"@, website_id@, start_date@, end_date@, timezone@, None),
            ReportsCmd::Goal { website_id, start_date, end_date, timezone, .. } => report_call_of(
                "goal"@,
                website_id@,
                start_date@,
                end_date@,
                timezone@,
                None,
            ),
            ReportsCmd::Performance { website_id, start_date, end_date, timezone, .. } =>
                report_call_of("performance"@, website_id@, start_date@, end_date@, timezone@, None),
        }
    }

    /// What the command shows for a successful reply.
    pub open spec fn display(&self, data: JsonValue) -> Seq<OutputView> {
        match self {
            ReportsCmd::List { json, .. } => listing(
                data,
                *json,
                ListSource::DataOrArray,
                seq!["ID"@, "TYPE"@, "NAME"@, "CREATED"@],
                seq!["id"@, "type"@, "name"@, "createdAt"@],
            ),
            ReportsCmd::Delete { .. } => seq![OutputView::Success("Report deleted."@)],
            _ => seq![OutputView::Json(data)],
        }
    }

    /// The API call of the command.
    pub fn call(&self) -> (c: ApiCall)
        ensures
            c@ == self.request(),
    {
        match self {
            ReportsCmd::List { search, page, .. } => get_query_call(
                "/api/reports".to_owned(),
                page_query(*page, search),
            ),
            ReportsCmd::Get { id, .. } => get_call(concat("/api/reports/", id.as_str())),
            ReportsCmd::Delete { id } => delete_call(concat("/api/reports/", id.as_str())),
            ReportsCmd::Attribution { website_id, start_date, end_date, timezone, .. } =>
                report_call("attribution", website_id, start_date, end_date, timezone, None),
            ReportsCmd::Funnel { website_id, start_date, end_date, urls, window, timezone, .. } =>
                report_call(
                "funnel",
                website_id,
                start_date,
                end_date,
                timezone,
                Some(funnel_extra_json(urls, *window)),
            ),
            ReportsCmd::Retention { website_id, start_date, end_date, timezone, .. } =>
                report_call("retention", website_id, start_date, end_date, timezone, None),
            ReportsCmd::Journey { website_id, start_date, end_date, steps, timezone, .. } =>
                report_call(
                "journey",
                website_id,
                start_date,
                end_date,
                timezone,
                Some(journey_extra_json(*steps)),
            ),
            ReportsCmd::Revenue { website_id, start_date, end_date, timezone, .. } =>
                report_call("revenue", website_id, start_date, end_date, timezone, None),
            ReportsCmd::Utm { website_id, start_date, end_date, timezone, .. } => report_call(
                "utm",
                website_id,
                start_date,
                end_date,
                timezone,
                None,
            ),
            ReportsCmd::Breakdown { website_id, start_date, end_date, timezone, .. } =>
                report_call("breakdown", website_id, start_date, end_date, timezone, None),
            ReportsCmd::Goal { website_id, start_date, end_date, timezone, .. } => report_call(
                "goal",
                website_id,
                start_date,
                end_date,
                timezone,
                None,
            ),
            ReportsCmd::Performance { website_id, start_date, end_date, timezone, .. } =>
                report_call("performance", website_id, start_date, end_date, timezone, None),
        }
    }

    /// What the command shows for a successful reply.
    pub fn render(&self, data: Json) -> (v: Vec<Output>)
        ensures
            outputs_view(v@) == self.display(data@),
    {
        match self {
            ReportsCmd::List { json, .. } => {
                let headers: &[&str] = &["ID", "TYPE", "NAME", "CREATED"];
                let keys: &[&str] = &["id", "type", "name", "createdAt"];
                assert(strs_view(headers@) =~= seq!["ID"@, "TYPE"@, "NAME"@, "CREATED"@]);
                assert(strs_view(keys@) =~= seq!["id"@, "type"@, "name"@, "createdAt"@]);
                show_listing(data, *json, ListSource::DataOrArray, headers, keys)
            },
            ReportsCmd::Delete { .. } => show_success("Report deleted."),
            _ => show_json(data),
        }
    }

    /// What the command shows for the result of its call.
    pub fn outcome(&self, result: Result<Json, ApiError>) -> (v: Vec<Output>)
        ensures
            match result {
                Ok(data) => outputs_view(v@) == self.display(data@),
                Err(e) => outputs_view(v@) == error_outputs(""@, e@),
            },
    {
        match result {
            Ok(data) => self.render(data),
            Err(e) => show_error("", &e),
        }
    }
}

impl ReportsCmd {
    /// Whether the raw JSON reply was asked for (`--json`).
    pub open spec fn json_requested(&self) -> bool {
        match self {
            ReportsCmd::List { json, .. } => *json,
            ReportsCmd::Get { json, .. } => *json,
            ReportsCmd::Attribution { json, .. } => *json,
            ReportsCmd::Funnel { json, .. } => *json,
            ReportsCmd::Retention { json, .. } => *json,
            ReportsCmd::Journey { json, .. } => *json,
            ReportsCmd::Revenue { json, .. } => *json,
            ReportsCmd::Utm { json, .. } => *json,
            ReportsCmd::Breakdown { json, .. } => *json,
            ReportsCmd::Goal { json, .. } => *json,
            ReportsCmd::Performance { json, .. } => *json,
            _ => false,
        }
    }
}

/// With `--json`, the command shows the reply exactly as it came.
pub proof fn lemma_json_shows_reply(cmd: ReportsCmd, data: JsonValue)
    requires
        cmd.json_requested(),
    ensures
        cmd.display(data) == seq![OutputView::Json(data)],
{
}

/// The call that runs a report of `kind` for a website: a POST to the
/// report's path whose body names the website and the kind and holds the
/// parameters.
pub open spec fn run_call(
    kind: Seq<char>,
    website: Seq<char>,
    parameters: Seq<(Seq<char>, JsonValue)>,
) -> ApiCallView {
    ApiCallView {
        method: Method::Post,
        path: "/api/reports/"@ + kind,
        query: Seq::empty(),
        body: Some(
            JsonValue::Object(
                seq![
                    ("websiteId"@, JsonValue::String(website)),
                    ("type"@, JsonValue::String(kind)),
                    ("parameters"@, JsonValue::Object(parameters)),
                ],
            ),
        ),
    }
}

/// The date range and time zone every report is run over.
pub open spec fn period(start: Seq<char>, end: Seq<char>, timezone: Seq<char>) -> Seq<
    (Seq<char>, JsonValue),
> {
    seq![
        ("startDate"@, JsonValue::String(start)),
        ("endDate"@, JsonValue::String(end)),
        ("timezone"@, JsonValue::String(timezone)),
    ]
}

/// The lengths of the field names of reports, which tell them apart.
proof fn lemma_report_names()
    ensures
        "websiteId"@.len() == 9,
        "type"@.len() == 4,
        "parameters"@.len() == 10,
        "startDate"@.len() == 9,
        "endDate"@.len() == 7,
        "timezone"@.len() == 8,
        "steps"@.len() == 5,
        "urls"@.len() == 4,
        "window"@.len() == 6,
{
    reveal_strlit("websiteId");
    reveal_strlit("type");
    reveal_strlit("parameters");
    reveal_strlit("startDate");
    reveal_strlit("endDate");
    reveal_strlit("timezone");
    reveal_strlit("steps");
    reveal_strlit("urls");
    reveal_strlit("window");
}

/// The parameters of a report with one more field after its period.
proof fn lemma_one_extra(base: Seq<(Seq<char>, JsonValue)>, key: Seq<char>, value: JsonValue)
    requires
        forall|j: int| 0 <= j < base.len() ==> #[trigger] base[j].0 != key,
    ensures
        merged(base, seq![(key, value)]) == base.push((key, value)),
{
    lemma_set_new_field(base, key, value);
    let e = Seq::<(Seq<char>, JsonValue)>::empty();
    assert(seq![(key, value)].drop_first() =~= e);
    assert(merged(base.push((key, value)), e) == base.push((key, value)));
    assert(merged(base, seq![(key, value)]) == merged(
        field_set(base, key, value),
        seq![(key, value)].drop_first(),
    ));
}

/// The calls sent. Listing asks for the page, then the search text when
/// given; each report runs over its period, a funnel also with its URLs (the
/// comma-separated pieces, trimmed) and window, a journey also with its
/// number of steps.
pub proof fn lemma_reports_calls(cmd: ReportsCmd)
    ensures
        match cmd {
            ReportsCmd::List { search, page, .. } => cmd.request() == (ApiCallView {
                method: Method::Get,
                path: "/api/reports"@,
                query: seq![("page"@, decimal(page as nat))] + match search {
                    Some(t) => seq![("search"@, t@)],
                    None => Seq::empty(),
                },
                body: None,
            }),
            ReportsCmd::Get { id, .. } => cmd.request() == (ApiCallView {
                method: Method::Get,
                path: "/api/reports/"@ + id@,
                query: Seq::empty(),
                body: None,
            }),
            ReportsCmd::Delete { id } => cmd.request() == (ApiCallView {
                method: Method::Delete,
                path: "/api/reports/"@ + id@,
                query: Seq::empty(),
                body: None,
            }),
            ReportsCmd::Attribution { website_id, start_date, end_date, timezone, .. } =>
                cmd.request() == run_call(
                "attribution"@,
                website_id@,
                period(start_date@, end_date@, timezone@),
            ),
            ReportsCmd::Funnel { website_id, start_date, end_date, urls, window, timezone, .. } =>
                cmd.request() == run_call(
                "funnel"@,
                website_id@,
                period(start_date@, end_date@, timezone@) + seq![
                    (
                        "urls"@,
                        JsonValue::Array(
                            Seq::new(
                                split_on(urls@, ',').len(),
                                |i: int| JsonValue::String(trim_ws(split_on(urls@, ',')[i])),
                            ),
                        ),
                    ),
                    ("window"@, JsonValue::Number(NumberValue::PosInt(window as u64))),
                ],
            ),
            ReportsCmd::Retention { website_id, start_date, end_date, timezone, .. } =>
                cmd.request() == run_call(
                "retention"@,
                website_id@,
                period(start_date@, end_date@, timezone@),
            ),
            ReportsCmd::Journey { website_id, start_date, end_date, steps, timezone, .. } =>
                cmd.request() == run_call(
                "journey"@,
                website_id@,
                period(start_date@, end_date@, timezone@).push(
                    ("steps"@, JsonValue::Number(NumberValue::PosInt(steps as u64))),
                ),
            ),
            ReportsCmd::Revenue { website_id, start_date, end_date, timezone, .. } =>
                cmd.request() == run_call(
                "revenue"@,
                website_id@,
                period(start_date@, end_date@, timezone@),
            ),
            ReportsCmd::Utm { website_id, start_date, end_date, timezone, .. } => cmd.request()
                == run_call("utm"@, website_id@, period(start_date@, end_date@, timezone@)),
            ReportsCmd::Breakdown { website_id, start_date, end_date, timezone, .. } =>
                cmd.request() == run_call(
                "breakdown"@,
                website_id@,
                period(start_date@, end_date@, timezone@),
            ),
            ReportsCmd::Goal { website_id, start_date, end_date, timezone, .. } => cmd.request()
                == run_call("goal"@, website_id@, period(start_date@, end_date@, timezone@)),
            ReportsCmd::Performance { website_id, start_date, end_date, timezone, .. } =>
                cmd.request() == run_call(
                "performance"@,
                website_id@,
                period(start_date@, end_date@, timezone@),
            ),
        },
{
    lemma_report_names();
    match cmd {
        ReportsCmd::List { search, page, .. } => {
            let q = cmd.request().query;
            assert(q =~= seq![("page"@, decimal(page as nat))] + match search {
                Some(t) => seq![("search"@, t@)],
                None => Seq::empty(),
            });
        },
        ReportsCmd::Funnel { start_date, end_date, urls, window, timezone, .. } => {
            let base = period(start_date@, end_date@, timezone@);
            let u = ("urls"@, JsonValue::Array(funnel_urls(urls@)));
            let w = ("window"@, JsonValue::Number(NumberValue::PosInt(window as u64)));
            assert(funnel_extra(urls@, window)->Object_0 == seq![u, w]);
            assert(base[0].0 != "urls"@);
            assert(base[1].0 != "urls"@);
            assert(base[2].0 != "urls"@);
            lemma_set_new_field(base, u.0, u.1);
            let b1 = base.push(u);
            assert(b1[0].0 != "window"@);
            assert(b1[1].0 != "window"@);
            assert(b1[2].0 != "window"@);
            assert(b1[3].0 != "window"@);
            lemma_set_new_field(b1, w.0, w.1);
            assert(seq![u, w].drop_first() =~= seq![w]);
            assert(seq![w].drop_first() =~= Seq::<(Seq<char>, JsonValue)>::empty());
            let e = Seq::<(Seq<char>, JsonValue)>::empty();
            assert(merged(b1.push(w), e) == b1.push(w));
            assert(merged(b1, seq![w]) == merged(field_set(b1, w.0, w.1), seq![w].drop_first()));
            assert(merged(b1, seq![w]) == b1.push(w));
            assert(merged(base, seq![u, w]) == merged(
                field_set(base, u.0, u.1),
                seq![u, w].drop_first(),
            ));
            assert(merged(base, seq![u, w]) == b1.push(w));
            assert(b1.push(w) =~= base + seq![u, w]);
        },
        ReportsCmd::Journey { start_date, end_date, steps, timezone, .. } => {
            let base = period(start_date@, end_date@, timezone@);
            let st = JsonValue::Number(NumberValue::PosInt(steps as u64));
            assert(journey_extra(steps)->Object_0 == seq![("steps"@, st)]);
            assert(base[0].0 != "steps"@);
            assert(base[1].0 != "steps"@);
            assert(base[2].0 != "steps"@);
            lemma_one_extra(base, "steps"@, st);
        },
        _ => {},
    }
}

/// A journey report sends its number of steps: the body's parameters hold
/// `steps` beside the period it is run over.
pub proof fn lemma_journey_sends_steps(cmd: ReportsCmd)
    requires
        cmd is Journey,
    ensures
        cmd.request().body matches Some(b) && b.get("parameters"@) matches Some(p) && p.get(
            "steps"@,
        ) == Some(JsonValue::Number(NumberValue::PosInt(cmd->Journey_steps as u64))) && p.get(
            "startDate"@,
        ) == Some(JsonValue::String(cmd->Journey_start_date@)) && p.get("endDate"@) == Some(
            JsonValue::String(cmd->Journey_end_date@),
        ) && p.get("timezone"@) == Some(JsonValue::String(cmd->Journey_timezone@)),
{
    lemma_reports_calls(cmd);
    lemma_report_names();
    let b = cmd.request().body->Some_0->Object_0;
    lemma_field_get_at(b, "parameters"@, 2);
    let p = b[2].1->Object_0;
    lemma_field_get_at(p, "startDate"@, 0);
    lemma_field_get_at(p, "endDate"@, 1);
    lemma_field_get_at(p, "timezone"@, 2);
    lemma_field_get_at(p, "steps"@, 3);
}

/// Without `--json`, the listing is a table of the reports found, each
/// report's `id`, `type`, `name` and `createdAt` under ID, TYPE, NAME and
/// CREATED; a reply without items is shown as it came.
pub proof fn lemma_reports_table(cmd: ReportsCmd, data: JsonValue)
    requires
        cmd is List,
        !cmd.json_requested(),
    ensures
        match list_items(data, ListSource::DataOrArray) {
            Some(items) => shows_columns(
                cmd.display(data),
                items,
                seq![("ID"@, "id"@), ("TYPE"@, "type"@), ("NAME"@, "name"@), ("CREATED"@, "createdAt"@)],
            ),
            None => cmd.display(data) == seq![OutputView::Json(data)],
        },
{
    let cols = seq![("ID"@, "id"@), ("TYPE"@, "type"@), ("NAME"@, "name"@), ("CREATED"@, "createdAt"@)];
    assert(column_headers(cols) =~= seq!["ID"@, "TYPE"@, "NAME"@, "CREATED"@]);
    assert(column_keys(cols) =~= seq!["id"@, "type"@, "name"@, "createdAt"@]);
    if list_items(data, ListSource::DataOrArray) is Some {
        lemma_listing_columns(data, ListSource::DataOrArray, cols);
    }
}

} // verus!

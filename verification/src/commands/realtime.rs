//! Realtime analytics of the last 30 minutes.
use vstd::prelude::*;
use crate::api::client::ApiError;
use crate::api::http::{ApiCall, ApiCallView, Method};
use crate::commands::{get_call, get_of};
use crate::json::{fields_view, json_text, to_text, Json, JsonValue};
use crate::output::{
    error_outputs, one, outputs_view, show_error, show_labelled, strs_view, val_text, Output,
    OutputView,
};
use crate::ranking::{counts_view, order_view, top_ranked, top_ranking};
use crate::text::{concat, concat3, owned};

verus! {

/// View realtime analytics.
pub enum RealtimeCmd {
    /// Realtime data of a website (last 30 minutes).
    Get { website_id: String, json: bool },
}

/// How many entries of each section are shown.
pub open spec fn section_limit() -> nat {
    10
}

/// The count an entry is ranked by: its value as a non-negative integer,
/// or 0.
pub open spec fn rank_count(v: JsonValue) -> nat {
    match v.as_u64() {
        Some(n) => n as nat,
        None => 0,
    }
}

/// The counts of the entries of a section.
pub open spec fn field_counts(fields: Seq<(Seq<char>, JsonValue)>) -> Seq<nat> {
    Seq::new(fields.len(), |i: int| rank_count(fields[i].1))
}

/// The line of one entry: its value as JSON text, then its name.
pub open spec fn entry_line(entry: (Seq<char>, JsonValue)) -> Seq<char> {
    "  "@ + json_text(entry.1) + "  "@ + entry.0
}

/// A section of top entries: a blank line, the title, then one line for
/// each of the top ten entries, highest count first and ties in their
/// original order.
pub open spec fn top_entries(fields: Seq<(Seq<char>, JsonValue)>, title: Seq<char>) -> Seq<
    OutputView,
> {
    let order = top_ranking(field_counts(fields), section_limit());
    seq![OutputView::Line(Seq::empty()), OutputView::Line(title)] + Seq::new(
        order.len(),
        |i: int| OutputView::Line(entry_line(fields[order[i]])),
    )
}

/// The section of the object under `key`, when there is one.
pub open spec fn top_section(data: JsonValue, key: Seq<char>, title: Seq<char>) -> Seq<OutputView> {
    match data.get(key) {
        Some(JsonValue::Object(fields)) => top_entries(fields, title),
        _ => Seq::empty(),
    }
}

/// The totals, when the reply has them.
pub open spec fn totals_section(data: JsonValue) -> Seq<OutputView> {
    match data.get("totals"@) {
        Some(t) => seq![
            OutputView::Line("=== Realtime (last 30 min) ==="@),
            OutputView::Line("Views:     "@ + val_text(t, "views"@)),
            OutputView::Line("Visitors:  "@ + val_text(t, "visitors"@)),
            OutputView::Line("Events:    "@ + val_text(t, "events"@)),
            OutputView::Line("Countries: "@ + val_text(t, "countries"@)),
        ],
        None => Seq::empty(),
    }
}

/// Appends outputs.
fn append_outputs(v: &mut Vec<Output>, mut more: Vec<Output>)
    ensures
        outputs_view(final(v)@) == outputs_view(old(v)@) + outputs_view(more@),
{
    let ghost a = v@;
    let ghost b = more@;
    v.append(&mut more);
    assert(outputs_view(final(v)@) =~= outputs_view(a) + outputs_view(b));
}

/// The lines of the top entries of a section.
fn top_entries_of(fields: &Vec<(String, Json)>, title: &str) -> (v: Vec<Output>)
    ensures
        outputs_view(v@) == top_entries(fields_view(fields@), title@),
{
    let ghost fv = fields_view(fields@);
    let mut counts: Vec<u64> = Vec::new();
    let mut i: usize = 0;
    while i < fields.len()
        invariant
            i <= fields@.len(),
            fv == fields_view(fields@),
            counts@.len() == i,
            forall|k: int| 0 <= k < i ==> #[trigger] counts@[k] as nat == rank_count(fv[k].1),
        decreases fields@.len() - i,
    {
        let n = match fields[i].1.as_u64() {
            Some(n) => n,
            None => 0,
        };
        counts.push(n);
        i = i + 1;
    }
    assert(counts_view(counts@) =~= field_counts(fv));
    let order = top_ranked(&counts, 10);
    let ghost ov = top_ranking(field_counts(fv), section_limit());
    assert(order_view(order@) == ov);
    let mut v: Vec<Output> = Vec::new();
    v.push(Output::Line(String::new()));
    v.push(Output::Line(owned(title)));
    let ghost head = seq![OutputView::Line(Seq::empty()), OutputView::Line(title@)];
    assert(outputs_view(v@) =~= head);
    assert forall|a: int| 0 <= a < order@.len() implies 0 <= #[trigger] order@[a] < fields@.len() by {
        assert(order_view(order@)[a] == order@[a] as int);
    }
    let mut k: usize = 0;
    while k < order.len()
        invariant
            k <= order@.len(),
            fv == fields_view(fields@),
            order_view(order@) == ov,
            forall|a: int| 0 <= a < order@.len() ==> 0 <= #[trigger] order@[a] < fields@.len(),
            outputs_view(v@) == head + Seq::new(
                k as nat,
                |x: int| OutputView::Line(entry_line(fv[ov[x]])),
            ),
        decreases order@.len() - k,
    {
        let idx = order[k];
        let value = to_text(&fields[idx].1);
        let mut line = concat3("  ", value.as_str(), "  ");
        line.append(fields[idx].0.as_str());
        assert(ov[k as int] == order_view(order@)[k as int]);
        assert(ov[k as int] == idx as int);
        assert(fv[idx as int] == (fields@[idx as int].0@, fields@[idx as int].1@));
        assert(line@ == entry_line(fv[ov[k as int]]));
        let ghost old_v = v@;
        let out = Output::Line(line);
        let ghost g = out;
        v.push(out);
        assert(v@ == old_v.push(g));
        assert(outputs_view(v@) =~= outputs_view(old_v).push(g@));
        k = k + 1;
        assert(outputs_view(v@) =~= head + Seq::new(
            k as nat,
            |x: int| OutputView::Line(entry_line(fv[ov[x]])),
        ));
    }
    v
}

impl RealtimeCmd {
    /// The API call of the command.
    pub open spec fn request(&self) -> ApiCallView {
        match self {
            RealtimeCmd::Get { website_id, .. } => get_of("/api/realtime/"@ + website_id@),
        }
    }

    /// What the command shows for a successful reply: the raw JSON when
    /// asked for, otherwise the totals, then the top URLs, countries and
    /// referrers.
    pub open spec fn display(&self, data: JsonValue) -> Seq<OutputView> {
        match self {
            RealtimeCmd::Get { json, .. } => if *json {
                seq![OutputView::Json(data)]
            } else {
                totals_section(data) + top_section(data, "urls"@, "=== Top URLs ==="@)
                    + top_section(data, "countries"@, "=== Top Countries ==="@) + top_section(
                    data,
                    "referrers"@,
                    "=== Top Referrers ==="@,
                )
            },
        }
    }

    /// The API call of the command.
    pub fn call(&self) -> (c: ApiCall)
        ensures
            c@ == self.request(),
    {
        match self {
            RealtimeCmd::Get { website_id, .. } => get_call(
                concat("/api/realtime/", website_id.as_str()),
            ),
        }
    }

    /// What the command shows for a successful reply.
    pub fn render(&self, data: Json) -> (v: Vec<Output>)
        ensures
            outputs_view(v@) == self.display(data@),
    {
        match self {
            RealtimeCmd::Get { json, .. } => {
                if *json {
                    return one(Output::Json(data));
                }
                let mut v: Vec<Output> = Vec::new();
                match data.get("totals") {
                    Some(t) => {
                        v.push(Output::Line(owned("=== Realtime (last 30 min) ===")));
                        let labels: &[&str] = &["Views:     ", "Visitors:  ", "Events:    ", "Countries: "];
                        let keys: &[&str] = &["views", "visitors", "events", "countries"];
                        assert(strs_view(labels@) =~= seq![
                            "Views:     "@,
                            "Visitors:  "@,
                            "Events:    "@,
                            "Countries: "@,
                        ]);
                        assert(strs_view(keys@) =~= seq!["views"@, "visitors"@, "events"@, "countries"@]);
                        let lines = show_labelled(t, labels, keys);
                        append_outputs(&mut v, lines);
                        assert(outputs_view(v@) =~= totals_section(data@));
                    },
                    None => {
                        assert(outputs_view(v@) =~= totals_section(data@));
                    },
                }
                let urls = self.section(&data, "urls", "=== Top URLs ===");
                append_outputs(&mut v, urls);
                let countries = self.section(&data, "countries", "=== Top Countries ===");
                append_outputs(&mut v, countries);
                let referrers = self.section(&data, "referrers", "=== Top Referrers ===");
                append_outputs(&mut v, referrers);
                v
            },
        }
    }

    /// The section of the object under `key`.
    fn section(&self, data: &Json, key: &str, title: &str) -> (v: Vec<Output>)
        ensures
            outputs_view(v@) == top_section(data@, key@, title@),
    {
        match data.get(key) {
            Some(x) => match x.as_object() {
                Some(fields) => top_entries_of(fields, title),
                None => {
                    let v: Vec<Output> = Vec::new();
                    assert(outputs_view(v@) =~= top_section(data@, key@, title@));
                    v
                },
            },
            None => {
                let v: Vec<Output> = Vec::new();
                assert(outputs_view(v@) =~= top_section(data@, key@, title@));
                v
            },
        }
    }

    /// What the command shows for the result of its call.
    pub fn outcome(&self, result: Result<Json, ApiError>) -> (v: Vec<Output>)
        ensures
            match result {
                Ok(data) => outputs_view(v@) == self.display(data@),
                Err(e) => outputs_view(v@) == error_outputs(""@, e@),
            },
    {
        match result {
            Ok(data) => self.render(data),
            Err(e) => show_error("", &e),
        }
    }
}

impl RealtimeCmd {
    /// Whether the raw JSON reply was asked for (`--json`).
    pub open spec fn json_requested(&self) -> bool {
        match self {
            RealtimeCmd::Get { json, .. } => *json,
        }
    }
}

/// With `--json`, the command shows the reply exactly as it came.
pub proof fn lemma_json_shows_reply(cmd: RealtimeCmd, data: JsonValue)
    requires
        cmd.json_requested(),
    ensures
        cmd.display(data) == seq![OutputView::Json(data)],
{
}

/// The realtime call is a GET of the website's realtime data. Without
/// `--json`, a reply with totals starts with the heading and the views,
/// visitors, events and countries of its totals; the top URLs follow, a
/// blank line and their heading, then one line per listed URL: its count
/// as JSON text, two spaces, and the URL, highest counts first (entries
/// that are not whole numbers count as 0), at most ten.
pub proof fn lemma_realtime_shown(cmd: RealtimeCmd, data: JsonValue)
    requires
        !cmd.json_requested(),
    ensures
        cmd.request() == (ApiCallView {
            method: Method::Get,
            path: "/api/realtime/"@ + cmd->Get_website_id@,
            query: Seq::empty(),
            body: None,
        }),
        data.get("totals"@) matches Some(t) ==> cmd.display(data).take(5) == seq![
            OutputView::Line("=== Realtime (last 30 min) ==="@),
            OutputView::Line("Views:     "@ + val_text(t, "views"@)),
            OutputView::Line("Visitors:  "@ + val_text(t, "visitors"@)),
            OutputView::Line("Events:    "@ + val_text(t, "events"@)),
            OutputView::Line("Countries: "@ + val_text(t, "countries"@)),
        ],
        data.get("urls"@) matches Some(JsonValue::Object(f)) ==> data.get("totals"@) is None ==> {
            let counts = Seq::new(
                f.len(),
                |i: int| match f[i].1.as_u64() {
                    Some(n) => n as nat,
                    None => 0nat,
                },
            );
            let order = top_ranking(counts, 10);
            &&& cmd.display(data).take(2) == seq![
                OutputView::Line(Seq::empty()),
                OutputView::Line("=== Top URLs ==="@),
            ]
            &&& forall|k: int|
                0 <= k < order.len() ==> #[trigger] cmd.display(data)[k + 2] == OutputView::Line(
                    "  "@ + json_text(f[order[k]].1) + "  "@ + f[order[k]].0,
                )
        },
{
    let d = cmd.display(data);
    if data.get("totals"@) is Some {
        assert(d.take(5) =~= totals_section(data));
    }
    if data.get("totals"@) is None {
        assert(totals_section(data) =~= Seq::<OutputView>::empty());
        match data.get("urls"@) {
            Some(JsonValue::Object(f)) => {
                let counts = Seq::new(
                    f.len(),
                    |i: int| match f[i].1.as_u64() {
                        Some(n) => n as nat,
                        None => 0nat,
                    },
                );
                assert(counts =~= field_counts(f));
                let sec = top_entries(f, "=== Top URLs ==="@);
                assert(d =~= sec + (top_section(data, "countries"@, "=== Top Countries ==="@)
                    + top_section(data, "referrers"@, "=== Top Referrers ==="@)));
                assert(d.take(2) =~= sec.take(2));
                let order = top_ranking(counts, 10);
                assert forall|k: int| 0 <= k < order.len() implies #[trigger] d[k + 2]
                    == OutputView::Line("  "@ + json_text(f[order[k]].1) + "  "@ + f[order[k]].0) by {
                    assert(d[k + 2] == sec[k + 2]);
                }
            },
            _ => {},
        }
    }
}

} // verus!

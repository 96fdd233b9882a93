//! Tracking pixels.
use vstd::prelude::*;
use crate::api::client::ApiError;
use crate::api::http::{ApiCall, ApiCallView, Method};
use crate::commands::{
    delete_call, delete_of, get_call, get_of, get_query_call, get_query_of, no_fields, object,
    opt_field, page_query, page_query_of, post_call, post_of, push_field, push_opt_str_field,
};
use crate::config::opt_str;
use crate::json::{fields_view, Json, JsonValue};
use crate::output::{
    column_headers, column_keys, lemma_details_fields, lemma_listing_columns, list_items,
    shows_columns, shows_fields, val_text, changed, created, details, error_outputs, listing, outputs_view, show_changed, show_created,
    show_details, show_error, show_listing, show_success, strs_view, ListSource, Output,
    OutputView,
};
use crate::text::{concat, decimal, owned};

verus! {

/// Manage tracking pixels.
#[allow(inconsistent_fields)]
pub enum PixelsCmd {
    /// List all pixels.
    List { search: Option<String>, page: u32, json: bool },
    /// Get pixel details.
    Get { id: String, json: bool },
    /// Create a pixel under a slug (8 or more characters).
    Create { name: String, slug: String, team_id: Option<String> },
    /// Update a pixel.
    Update { id: String, name: Option<String>, slug: Option<String> },
    /// Delete a pixel.
    Delete { id: String },
}

impl PixelsCmd {
    /// The API call of the command.
    pub open spec fn request(&self) -> ApiCallView {
        match self {
            PixelsCmd::List { search, page, .. } => get_query_of(
                "/api/pixels"@,
                page_query_of(*page, opt_str(*search)),
            ),
            PixelsCmd::Get { id, .. } => get_of("/api/pixels/"@ + id@),
            PixelsCmd::Create { name, slug, team_id } => post_of(
                "/api/pixels"@,
                JsonValue::Object(
                    opt_field(
                        seq![("name"@, JsonValue::String(name@)), ("slug"@, JsonValue::String(slug@))],
                        "teamId"@,
                        opt_str(*team_id),
                    ),
                ),
            ),
            PixelsCmd::Update { id, name, slug } => post_of(
                "/api/pixels/"@ + id@,
                JsonValue::Object(
                    opt_field(
                        opt_field(Seq::empty(), "name"@, opt_str(*name)),
                        "slug"@,
                        opt_str(*slug),
                    ),
                ),
            ),
            PixelsCmd::Delete { id } => delete_of("/api/pixels/"@ + id@),
        }
    }

    /// What the command shows for a successful reply.
    pub open spec fn display(&self, data: JsonValue) -> Seq<OutputView> {
        match self {
            PixelsCmd::List { json, .. } => listing(
                data,
                *json,
                ListSource::DataOrArray,
                seq!["ID"@, "NAME"@, "SLUG"@],
                seq!["id"@, "name"@, "slug"@],
            ),
            PixelsCmd::Get { json, .. } => details(
                data,
                *json,
                seq!["ID:   "@, "Name: "@, "Slug: "@],
                seq!["id"@, "name"@, "slug"@],
            ),
            PixelsCmd::Create { .. } => created(data, "Pixel created: "@),
            PixelsCmd::Update { .. } => changed(data, "Pixel updated."@),
            PixelsCmd::Delete { .. } => seq![OutputView::Success("Pixel deleted."@)],
        }
    }

    /// The API call of the command.
    pub fn call(&self) -> (c: ApiCall)
        ensures
            c@ == self.request(),
    {
        match self {
            PixelsCmd::List { search, page, .. } => get_query_call(
                owned("/api/pixels"),
                page_query(*page, search),
            ),
            PixelsCmd::Get { id, .. } => get_call(concat("/api/pixels/", id.as_str())),
            PixelsCmd::Create { name, slug, team_id } => {
                let mut f = no_fields();
                push_field(&mut f, "name", Json::String(name.clone()));
                push_field(&mut f, "slug", Json::String(slug.clone()));
                assert(fields_view(f@) =~= seq![
                    ("name"@, JsonValue::String(name@)),
                    ("slug"@, JsonValue::String(slug@)),
                ]);
                push_opt_str_field(&mut f, "teamId", team_id);
                post_call(owned("/api/pixels"), object(f))
            },
            PixelsCmd::Update { id, name, slug } => {
                let mut f = no_fields();
                push_opt_str_field(&mut f, "name", name);
                push_opt_str_field(&mut f, "slug", slug);
                post_call(concat("/api/pixels/", id.as_str()), object(f))
            },
            PixelsCmd::Delete { id } => delete_call(concat("/api/pixels/", id.as_str())),
        }
    }

    /// What the command shows for a successful reply.
    pub fn render(&self, data: Json) -> (v: Vec<Output>)
        ensures
            outputs_view(v@) == self.display(data@),
    {
        match self {
            PixelsCmd::List { json, .. } => {
                let headers: &[&str] = &["ID", "NAME", "SLUG"];
                let keys: &[&str] = &["id", "name", "slug"];
                assert(strs_view(headers@) =~= seq!["ID"@, "NAME"@, "SLUG"@]);
                assert(strs_view(keys@) =~= seq!["id"@, "name"@, "slug"@]);
                show_listing(data, *json, ListSource::DataOrArray, headers, keys)
            },
            PixelsCmd::Get { json, .. } => {
                let labels: &[&str] = &["ID:   ", "Name: ", "Slug: "];
                let keys: &[&str] = &["id", "name", "slug"];
                assert(strs_view(labels@) =~= seq!["ID:   "@, "Name: "@, "Slug: "@]);
                assert(strs_view(keys@) =~= seq!["id"@, "name"@, "slug"@]);
                show_details(data, *json, labels, keys)
            },
            PixelsCmd::Create { .. } => show_created(data, "Pixel created: "),
            PixelsCmd::Update { .. } => show_changed(data, "Pixel updated."),
            PixelsCmd::Delete { .. } => show_success("Pixel deleted."),
        }
    }

    /// What the command shows for the result of its call.
    pub fn outcome(&self, result: Result<Json, ApiError>) -> (v: Vec<Output>)
        ensures
            match result {
                Ok(data) => outputs_view(v@) == self.display(data@),
                Err(e) => outputs_view(v@) == error_outputs(""@, e@),
            },
    {
        match result {
            Ok(data) => self.render(data),
            Err(e) => show_error("", &e),
        }
    }
}

impl PixelsCmd {
    /// Whether the raw JSON reply was asked for (`--json`).
    pub open spec fn json_requested(&self) -> bool {
        match self {
            PixelsCmd::List { json, .. } => *json,
            PixelsCmd::Get { json, .. } => *json,
            _ => false,
        }
    }
}

/// With `--json`, the command shows the reply exactly as it came.
pub proof fn lemma_json_shows_reply(cmd: PixelsCmd, data: JsonValue)
    requires
        cmd.json_requested(),
    ensures
        cmd.display(data) == seq![OutputView::Json(data)],
{
}

/// The calls sent: listing asks for the page, then the search text when given; creating posts the name and slug, then the team id when given; an update posts only the given fields; reading and deleting go to the pixel's path.
pub proof fn lemma_pixels_calls(cmd: PixelsCmd)
    ensures
        match cmd {
            PixelsCmd::List { search, page, .. } => cmd.request() == (ApiCallView { method: Method::Get, path: "/api/pixels"@, query: seq![("page"@, decimal(page as nat))] + (match search { Some(t) => seq![("search"@, t@)], None => Seq::<(Seq<char>, Seq<char>)>::empty() }), body: None }),
            PixelsCmd::Get { id, .. } => cmd.request() == (ApiCallView { method: Method::Get, path: "/api/pixels/"@ + id@, query: Seq::empty(), body: None }),
            PixelsCmd::Create { name, slug, team_id } => cmd.request() == (ApiCallView { method: Method::Post, path: "/api/pixels"@, query: Seq::empty(), body: Some(JsonValue::Object(seq![("name"@, JsonValue::String(name@)), ("slug"@, JsonValue::String(slug@))] + (match team_id { Some(t) => seq![("teamId"@, JsonValue::String(t@))], None => Seq::<(Seq<char>, JsonValue)>::empty() }))) }),
            PixelsCmd::Update { id, name, slug } => cmd.request() == (ApiCallView { method: Method::Post, path: "/api/pixels/"@ + id@, query: Seq::empty(), body: Some(JsonValue::Object((match name { Some(t) => seq![("name"@, JsonValue::String(t@))], None => Seq::<(Seq<char>, JsonValue)>::empty() }) + (match slug { Some(t) => seq![("slug"@, JsonValue::String(t@))], None => Seq::<(Seq<char>, JsonValue)>::empty() }))) }),
            PixelsCmd::Delete { id } => cmd.request() == (ApiCallView { method: Method::Delete, path: "/api/pixels/"@ + id@, query: Seq::empty(), body: None }),
        },
{
    match cmd {
        PixelsCmd::List { search, page, .. } => {
            assert(page_query_of(page, opt_str(search)) =~= seq![("page"@, decimal(page as nat))] + (match search { Some(t) => seq![("search"@, t@)], None => Seq::<(Seq<char>, Seq<char>)>::empty() }));
        },
        PixelsCmd::Create { name, slug, team_id } => {
            assert(opt_field(seq![("name"@, JsonValue::String(name@)), ("slug"@, JsonValue::String(slug@))], "teamId"@, opt_str(team_id)) =~= seq![("name"@, JsonValue::String(name@)), ("slug"@, JsonValue::String(slug@))] + (match team_id { Some(t) => seq![("teamId"@, JsonValue::String(t@))], None => Seq::<(Seq<char>, JsonValue)>::empty() }));
        },
        PixelsCmd::Update { name, slug, .. } => {
            assert(opt_field(Seq::<(Seq<char>, JsonValue)>::empty(), "name"@, opt_str(name)) =~= Seq::<(Seq<char>, JsonValue)>::empty() + (match name { Some(t) => seq![("name"@, JsonValue::String(t@))], None => Seq::<(Seq<char>, JsonValue)>::empty() }));
            assert(opt_field(opt_field(Seq::<(Seq<char>, JsonValue)>::empty(), "name"@, opt_str(name)), "slug"@, opt_str(slug)) =~= Seq::<(Seq<char>, JsonValue)>::empty() + (match name { Some(t) => seq![("name"@, JsonValue::String(t@))], None => Seq::<(Seq<char>, JsonValue)>::empty() }) + (match slug { Some(t) => seq![("slug"@, JsonValue::String(t@))], None => Seq::<(Seq<char>, JsonValue)>::empty() }));
        },
        _ => {},
    }
}

/// Without `--json`, the listing is a table of the pixels found, each column holding the field its header names, and the details are one labelled line per field; a created pixel is announced by its `id`.
pub proof fn lemma_pixels_shown(cmd: PixelsCmd, data: JsonValue)
    requires
        !cmd.json_requested(),
    ensures
        cmd is List ==> match list_items(data, ListSource::DataOrArray) {
            Some(items) => shows_columns(cmd.display(data), items, seq![("ID"@, "id"@), ("NAME"@, "name"@), ("SLUG"@, "slug"@)]),
            None => cmd.display(data) == seq![OutputView::Json(data)],
        },
        cmd is Get ==> shows_fields(cmd.display(data), data, seq![("ID:   "@, "id"@), ("Name: "@, "name"@), ("Slug: "@, "slug"@)]),
        cmd is Create ==> cmd.display(data) == seq![OutputView::Success("Pixel created: "@ + val_text(data, "id"@)), OutputView::Json(data)],
{
    {
        let c = seq![("ID"@, "id"@), ("NAME"@, "name"@), ("SLUG"@, "slug"@)];
        assert(column_headers(c) =~= seq!["ID"@, "NAME"@, "SLUG"@]);
        assert(column_keys(c) =~= seq!["id"@, "name"@, "slug"@]);
        if list_items(data, ListSource::DataOrArray) is Some {
            lemma_listing_columns(data, ListSource::DataOrArray, c);
        }
    }
    {
        let c = seq![("ID:   "@, "id"@), ("Name: "@, "name"@), ("Slug: "@, "slug"@)];
        assert(column_headers(c) =~= seq!["ID:   "@, "Name: "@, "Slug: "@]);
        assert(column_keys(c) =~= seq!["id"@, "name"@, "slug"@]);
        lemma_details_fields(data, c);
    }
}

} // verus!

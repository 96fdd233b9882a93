//! Tracked links.
use vstd::prelude::*;
use crate::api::client::ApiError;
use crate::api::http::{ApiCall, ApiCallView, Method};
use crate::commands::{
    delete_call, delete_of, get_call, get_of, get_query_call, get_query_of, no_fields, object,
    opt_field, page_query, page_query_of, post_call, post_of, push_field, push_opt_str_field,
};
use crate::config::opt_str;
use crate::json::{fields_view, Json, JsonValue};
use crate::output::{
    column_headers, column_keys, lemma_details_fields, lemma_listing_columns, list_items,
    shows_columns, shows_fields, val_text, changed, created, details, error_outputs, listing, outputs_view, show_changed, show_created,
    show_details, show_error, show_listing, show_success, strs_view, ListSource, Output,
    OutputView,
};
use crate::text::{concat, decimal, owned};

verus! {

/// Manage tracked links.
#[allow(inconsistent_fields)]
pub enum LinksCmd {
    /// List all links.
    List { search: Option<String>, page: u32, json: bool },
    /// Get link details.
    Get { id: String, json: bool },
    /// Create a link to a URL under a slug (8 or more characters).
    Create { name: String, url: String, slug: String, team_id: Option<String> },
    /// Update a link.
    Update { id: String, name: Option<String>, url: Option<String>, slug: Option<String> },
    /// Delete a link.
    Delete { id: String },
}

impl LinksCmd {
    /// The API call of the command.
    pub open spec fn request(&self) -> ApiCallView {
        match self {
            LinksCmd::List { search, page, .. } => get_query_of(
                "/api/links"@,
                page_query_of(*page, opt_str(*search)),
            ),
            LinksCmd::Get { id, .. } => get_of("/api/links/"@ + id@),
            LinksCmd::Create { name, url, slug, team_id } => post_of(
                "/api/links"@,
                JsonValue::Object(
                    opt_field(
                        seq![
                            ("name"@, JsonValue::String(name@)),
                            ("url"@, JsonValue::String(url@)),
                            ("slug"@, JsonValue::String(slug@)),
                        ],
                        "teamId"@,
                        opt_str(*team_id),
                    ),
                ),
            ),
            LinksCmd::Update { id, name, url, slug } => post_of(
                "/api/links/"@ + id@,
                JsonValue::Object(
                    opt_field(
                        opt_field(
                            opt_field(Seq::empty(), "name"@, opt_str(*name)),
                            "url"@,
                            opt_str(*url),
                        ),
                        "slug"@,
                        opt_str(*slug),
                    ),
                ),
            ),
            LinksCmd::Delete { id } => delete_of("/api/links/"@ + id@),
        }
    }

    /// What the command shows for a successful reply.
    pub open spec fn display(&self, data: JsonValue) -> Seq<OutputView> {
        match self {
            LinksCmd::List { json, .. } => listing(
                data,
                *json,
                ListSource::DataOrArray,
                seq!["ID"@, "NAME"@, "URL"@, "SLUG"@],
                seq!["id"@, "name"@, "url"@, "slug"@],
            ),
            LinksCmd::Get { json, .. } => details(
                data,
                *json,
                seq!["ID:   "@, "Name: "@, "URL:  "@, "Slug: "@],
                seq!["id"@, "name"@, "url"@, "slug"@],
            ),
            LinksCmd::Create { .. } => created(data, "Link created: "@),
            LinksCmd::Update { .. } => changed(data, "Link updated."@),
            LinksCmd::Delete { .. } => seq![OutputView::Success("Link deleted."@)],
        }
    }

    /// The API call of the command.
    pub fn call(&self) -> (c: ApiCall)
        ensures
            c@ == self.request(),
    {
        match self {
            LinksCmd::List { search, page, .. } => get_query_call(
                owned("/api/links"),
                page_query(*page, search),
            ),
            LinksCmd::Get { id, .. } => get_call(concat("/api/links/", id.as_str())),
            LinksCmd::Create { name, url, slug, team_id } => {
                let mut f = no_fields();
                push_field(&mut f, "name", Json::String(name.clone()));
                push_field(&mut f, "url", Json::String(url.clone()));
                push_field(&mut f, "slug", Json::String(slug.clone()));
                assert(fields_view(f@) =~= seq![
                    ("name"@, JsonValue::String(name@)),
                    ("url"@, JsonValue::String(url@)),
                    ("slug"@, JsonValue::String(slug@)),
                ]);
                push_opt_str_field(&mut f, "teamId", team_id);
                post_call(owned("/api/links"), object(f))
            },
            LinksCmd::Update { id, name, url, slug } => {
                let mut f = no_fields();
                push_opt_str_field(&mut f, "name", name);
                push_opt_str_field(&mut f, "url", url);
                push_opt_str_field(&mut f, "slug", slug);
                post_call(concat("/api/links/", id.as_str()), object(f))
            },
            LinksCmd::Delete { id } => delete_call(concat("/api/links/", id.as_str())),
        }
    }

    /// What the command shows for a successful reply.
    pub fn render(&self, data: Json) -> (v: Vec<Output>)
        ensures
            outputs_view(v@) == self.display(data@),
    {
        match self {
            LinksCmd::List { json, .. } => {
                let headers: &[&str] = &["ID", "NAME", "URL", "SLUG"];
                let keys: &[&str] = &["id", "name", "url", "slug"];
                assert(strs_view(headers@) =~= seq!["ID"@, "NAME"@, "URL"@, "SLUG"@]);
                assert(strs_view(keys@) =~= seq!["id"@, "name"@, "url"@, "slug"@]);
                show_listing(data, *json, ListSource::DataOrArray, headers, keys)
            },
            LinksCmd::Get { json, .. } => {
                let labels: &[&str] = &["ID:   ", "Name: ", "URL:  ", "Slug: "];
                let keys: &[&str] = &["id", "name", "url", "slug"];
                assert(strs_view(labels@) =~= seq!["ID:   "@, "Name: "@, "URL:  "@, "Slug: "@]);
                assert(strs_view(keys@) =~= seq!["id"@, "name"@, "url"@, "slug"@]);
                show_details(data, *json, labels, keys)
            },
            LinksCmd::Create { .. } => show_created(data, "Link created: "),
            LinksCmd::Update { .. } => show_changed(data, "Link updated."),
            LinksCmd::Delete { .. } => show_success("Link deleted."),
        }
    }

    /// What the command shows for the result of its call.
    pub fn outcome(&self, result: Result<Json, ApiError>) -> (v: Vec<Output>)
        ensures
            match result {
                Ok(data) => outputs_view(v@) == self.display(data@),
                Err(e) => outputs_view(v@) == error_outputs(""@, e@),
            },
    {
        match result {
            Ok(data) => self.render(data),
            Err(e) => show_error("", &e),
        }
    }
}

impl LinksCmd {
    /// Whether the raw JSON reply was asked for (`--json`).
    pub open spec fn json_requested(&self) -> bool {
        match self {
            LinksCmd::List { json, .. } => *json,
            LinksCmd::Get { json, .. } => *json,
            _ => false,
        }
    }
}

/// With `--json`, the command shows the reply exactly as it came.
pub proof fn lemma_json_shows_reply(cmd: LinksCmd, data: JsonValue)
    requires
        cmd.json_requested(),
    ensures
        cmd.display(data) == seq![OutputView::Json(data)],
{
}

/// The calls sent: listing asks for the page, then the search text when given; creating posts the name, target URL and slug, then the team id when given; an update posts only the given fields; reading and deleting go to the link's path.
pub proof fn lemma_links_calls(cmd: LinksCmd)
    ensures
        match cmd {
            LinksCmd::List { search, page, .. } => cmd.request() == (ApiCallView { method: Method::Get, path: "/api/links"@, query: seq![("page"@, decimal(page as nat))] + (match search { Some(t) => seq![("search"@, t@)], None => Seq::<(Seq<char>, Seq<char>)>::empty() }), body: None }),
            LinksCmd::Get { id, .. } => cmd.request() == (ApiCallView { method: Method::Get, path: "/api/links/"@ + id@, query: Seq::empty(), body: None }),
            LinksCmd::Create { name, url, slug, team_id } => cmd.request() == (ApiCallView { method: Method::Post, path: "/api/links"@, query: Seq::empty(), body: Some(JsonValue::Object(seq![("name"@, JsonValue::String(name@)), ("url"@, JsonValue::String(url@)), ("slug"@, JsonValue::String(slug@))] + (match team_id { Some(t) => seq![("teamId"@, JsonValue::String(t@))], None => Seq::<(Seq<char>, JsonValue)>::empty() }))) }),
            LinksCmd::Update { id, name, url, slug } => cmd.request() == (ApiCallView { method: Method::Post, path: "/api/links/"@ + id@, query: Seq::empty(), body: Some(JsonValue::Object((match name { Some(t) => seq![("name"@, JsonValue::String(t@))], None => Seq::<(Seq<char>, JsonValue)>::empty() }) + (match url { Some(t) => seq![("url"@, JsonValue::String(t@))], None => Seq::<(Seq<char>, JsonValue)>::empty() }) + (match slug { Some(t) => seq![("slug"@, JsonValue::String(t@))], None => Seq::<(Seq<char>, JsonValue)>::empty() }))) }),
            LinksCmd::Delete { id } => cmd.request() == (ApiCallView { method: Method::Delete, path: "/api/links/"@ + id@, query: Seq::empty(), body: None }),
        },
{
    match cmd {
        LinksCmd::List { search, page, .. } => {
            assert(page_query_of(page, opt_str(search)) =~= seq![("page"@, decimal(page as nat))] + (match search { Some(t) => seq![("search"@, t@)], None => Seq::<(Seq<char>, Seq<char>)>::empty() }));
        },
        LinksCmd::Create { name, url, slug, team_id } => {
            assert(opt_field(seq![("name"@, JsonValue::String(name@)), ("url"@, JsonValue::String(url@)), ("slug"@, JsonValue::String(slug@))], "teamId"@, opt_str(team_id)) =~= seq![("name"@, JsonValue::String(name@)), ("url"@, JsonValue::String(url@)), ("slug"@, JsonValue::String(slug@))] + (match team_id { Some(t) => seq![("teamId"@, JsonValue::String(t@))], None => Seq::<(Seq<char>, JsonValue)>::empty() }));
        },
        LinksCmd::Update { name, url, slug, .. } => {
            assert(opt_field(Seq::<(Seq<char>, JsonValue)>::empty(), "name"@, opt_str(name)) =~= Seq::<(Seq<char>, JsonValue)>::empty() + (match name { Some(t) => seq![("name"@, JsonValue::String(t@))], None => Seq::<(Seq<char>, JsonValue)>::empty() }));
            assert(opt_field(opt_field(Seq::<(Seq<char>, JsonValue)>::empty(), "name"@, opt_str(name)), "url"@, opt_str(url)) =~= Seq::<(Seq<char>, JsonValue)>::empty() + (match name { Some(t) => seq![("name"@, JsonValue::String(t@))], None => Seq::<(Seq<char>, JsonValue)>::empty() }) + (match url { Some(t) => seq![("url"@, JsonValue::String(t@))], None => Seq::<(Seq<char>, JsonValue)>::empty() }));
            assert(opt_field(opt_field(opt_field(Seq::<(Seq<char>, JsonValue)>::empty(), "name"@, opt_str(name)), "url"@, opt_str(url)), "slug"@, opt_str(slug)) =~= Seq::<(Seq<char>, JsonValue)>::empty() + (match name { Some(t) => seq![("name"@, JsonValue::String(t@))], None => Seq::<(Seq<char>, JsonValue)>::empty() }) + (match url { Some(t) => seq![("url"@, JsonValue::String(t@))], None => Seq::<(Seq<char>, JsonValue)>::empty() }) + (match slug { Some(t) => seq![("slug"@, JsonValue::String(t@))], None => Seq::<(Seq<char>, JsonValue)>::empty() }));
        },
        _ => {},
    }
}

/// Without `--json`, the listing is a table of the links found, each column holding the field its header names, and the details are one labelled line per field; a created link is announced by its `id`.
pub proof fn lemma_links_shown(cmd: LinksCmd, data: JsonValue)
    requires
        !cmd.json_requested(),
    ensures
        cmd is List ==> match list_items(data, ListSource::DataOrArray) {
            Some(items) => shows_columns(cmd.display(data), items, seq![("ID"@, "id"@), ("NAME"@, "name"@), ("URL"@, "url"@), ("SLUG"@, "slug"@)]),
            None => cmd.display(data) == seq![OutputView::Json(data)],
        },
        cmd is Get ==> shows_fields(cmd.display(data), data, seq![("ID:   "@, "id"@), ("Name: "@, "name"@), ("URL:  "@, "url"@), ("Slug: "@, "slug"@)]),
        cmd is Create ==> cmd.display(data) == seq![OutputView::Success("Link created: "@ + val_text(data, "id"@)), OutputView::Json(data)],
{
    {
        let c = seq![("ID"@, "id"@), ("NAME"@, "name"@), ("URL"@, "url"@), ("SLUG"@, "slug"@)];
        assert(column_headers(c) =~= seq!["ID"@, "NAME"@, "URL"@, "SLUG"@]);
        assert(column_keys(c) =~= seq!["id"@, "name"@, "url"@, "slug"@]);
        if list_items(data, ListSource::DataOrArray) is Some {
            lemma_listing_columns(data, ListSource::DataOrArray, c);
        }
    }
    {
        let c = seq![("ID:   "@, "id"@), ("Name: "@, "name"@), ("URL:  "@, "url"@), ("Slug: "@, "slug"@)];
        assert(column_headers(c) =~= seq!["ID:   "@, "Name: "@, "URL:  "@, "Slug: "@]);
        assert(column_keys(c) =~= seq!["id"@, "name"@, "url"@, "slug"@]);
        lemma_details_fields(data, c);
    }
}

} // verus!

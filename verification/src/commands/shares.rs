//! Share pages.
use vstd::prelude::*;
use crate::api::client::ApiError;
use crate::api::http::{ApiCall, ApiCallView, Method};
use crate::commands::{
    delete_call, delete_of, get_call, get_of, no_fields, obj2, object, object2, opt_field,
    post_call, post_of, push_field, push_opt_str_field,
};
use crate::config::opt_str;
use crate::json::{fields_view, Json, JsonValue, NumberValue};
use crate::output::{
    column_headers, column_keys, lemma_details_fields, lemma_listing_columns, list_items,
    shows_columns, shows_fields, val_text, changed, error_outputs, outputs_view, show_changed, show_error, show_json, show_success,
    Output, OutputView,
};
use crate::text::{concat, concat3, owned};

verus! {

/// Manage share pages.
#[allow(inconsistent_fields)]
pub enum SharesCmd {
    /// Create a share page of an entity (1=website, 2=link, 3=pixel, 4=board).
    Create { entity_id: String, share_type: u32, name: String, slug: String },
    /// Get a share page.
    Get { id: String, json: bool },
    /// Update a share page.
    Update { id: String, name: Option<String>, slug: Option<String> },
    /// Delete a share page.
    Delete { id: String },
    /// List the shares of a website.
    ListForWebsite { website_id: String, json: bool },
    /// Create a share of a website.
    CreateForWebsite { website_id: String, name: String, slug: String },
}

impl SharesCmd {
    /// The API call of the command.
    pub open spec fn request(&self) -> ApiCallView {
        match self {
            SharesCmd::Create { entity_id, share_type, name, slug } => post_of(
                "/api/share"@,
                JsonValue::Object(
                    seq![
                        ("entityId"@, JsonValue::String(entity_id@)),
                        ("shareType"@, JsonValue::Number(NumberValue::PosInt(*share_type as u64))),
                        ("name"@, JsonValue::String(name@)),
                        ("slug"@, JsonValue::String(slug@)),
                    ],
                ),
            ),
            SharesCmd::Get { id, .. } => get_of("/api/share/id/"@ + id@),
            SharesCmd::Update { id, name, slug } => post_of(
                "/api/share/id/"@ + id@,
                JsonValue::Object(
                    opt_field(
                        opt_field(Seq::empty(), "name"@, opt_str(*name)),
                        "slug"@,
                        opt_str(*slug),
                    ),
                ),
            ),
            SharesCmd::Delete { id } => delete_of("/api/share/id/"@ + id@),
            SharesCmd::ListForWebsite { website_id, .. } => get_of(
                "/api/websites/"@ + website_id@ + "/shares"@,
            ),
            SharesCmd::CreateForWebsite { website_id, name, slug } => post_of(
                "/api/websites/"@ + website_id@ + "/shares"@,
                obj2("name"@, name@, "slug"@, slug@),
            ),
        }
    }

    /// What the command shows for a successful reply.
    pub open spec fn display(&self, data: JsonValue) -> Seq<OutputView> {
        match self {
            SharesCmd::Create { .. } => changed(data, "Share page created."@),
            SharesCmd::Get { .. } => seq![OutputView::Json(data)],
            SharesCmd::Update { .. } => changed(data, "Share page updated."@),
            SharesCmd::Delete { .. } => seq![OutputView::Success("Share page deleted."@)],
            SharesCmd::ListForWebsite { .. } => seq![OutputView::Json(data)],
            SharesCmd::CreateForWebsite { .. } => changed(data, "Website share created."@),
        }
    }

    /// The API call of the command.
    pub fn call(&self) -> (c: ApiCall)
        ensures
            c@ == self.request(),
    {
        match self {
            SharesCmd::Create { entity_id, share_type, name, slug } => {
                let mut f = no_fields();
                push_field(&mut f, "entityId", Json::String(entity_id.clone()));
                push_field(&mut f, "shareType", Json::uint(*share_type as u64));
                push_field(&mut f, "name", Json::String(name.clone()));
                push_field(&mut f, "slug", Json::String(slug.clone()));
                assert(fields_view(f@) =~= seq![
                    ("entityId"@, JsonValue::String(entity_id@)),
                    ("shareType"@, JsonValue::Number(NumberValue::PosInt(*share_type as u64))),
                    ("name"@, JsonValue::String(name@)),
                    ("slug"@, JsonValue::String(slug@)),
                ]);
                post_call(owned("/api/share"), object(f))
            },
            SharesCmd::Get { id, .. } => get_call(concat("/api/share/id/", id.as_str())),
            SharesCmd::Update { id, name, slug } => {
                let mut f = no_fields();
                push_opt_str_field(&mut f, "name", name);
                push_opt_str_field(&mut f, "slug", slug);
                post_call(concat("/api/share/id/", id.as_str()), object(f))
            },
            SharesCmd::Delete { id } => delete_call(concat("/api/share/id/", id.as_str())),
            SharesCmd::ListForWebsite { website_id, .. } => get_call(
                concat3("/api/websites/", website_id.as_str(), "/shares"),
            ),
            SharesCmd::CreateForWebsite { website_id, name, slug } => post_call(
                concat3("/api/websites/", website_id.as_str(), "/shares"),
                object2("name", name.clone(), "slug", slug.clone()),
            ),
        }
    }

    /// What the command shows for a successful reply.
    pub fn render(&self, data: Json) -> (v: Vec<Output>)
        ensures
            outputs_view(v@) == self.display(data@),
    {
        match self {
            SharesCmd::Create { .. } => show_changed(data, "Share page created."),
            SharesCmd::Get { .. } => show_json(data),
            SharesCmd::Update { .. } => show_changed(data, "Share page updated."),
            SharesCmd::Delete { .. } => show_success("Share page deleted."),
            SharesCmd::ListForWebsite { .. } => show_json(data),
            SharesCmd::CreateForWebsite { .. } => show_changed(data, "Website share created."),
        }
    }

    /// What the command shows for the result of its call.
    pub fn outcome(&self, result: Result<Json, ApiError>) -> (v: Vec<Output>)
        ensures
            match result {
                Ok(data) => outputs_view(v@) == self.display(data@),
                Err(e) => outputs_view(v@) == error_outputs(""@, e@),
            },
    {
        match result {
            Ok(data) => self.render(data),
            Err(e) => show_error("", &e),
        }
    }
}

impl SharesCmd {
    /// Whether the raw JSON reply was asked for (`--json`).
    pub open spec fn json_requested(&self) -> bool {
        match self {
            SharesCmd::Get { json, .. } => *json,
            SharesCmd::ListForWebsite { json, .. } => *json,
            _ => false,
        }
    }
}

/// With `--json`, the command shows the reply exactly as it came.
pub proof fn lemma_json_shows_reply(cmd: SharesCmd, data: JsonValue)
    requires
        cmd.json_requested(),
    ensures
        cmd.display(data) == seq![OutputView::Json(data)],
{
}

/// The calls sent: a share page is created by posting its entity, type, name and slug, read, updated (only the given fields) and deleted under `/api/share/id/`, and a website's shares are read and created under the website's path.
pub proof fn lemma_shares_calls(cmd: SharesCmd)
    ensures
        match cmd {
            SharesCmd::Create { entity_id, share_type, name, slug } => cmd.request() == (ApiCallView { method: Method::Post, path: "/api/share"@, query: Seq::empty(), body: Some(JsonValue::Object(seq![("entityId"@, JsonValue::String(entity_id@)), ("shareType"@, JsonValue::Number(NumberValue::PosInt(share_type as u64))), ("name"@, JsonValue::String(name@)), ("slug"@, JsonValue::String(slug@))])) }),
            SharesCmd::Get { id, .. } => cmd.request() == (ApiCallView { method: Method::Get, path: "/api/share/id/"@ + id@, query: Seq::empty(), body: None }),
            SharesCmd::Update { id, name, slug } => cmd.request() == (ApiCallView { method: Method::Post, path: "/api/share/id/"@ + id@, query: Seq::empty(), body: Some(JsonValue::Object((match name { Some(t) => seq![("name"@, JsonValue::String(t@))], None => Seq::<(Seq<char>, JsonValue)>::empty() }) + (match slug { Some(t) => seq![("slug"@, JsonValue::String(t@))], None => Seq::<(Seq<char>, JsonValue)>::empty() }))) }),
            SharesCmd::Delete { id } => cmd.request() == (ApiCallView { method: Method::Delete, path: "/api/share/id/"@ + id@, query: Seq::empty(), body: None }),
            SharesCmd::ListForWebsite { website_id, .. } => cmd.request() == (ApiCallView { method: Method::Get, path: "/api/websites/"@ + website_id@ + "/shares"@, query: Seq::empty(), body: None }),
            SharesCmd::CreateForWebsite { website_id, name, slug } => cmd.request() == (ApiCallView { method: Method::Post, path: "/api/websites/"@ + website_id@ + "/shares"@, query: Seq::empty(), body: Some(JsonValue::Object(seq![("name"@, JsonValue::String(name@)), ("slug"@, JsonValue::String(slug@))])) }),
        },
{
    match cmd {
        SharesCmd::Update { name, slug, .. } => {
            assert(opt_field(Seq::<(Seq<char>, JsonValue)>::empty(), "name"@, opt_str(name)) =~= Seq::<(Seq<char>, JsonValue)>::empty() + (match name { Some(t) => seq![("name"@, JsonValue::String(t@))], None => Seq::<(Seq<char>, JsonValue)>::empty() }));
            assert(opt_field(opt_field(Seq::<(Seq<char>, JsonValue)>::empty(), "name"@, opt_str(name)), "slug"@, opt_str(slug)) =~= Seq::<(Seq<char>, JsonValue)>::empty() + (match name { Some(t) => seq![("name"@, JsonValue::String(t@))], None => Seq::<(Seq<char>, JsonValue)>::empty() }) + (match slug { Some(t) => seq![("slug"@, JsonValue::String(t@))], None => Seq::<(Seq<char>, JsonValue)>::empty() }));
        },
        _ => {},
    }
}

/// After creating or updating a share page the message is followed by the reply.
pub proof fn lemma_shares_shown(cmd: SharesCmd, data: JsonValue)
    ensures
        cmd is Create ==> cmd.display(data) == seq![OutputView::Success("Share page created."@), OutputView::Json(data)],
        cmd is Update ==> cmd.display(data) == seq![OutputView::Success("Share page updated."@), OutputView::Json(data)],
        cmd is CreateForWebsite ==> cmd.display(data) == seq![OutputView::Success("Website share created."@), OutputView::Json(data)],
{
}

} // verus!

//! Managing teams and their members.
use vstd::prelude::*;
use crate::api::client::ApiError;
use crate::api::http::{ApiCall, ApiCallView, Method};
use crate::commands::{
    delete_call, delete_of, get_call, get_of, no_fields, obj1, obj2, object, object1, object2,
    opt_field, post_call, post_of, push_opt_str_field,
};
use crate::config::opt_str;
use crate::json::{Json, JsonValue};
use crate::output::{
    column_headers, column_keys, lemma_details_fields, lemma_listing_columns, list_items,
    shows_columns, shows_fields, val_text, changed, created, details, error_outputs, listing, outputs_view, show_changed, show_created,
    show_details, show_error, show_listing, show_success, strs_view, ListSource, Output,
    OutputView,
};
use crate::text::{concat, concat3, owned};

verus! {

/// Manage teams.
#[allow(inconsistent_fields)]
pub enum TeamsCmd {
    /// List all teams.
    List { json: bool },
    /// Get team details.
    Get { id: String, json: bool },
    /// Create a new team.
    Create { name: String },
    /// Update a team.
    Update { id: String, name: Option<String> },
    /// Delete a team.
    Delete { id: String },
    /// Join a team with its access code.
    Join { code: String },
    /// List team members.
    Members { id: String, json: bool },
    /// Add a member with a role (team-member, team-view-only, team-manager).
    AddMember { team_id: String, user_id: String, role: String },
    /// Change a member's role.
    UpdateMember { team_id: String, user_id: String, role: String },
    /// Remove a member.
    RemoveMember { team_id: String, user_id: String },
    /// List team websites.
    Websites { id: String, json: bool },
}

/// The path of one member of a team.
pub open spec fn member_path(team: Seq<char>, user: Seq<char>) -> Seq<char> {
    "/api/teams/"@ + team + "/users/"@ + user
}

/// The path of one member of a team.
fn member_path_of(team: &String, user: &String) -> (p: String)
    ensures
        p@ == member_path(team@, user@),
{
    concat(concat3("/api/teams/", team.as_str(), "/users/").as_str(), user.as_str())
}

impl TeamsCmd {
    /// The API call of the command.
    pub open spec fn request(&self) -> ApiCallView {
        match self {
            TeamsCmd::List { .. } => get_of("/api/teams"@),
            TeamsCmd::Get { id, .. } => get_of("/api/teams/"@ + id@),
            TeamsCmd::Create { name } => post_of("/api/teams"@, obj1("name"@, name@)),
            TeamsCmd::Update { id, name } => post_of(
                "/api/teams/"@ + id@,
                JsonValue::Object(opt_field(Seq::empty(), "name"@, opt_str(*name))),
            ),
            TeamsCmd::Delete { id } => delete_of("/api/teams/"@ + id@),
            TeamsCmd::Join { code } => post_of("/api/teams/join"@, obj1("accessCode"@, code@)),
            TeamsCmd::Members { id, .. } => get_of("/api/teams/"@ + id@ + "/users"@),
            TeamsCmd::AddMember { team_id, user_id, role } => post_of(
                "/api/teams/"@ + team_id@ + "/users"@,
                obj2("userId"@, user_id@, "role"@, role@),
            ),
            TeamsCmd::UpdateMember { team_id, user_id, role } => post_of(
                member_path(team_id@, user_id@),
                obj1("role"@, role@),
            ),
            TeamsCmd::RemoveMember { team_id, user_id } => delete_of(
                member_path(team_id@, user_id@),
            ),
            TeamsCmd::Websites { id, .. } => get_of("/api/teams/"@ + id@ + "/websites"@),
        }
    }

    /// What the command shows for a successful reply.
    pub open spec fn display(&self, data: JsonValue) -> Seq<OutputView> {
        match self {
            TeamsCmd::List { json } => listing(
                data,
                *json,
                ListSource::DataOrArray,
                seq!["ID"@, "NAME"@, "ACCESS CODE"@, "CREATED"@],
                seq!["id"@, "name"@, "accessCode"@, "createdAt"@],
            ),
            TeamsCmd::Get { json, .. } => details(
                data,
                *json,
                seq!["ID:     "@, "Name:   "@, "Code:   "@, "Created: "@],
                seq!["id"@, "name"@, "accessCode"@, "createdAt"@],
            ),
            TeamsCmd::Create { .. } => created(data, "Team created: "@),
            TeamsCmd::Update { .. } => changed(data, "Team updated."@),
            TeamsCmd::Delete { .. } => seq![OutputView::Success("Team deleted."@)],
            TeamsCmd::Join { .. } => changed(data, "Joined team."@),
            TeamsCmd::Members { json, .. } => listing(
                data,
                *json,
                ListSource::Array,
                seq!["ID"@, "USERNAME"@, "ROLE"@],
                seq!["id"@, "username"@, "role"@],
            ),
            TeamsCmd::AddMember { .. } => changed(data, "Member added."@),
            TeamsCmd::UpdateMember { .. } => changed(data, "Member role updated."@),
            TeamsCmd::RemoveMember { .. } => seq![OutputView::Success("Member removed."@)],
            TeamsCmd::Websites { json, .. } => listing(
                data,
                *json,
                ListSource::Array,
                seq!["ID"@, "NAME"@, "DOMAIN"@],
                seq!["id"@, "name"@, "domain"@],
            ),
        }
    }

    /// The API call of the command.
    pub fn call(&self) -> (c: ApiCall)
        ensures
            c@ == self.request(),
    {
        match self {
            TeamsCmd::List { .. } => get_call(owned("/api/teams")),
            TeamsCmd::Get { id, .. } => get_call(concat("/api/teams/", id.as_str())),
            TeamsCmd::Create { name } => post_call(owned("/api/teams"), object1("name", name.clone())),
            TeamsCmd::Update { id, name } => {
                let mut f = no_fields();
                push_opt_str_field(&mut f, "name", name);
                post_call(concat("/api/teams/", id.as_str()), object(f))
            },
            TeamsCmd::Delete { id } => delete_call(concat("/api/teams/", id.as_str())),
            TeamsCmd::Join { code } => post_call(
                owned("/api/teams/join"),
                object1("accessCode", code.clone()),
            ),
            TeamsCmd::Members { id, .. } => get_call(concat3("/api/teams/", id.as_str(), "/users")),
            TeamsCmd::AddMember { team_id, user_id, role } => post_call(
                concat3("/api/teams/", team_id.as_str(), "/users"),
                object2("userId", user_id.clone(), "role", role.clone()),
            ),
            TeamsCmd::UpdateMember { team_id, user_id, role } => post_call(
                member_path_of(team_id, user_id),
                object1("role", role.clone()),
            ),
            TeamsCmd::RemoveMember { team_id, user_id } => delete_call(
                member_path_of(team_id, user_id),
            ),
            TeamsCmd::Websites { id, .. } => get_call(
                concat3("/api/teams/", id.as_str(), "/websites"),
            ),
        }
    }

    /// What the command shows for a successful reply.
    pub fn render(&self, data: Json) -> (v: Vec<Output>)
        ensures
            outputs_view(v@) == self.display(data@),
    {
        match self {
            TeamsCmd::List { json } => {
                let headers: &[&str] = &["ID", "NAME", "ACCESS CODE", "CREATED"];
                let keys: &[&str] = &["id", "name", "accessCode", "createdAt"];
                assert(strs_view(headers@) =~= seq!["ID"@, "NAME"@, "ACCESS CODE"@, "CREATED"@]);
                assert(strs_view(keys@) =~= seq!["id"@, "name"@, "accessCode"@, "createdAt"@]);
                show_listing(data, *json, ListSource::DataOrArray, headers, keys)
            },
            TeamsCmd::Get { json, .. } => {
                let labels: &[&str] = &["ID:     ", "Name:   ", "Code:   ", "Created: "];
                let keys: &[&str] = &["id", "name", "accessCode", "createdAt"];
                assert(strs_view(labels@) =~= seq!["ID:     "@, "Name:   "@, "Code:   "@, "Created: "@]);
                assert(strs_view(keys@) =~= seq!["id"@, "name"@, "accessCode"@, "createdAt"@]);
                show_details(data, *json, labels, keys)
            },
            TeamsCmd::Create { .. } => show_created(data, "Team created: "),
            TeamsCmd::Update { .. } => show_changed(data, "Team updated."),
            TeamsCmd::Delete { .. } => show_success("Team deleted."),
            TeamsCmd::Join { .. } => show_changed(data, "Joined team."),
            TeamsCmd::Members { json, .. } => {
                let headers: &[&str] = &["ID", "USERNAME", "ROLE"];
                let keys: &[&str] = &["id", "username", "role"];
                assert(strs_view(headers@) =~= seq!["ID"@, "USERNAME"@, "ROLE"@]);
                assert(strs_view(keys@) =~= seq!["id"@, "username"@, "role"@]);
                show_listing(data, *json, ListSource::Array, headers, keys)
            },
            TeamsCmd::AddMember { .. } => show_changed(data, "Member added."),
            TeamsCmd::UpdateMember { .. } => show_changed(data, "Member role updated."),
            TeamsCmd::RemoveMember { .. } => show_success("Member removed."),
            TeamsCmd::Websites { json, .. } => {
                let headers: &[&str] = &["ID", "NAME", "DOMAIN"];
                let keys: &[&str] = &["id", "name", "domain"];
                assert(strs_view(headers@) =~= seq!["ID"@, "NAME"@, "DOMAIN"@]);
                assert(strs_view(keys@) =~= seq!["id"@, "name"@, "domain"@]);
                show_listing(data, *json, ListSource::Array, headers, keys)
            },
        }
    }

    /// What the command shows for the result of its call.
    pub fn outcome(&self, result: Result<Json, ApiError>) -> (v: Vec<Output>)
        ensures
            match result {
                Ok(data) => outputs_view(v@) == self.display(data@),
                Err(e) => outputs_view(v@) == error_outputs(""@, e@),
            },
    {
        match result {
            Ok(data) => self.render(data),
            Err(e) => show_error("", &e),
        }
    }
}

impl TeamsCmd {
    /// Whether the raw JSON reply was asked for (`--json`).
    pub open spec fn json_requested(&self) -> bool {
        match self {
            TeamsCmd::List { json, .. } => *json,
            TeamsCmd::Get { json, .. } => *json,
            TeamsCmd::Members { json, .. } => *json,
            TeamsCmd::Websites { json, .. } => *json,
            _ => false,
        }
    }
}

/// With `--json`, the command shows the reply exactly as it came.
pub proof fn lemma_json_shows_reply(cmd: TeamsCmd, data: JsonValue)
    requires
        cmd.json_requested(),
    ensures
        cmd.display(data) == seq![OutputView::Json(data)],
{
}

/// The calls sent: reads go by GET to the team's own path (its members
/// under `/users`, its websites under `/websites`), creation and joining
/// post the name or access code, an update posts only a given name, member
/// changes post the user id and role to the team's members, and deletions
/// go by DELETE.
pub proof fn lemma_teams_calls(cmd: TeamsCmd)
    ensures
        match cmd {
            TeamsCmd::List { .. } => cmd.request() == (ApiCallView {
                method: Method::Get,
                path: "/api/teams"@,
                query: Seq::empty(),
                body: None,
            }),
            TeamsCmd::Get { id, .. } => cmd.request() == (ApiCallView {
                method: Method::Get,
                path: "/api/teams/"@ + id@,
                query: Seq::empty(),
                body: None,
            }),
            TeamsCmd::Create { name } => cmd.request() == (ApiCallView {
                method: Method::Post,
                path: "/api/teams"@,
                query: Seq::empty(),
                body: Some(JsonValue::Object(seq![("name"@, JsonValue::String(name@))])),
            }),
            TeamsCmd::Update { id, name } => cmd.request() == (ApiCallView {
                method: Method::Post,
                path: "/api/teams/"@ + id@,
                query: Seq::empty(),
                body: Some(JsonValue::Object(match name {
                    Some(t) => seq![("name"@, JsonValue::String(t@))],
                    None => Seq::empty(),
                })),
            }),
            TeamsCmd::Delete { id } => cmd.request() == (ApiCallView {
                method: Method::Delete,
                path: "/api/teams/"@ + id@,
                query: Seq::empty(),
                body: None,
            }),
            TeamsCmd::Join { code } => cmd.request() == (ApiCallView {
                method: Method::Post,
                path: "/api/teams/join"@,
                query: Seq::empty(),
                body: Some(JsonValue::Object(seq![("accessCode"@, JsonValue::String(code@))])),
            }),
            TeamsCmd::Members { id, .. } => cmd.request() == (ApiCallView {
                method: Method::Get,
                path: "/api/teams/"@ + id@ + "/users"@,
                query: Seq::empty(),
                body: None,
            }),
            TeamsCmd::AddMember { team_id, user_id, role } => cmd.request() == (ApiCallView {
                method: Method::Post,
                path: "/api/teams/"@ + team_id@ + "/users"@,
                query: Seq::empty(),
                body: Some(JsonValue::Object(seq![("userId"@, JsonValue::String(user_id@)), ("role"@, JsonValue::String(role@))])),
            }),
            TeamsCmd::UpdateMember { team_id, user_id, role } => cmd.request() == (ApiCallView {
                method: Method::Post,
                path: "/api/teams/"@ + team_id@ + "/users/"@ + user_id@,
                query: Seq::empty(),
                body: Some(JsonValue::Object(seq![("role"@, JsonValue::String(role@))])),
            }),
            TeamsCmd::RemoveMember { team_id, user_id } => cmd.request() == (ApiCallView {
                method: Method::Delete,
                path: "/api/teams/"@ + team_id@ + "/users/"@ + user_id@,
                query: Seq::empty(),
                body: None,
            }),
            TeamsCmd::Websites { id, .. } => cmd.request() == (ApiCallView {
                method: Method::Get,
                path: "/api/teams/"@ + id@ + "/websites"@,
                query: Seq::empty(),
                body: None,
            }),
        },
{
    match cmd {
        TeamsCmd::Update { name, .. } => {
            assert(opt_field(Seq::empty(), "name"@, opt_str(name)) =~= match name {
                    Some(t) => seq![("name"@, JsonValue::String(t@))],
                    None => Seq::empty(),
                });
        },
        _ => {},
    }
}

/// Without `--json`, the team listing, the member listing and the team's
/// websites are tables of the items found, each column holding the field
/// its header names, and the team's details are one labelled line per
/// field; a created team is announced by its `id`.
pub proof fn lemma_teams_shown(cmd: TeamsCmd, data: JsonValue)
    requires
        !cmd.json_requested(),
    ensures
        cmd is List ==> match list_items(data, ListSource::DataOrArray) {
            Some(items) => shows_columns(
                cmd.display(data),
                items,
                seq![("ID"@, "id"@), ("NAME"@, "name"@), ("ACCESS CODE"@, "accessCode"@), ("CREATED"@, "createdAt"@)],
            ),
            None => cmd.display(data) == seq![OutputView::Json(data)],
        },
        cmd is Members ==> match list_items(data, ListSource::Array) {
            Some(items) => shows_columns(
                cmd.display(data),
                items,
                seq![("ID"@, "id"@), ("USERNAME"@, "username"@), ("ROLE"@, "role"@)],
            ),
            None => cmd.display(data) == seq![OutputView::Json(data)],
        },
        cmd is Websites ==> match list_items(data, ListSource::Array) {
            Some(items) => shows_columns(
                cmd.display(data),
                items,
                seq![("ID"@, "id"@), ("NAME"@, "name"@), ("DOMAIN"@, "domain"@)],
            ),
            None => cmd.display(data) == seq![OutputView::Json(data)],
        },
        cmd is Get ==> shows_fields(
            cmd.display(data),
            data,
            seq![("ID:     "@, "id"@), ("Name:   "@, "name"@), ("Code:   "@, "accessCode"@), ("Created: "@, "createdAt"@)],
        ),
        cmd is Create ==> cmd.display(data) == seq![
            OutputView::Success("Team created: "@ + val_text(data, "id"@)),
            OutputView::Json(data),
        ],
{
    let a = seq![("ID"@, "id"@), ("NAME"@, "name"@), ("ACCESS CODE"@, "accessCode"@), ("CREATED"@, "createdAt"@)];
    let m = seq![("ID"@, "id"@), ("USERNAME"@, "username"@), ("ROLE"@, "role"@)];
    let w = seq![("ID"@, "id"@), ("NAME"@, "name"@), ("DOMAIN"@, "domain"@)];
    let g = seq![("ID:     "@, "id"@), ("Name:   "@, "name"@), ("Code:   "@, "accessCode"@), ("Created: "@, "createdAt"@)];
    assert(column_headers(a) =~= seq!["ID"@, "NAME"@, "ACCESS CODE"@, "CREATED"@]);
    assert(column_keys(a) =~= seq!["id"@, "name"@, "accessCode"@, "createdAt"@]);
    assert(column_headers(m) =~= seq!["ID"@, "USERNAME"@, "ROLE"@]);
    assert(column_keys(m) =~= seq!["id"@, "username"@, "role"@]);
    assert(column_headers(w) =~= seq!["ID"@, "NAME"@, "DOMAIN"@]);
    assert(column_keys(w) =~= seq!["id"@, "name"@, "domain"@]);
    assert(column_headers(g) =~= seq!["ID:     "@, "Name:   "@, "Code:   "@, "Created: "@]);
    assert(column_keys(g) =~= seq!["id"@, "name"@, "accessCode"@, "createdAt"@]);
    lemma_details_fields(data, g);
    if list_items(data, ListSource::DataOrArray) is Some {
        lemma_listing_columns(data, ListSource::DataOrArray, a);
    }
    if list_items(data, ListSource::Array) is Some {
        lemma_listing_columns(data, ListSource::Array, m);
        lemma_listing_columns(data, ListSource::Array, w);
    }
}

} // verus!

//! The current user, and managing users.
use vstd::prelude::*;
use crate::api::client::ApiError;
use crate::api::http::{pairs_view, ApiCall, ApiCallView, Method};
use crate::commands::{
    delete_call, delete_of, get_call, get_of, get_query_call, get_query_of, no_fields, object,
    opt_field, post_call, post_of, push_field, push_opt_str_field, push_pair,
};
use crate::config::opt_str;
use crate::json::{fields_view, Json, JsonValue};
use crate::output::{
    column_headers, column_keys, lemma_details_fields, lemma_listing_columns, list_items,
    shows_columns, shows_fields, val_text, changed, created, details, error_outputs, listing, outputs_view, show_changed, show_created,
    show_details, show_error, show_json, show_listing, show_success, strs_view, ListSource,
    Output, OutputView,
};
use crate::text::{concat, concat3, owned};

verus! {

/// User management.
#[allow(inconsistent_fields)]
pub enum UsersCmd {
    /// The current user.
    Me { json: bool },
    /// The current user's teams.
    MyTeams { json: bool },
    /// The current user's websites, optionally with team websites.
    MyWebsites { include_teams: bool, json: bool },
    /// Create a user with a role (admin, user, view-only).
    Create { username: String, password: String, role: String },
    /// Get user details.
    Get { id: String, json: bool },
    /// Update a user.
    Update { id: String, username: Option<String>, password: Option<String>, role: Option<String> },
    /// Delete a user.
    Delete { id: String },
    /// A user's websites.
    Websites { id: String, json: bool },
    /// A user's teams.
    Teams { id: String, json: bool },
}

impl UsersCmd {
    /// The API call of the command.
    pub open spec fn request(&self) -> ApiCallView {
        match self {
            UsersCmd::Me { .. } => get_of("/api/me"@),
            UsersCmd::MyTeams { .. } => get_of("/api/me/teams"@),
            UsersCmd::MyWebsites { include_teams, .. } => get_query_of(
                "/api/me/websites"@,
                if *include_teams {
                    seq![("includeTeams"@, "true"@)]
                } else {
                    Seq::empty()
                },
            ),
            UsersCmd::Create { username, password, role } => post_of(
                "/api/users"@,
                JsonValue::Object(
                    seq![
                        ("username"@, JsonValue::String(username@)),
                        ("password"@, JsonValue::String(password@)),
                        ("role"@, JsonValue::String(role@)),
                    ],
                ),
            ),
            UsersCmd::Get { id, .. } => get_of("/api/users/"@ + id@),
            UsersCmd::Update { id, username, password, role } => post_of(
                "/api/users/"@ + id@,
                JsonValue::Object(
                    opt_field(
                        opt_field(
                            opt_field(Seq::empty(), "username"@, opt_str(*username)),
                            "password"@,
                            opt_str(*password),
                        ),
                        "role"@,
                        opt_str(*role),
                    ),
                ),
            ),
            UsersCmd::Delete { id } => delete_of("/api/users/"@ + id@),
            UsersCmd::Websites { id, .. } => get_of("/api/users/"@ + id@ + "/websites"@),
            UsersCmd::Teams { id, .. } => get_of("/api/users/"@ + id@ + "/teams"@),
        }
    }

    /// What the command shows for a successful reply.
    pub open spec fn display(&self, data: JsonValue) -> Seq<OutputView> {
        match self {
            UsersCmd::Me { json } => details(
                data,
                *json,
                seq!["ID:       "@, "Username: "@, "Role:     "@, "Admin:    "@, "Created:  "@],
                seq!["id"@, "username"@, "role"@, "isAdmin"@, "createdAt"@],
            ),
            UsersCmd::MyTeams { json } => listing(
                data,
                *json,
                ListSource::Array,
                seq!["ID"@, "NAME"@, "ROLE"@],
                seq!["id"@, "name"@, "role"@],
            ),
            UsersCmd::MyWebsites { json, .. } => listing(
                data,
                *json,
                ListSource::DataOrArray,
                seq!["ID"@, "NAME"@, "DOMAIN"@],
                seq!["id"@, "name"@, "domain"@],
            ),
            UsersCmd::Create { .. } => created(data, "User created: "@),
            UsersCmd::Get { json, .. } => details(
                data,
                *json,
                seq!["ID:       "@, "Username: "@, "Role:     "@, "Created:  "@],
                seq!["id"@, "username"@, "role"@, "createdAt"@],
            ),
            UsersCmd::Update { .. } => changed(data, "User updated."@),
            UsersCmd::Delete { .. } => seq![OutputView::Success("User deleted."@)],
            UsersCmd::Websites { .. } => seq![OutputView::Json(data)],
            UsersCmd::Teams { .. } => seq![OutputView::Json(data)],
        }
    }

    /// The API call of the command.
    pub fn call(&self) -> (c: ApiCall)
        ensures
            c@ == self.request(),
    {
        match self {
            UsersCmd::Me { .. } => get_call(owned("/api/me")),
            UsersCmd::MyTeams { .. } => get_call(owned("/api/me/teams")),
            UsersCmd::MyWebsites { include_teams, .. } => {
                let mut q: Vec<(String, String)> = Vec::new();
                assert(pairs_view(q@) =~= Seq::empty());
                if *include_teams {
                    push_pair(&mut q, "includeTeams", owned("true"));
                    assert(pairs_view(q@) =~= seq![("includeTeams"@, "true"@)]);
                }
                get_query_call(owned("/api/me/websites"), q)
            },
            UsersCmd::Create { username, password, role } => {
                let mut f = no_fields();
                push_field(&mut f, "username", Json::String(username.clone()));
                push_field(&mut f, "password", Json::String(password.clone()));
                push_field(&mut f, "role", Json::String(role.clone()));
                assert(fields_view(f@) =~= seq![
                    ("username"@, JsonValue::String(username@)),
                    ("password"@, JsonValue::String(password@)),
                    ("role"@, JsonValue::String(role@)),
                ]);
                post_call(owned("/api/users"), object(f))
            },
            UsersCmd::Get { id, .. } => get_call(concat("/api/users/", id.as_str())),
            UsersCmd::Update { id, username, password, role } => {
                let mut f = no_fields();
                push_opt_str_field(&mut f, "username", username);
                push_opt_str_field(&mut f, "password", password);
                push_opt_str_field(&mut f, "role", role);
                post_call(concat("/api/users/", id.as_str()), object(f))
            },
            UsersCmd::Delete { id } => delete_call(concat("/api/users/", id.as_str())),
            UsersCmd::Websites { id, .. } => get_call(
                concat3("/api/users/", id.as_str(), "/websites"),
            ),
            UsersCmd::Teams { id, .. } => get_call(concat3("/api/users/", id.as_str(), "/teams")),
        }
    }

    /// What the command shows for a successful reply.
    pub fn render(&self, data: Json) -> (v: Vec<Output>)
        ensures
            outputs_view(v@) == self.display(data@),
    {
        match self {
            UsersCmd::Me { json } => {
                let labels: &[&str] = &["ID:       ", "Username: ", "Role:     ", "Admin:    ", "Created:  "];
                let keys: &[&str] = &["id", "username", "role", "isAdmin", "createdAt"];
                assert(strs_view(labels@) =~= seq![
                    "ID:       "@,
                    "Username: "@,
                    "Role:     "@,
                    "Admin:    "@,
                    "Created:  "@,
                ]);
                assert(strs_view(keys@) =~= seq![
                    "id"@,
                    "username"@,
                    "role"@,
                    "isAdmin"@,
                    "createdAt"@,
                ]);
                show_details(data, *json, labels, keys)
            },
            UsersCmd::MyTeams { json } => {
                let headers: &[&str] = &["ID", "NAME", "ROLE"];
                let keys: &[&str] = &["id", "name", "role"];
                assert(strs_view(headers@) =~= seq!["ID"@, "NAME"@, "ROLE"@]);
                assert(strs_view(keys@) =~= seq!["id"@, "name"@, "role"@]);
                show_listing(data, *json, ListSource::Array, headers, keys)
            },
            UsersCmd::MyWebsites { json, .. } => {
                let headers: &[&str] = &["ID", "NAME", "DOMAIN"];
                let keys: &[&str] = &["id", "name", "domain"];
                assert(strs_view(headers@) =~= seq!["ID"@, "NAME"@, "DOMAIN"@]);
                assert(strs_view(keys@) =~= seq!["id"@, "name"@, "domain"@]);
                show_listing(data, *json, ListSource::DataOrArray, headers, keys)
            },
            UsersCmd::Create { .. } => show_created(data, "User created: "),
            UsersCmd::Get { json, .. } => {
                let labels: &[&str] = &["ID:       ", "Username: ", "Role:     ", "Created:  "];
                let keys: &[&str] = &["id", "username", "role", "createdAt"];
                assert(strs_view(labels@) =~= seq![
                    "ID:       "@,
                    "Username: "@,
                    "Role:     "@,
                    "Created:  "@,
                ]);
                assert(strs_view(keys@) =~= seq!["id"@, "username"@, "role"@, "createdAt"@]);
                show_details(data, *json, labels, keys)
            },
            UsersCmd::Update { .. } => show_changed(data, "User updated."),
            UsersCmd::Delete { .. } => show_success("User deleted."),
            UsersCmd::Websites { .. } => show_json(data),
            UsersCmd::Teams { .. } => show_json(data),
        }
    }

    /// What the command shows for the result of its call.
    pub fn outcome(&self, result: Result<Json, ApiError>) -> (v: Vec<Output>)
        ensures
            match result {
                Ok(data) => outputs_view(v@) == self.display(data@),
                Err(e) => outputs_view(v@) == error_outputs(""@, e@),
            },
    {
        match result {
            Ok(data) => self.render(data),
            Err(e) => show_error("", &e),
        }
    }
}

impl UsersCmd {
    /// Whether the raw JSON reply was asked for (`--json`).
    pub open spec fn json_requested(&self) -> bool {
        match self {
            UsersCmd::Me { json, .. } => *json,
            UsersCmd::MyTeams { json, .. } => *json,
            UsersCmd::MyWebsites { json, .. } => *json,
            UsersCmd::Get { json, .. } => *json,
            UsersCmd::Websites { json, .. } => *json,
            UsersCmd::Teams { json, .. } => *json,
            _ => false,
        }
    }
}

/// With `--json`, the command shows the reply exactly as it came.
pub proof fn lemma_json_shows_reply(cmd: UsersCmd, data: JsonValue)
    requires
        cmd.json_requested(),
    ensures
        cmd.display(data) == seq![OutputView::Json(data)],
{
}

/// The calls sent: the current user's data by GET under `/api/me` (team
/// websites only when asked for), users by their own path; creating posts
/// the user name, password and role, an update posts only the given
/// fields, and deleting goes by DELETE.
pub proof fn lemma_users_calls(cmd: UsersCmd)
    ensures
        match cmd {
            UsersCmd::Me { .. } => cmd.request() == (ApiCallView {
                method: Method::Get,
                path: "/api/me"@,
                query: Seq::empty(),
                body: None,
            }),
            UsersCmd::MyTeams { .. } => cmd.request() == (ApiCallView {
                method: Method::Get,
                path: "/api/me/teams"@,
                query: Seq::empty(),
                body: None,
            }),
            UsersCmd::MyWebsites { include_teams, .. } => cmd.request() == (ApiCallView {
                method: Method::Get,
                path: "/api/me/websites"@,
                query: if include_teams {
                    seq![("includeTeams"@, "true"@)]
                } else {
                    Seq::empty()
                },
                body: None,
            }),
            UsersCmd::Create { username, password, role } => cmd.request() == (ApiCallView {
                method: Method::Post,
                path: "/api/users"@,
                query: Seq::empty(),
                body: Some(JsonValue::Object(seq![("username"@, JsonValue::String(username@)), ("password"@, JsonValue::String(password@)), ("role"@, JsonValue::String(role@))])),
            }),
            UsersCmd::Get { id, .. } => cmd.request() == (ApiCallView {
                method: Method::Get,
                path: "/api/users/"@ + id@,
                query: Seq::empty(),
                body: None,
            }),
            UsersCmd::Update { id, username, password, role } => cmd.request() == (ApiCallView {
                method: Method::Post,
                path: "/api/users/"@ + id@,
                query: Seq::empty(),
                body: Some(JsonValue::Object(match username {
                    Some(t) => seq![("username"@, JsonValue::String(t@))],
                    None => Seq::empty(),
                } + match password {
                    Some(t) => seq![("password"@, JsonValue::String(t@))],
                    None => Seq::empty(),
                } + match role {
                    Some(t) => seq![("role"@, JsonValue::String(t@))],
                    None => Seq::empty(),
                })),
            }),
            UsersCmd::Delete { id } => cmd.request() == (ApiCallView {
                method: Method::Delete,
                path: "/api/users/"@ + id@,
                query: Seq::empty(),
                body: None,
            }),
            UsersCmd::Websites { id, .. } => cmd.request() == (ApiCallView {
                method: Method::Get,
                path: "/api/users/"@ + id@ + "/websites"@,
                query: Seq::empty(),
                body: None,
            }),
            UsersCmd::Teams { id, .. } => cmd.request() == (ApiCallView {
                method: Method::Get,
                path: "/api/users/"@ + id@ + "/teams"@,
                query: Seq::empty(),
                body: None,
            }),
        },
{
    match cmd {
        UsersCmd::Update { username, password, role, .. } => {
            let a = match username {
                    Some(t) => seq![("username"@, JsonValue::String(t@))],
                    None => Seq::empty(),
                };
            assert(opt_field(Seq::empty(), "username"@, opt_str(username)) =~= a);
            let b = a + match password {
                    Some(t) => seq![("password"@, JsonValue::String(t@))],
                    None => Seq::empty(),
                };
            assert(opt_field(a, "password"@, opt_str(password)) =~= b);
            assert(opt_field(b, "role"@, opt_str(role)) =~= b + match role {
                    Some(t) => seq![("role"@, JsonValue::String(t@))],
                    None => Seq::empty(),
                });
        },
        _ => {},
    }
}

/// Without `--json`, the current user and a user are labelled lines of
/// their fields, the current user's teams and websites are tables of the
/// items found, each column holding the field its header names; a created
/// user is announced by its `id`.
pub proof fn lemma_users_shown(cmd: UsersCmd, data: JsonValue)
    requires
        !cmd.json_requested(),
    ensures
        cmd is Me ==> shows_fields(
            cmd.display(data),
            data,
            seq![
                ("ID:       "@, "id"@),
                ("Username: "@, "username"@),
                ("Role:     "@, "role"@),
                ("Admin:    "@, "isAdmin"@),
                ("Created:  "@, "createdAt"@),
            ],
        ),
        cmd is Get ==> shows_fields(
            cmd.display(data),
            data,
            seq![("ID:       "@, "id"@), ("Username: "@, "username"@), ("Role:     "@, "role"@), ("Created:  "@, "createdAt"@)],
        ),
        cmd is MyTeams ==> match list_items(data, ListSource::Array) {
            Some(items) => shows_columns(
                cmd.display(data),
                items,
                seq![("ID"@, "id"@), ("NAME"@, "name"@), ("ROLE"@, "role"@)],
            ),
            None => cmd.display(data) == seq![OutputView::Json(data)],
        },
        cmd is MyWebsites ==> match list_items(data, ListSource::DataOrArray) {
            Some(items) => shows_columns(
                cmd.display(data),
                items,
                seq![("ID"@, "id"@), ("NAME"@, "name"@), ("DOMAIN"@, "domain"@)],
            ),
            None => cmd.display(data) == seq![OutputView::Json(data)],
        },
        cmd is Create ==> cmd.display(data) == seq![
            OutputView::Success("User created: "@ + val_text(data, "id"@)),
            OutputView::Json(data),
        ],
{
    let me = seq![
        ("ID:       "@, "id"@),
        ("Username: "@, "username"@),
        ("Role:     "@, "role"@),
        ("Admin:    "@, "isAdmin"@),
        ("Created:  "@, "createdAt"@),
    ];
    let one = seq![("ID:       "@, "id"@), ("Username: "@, "username"@), ("Role:     "@, "role"@), ("Created:  "@, "createdAt"@)];
    let t = seq![("ID"@, "id"@), ("NAME"@, "name"@), ("ROLE"@, "role"@)];
    let w = seq![("ID"@, "id"@), ("NAME"@, "name"@), ("DOMAIN"@, "domain"@)];
    assert(column_headers(me) =~= seq!["ID:       "@, "Username: "@, "Role:     "@, "Admin:    "@, "Created:  "@]);
    assert(column_keys(me) =~= seq!["id"@, "username"@, "role"@, "isAdmin"@, "createdAt"@]);
    assert(column_headers(one) =~= seq!["ID:       "@, "Username: "@, "Role:     "@, "Created:  "@]);
    assert(column_keys(one) =~= seq!["id"@, "username"@, "role"@, "createdAt"@]);
    assert(column_headers(t) =~= seq!["ID"@, "NAME"@, "ROLE"@]);
    assert(column_keys(t) =~= seq!["id"@, "name"@, "role"@]);
    assert(column_headers(w) =~= seq!["ID"@, "NAME"@, "DOMAIN"@]);
    assert(column_keys(w) =~= seq!["id"@, "name"@, "domain"@]);
    lemma_details_fields(data, me);
    lemma_details_fields(data, one);
    if list_items(data, ListSource::Array) is Some {
        lemma_listing_columns(data, ListSource::Array, t);
    }
    if list_items(data, ListSource::DataOrArray) is Some {
        lemma_listing_columns(data, ListSource::DataOrArray, w);
    }
}

} // verus!

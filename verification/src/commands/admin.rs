//! Admin listings of all users, websites and teams.
use vstd::prelude::*;
use crate::api::client::ApiError;
use crate::api::http::{pairs_view, ApiCall, ApiCallView, Method};
use crate::commands::{get_query_call, get_query_of, page_query, page_query_of};
use crate::config::opt_str;
use crate::text::decimal;
use crate::json::{Json, JsonValue};
use crate::output::{
    column_headers, column_keys, lemma_details_fields, lemma_listing_columns, list_items,
    shows_columns, shows_fields, val_text, error_outputs, listing, outputs_view, show_error, show_listing, strs_view, ListSource,
    Output, OutputView,
};

verus! {

/// Admin operations (self-hosted only).
pub enum AdminCmd {
    /// List all users.
    Users { search: Option<String>, page: u32, json: bool },
    /// List all websites.
    Websites { search: Option<String>, page: u32, json: bool },
    /// List all teams.
    Teams { search: Option<String>, page: u32, json: bool },
}

impl AdminCmd {
    /// The API call of the command.
    pub open spec fn request(&self) -> ApiCallView {
        match self {
            AdminCmd::Users { search, page, .. } => get_query_of(
                "/api/admin/users"@,
                page_query_of(*page, opt_str(*search)),
            ),
            AdminCmd::Websites { search, page, .. } => get_query_of(
                "/api/admin/websites"@,
                page_query_of(*page, opt_str(*search)),
            ),
            AdminCmd::Teams { search, page, .. } => get_query_of(
                "/api/admin/teams"@,
                page_query_of(*page, opt_str(*search)),
            ),
        }
    }

    /// What the command shows for a successful reply.
    pub open spec fn display(&self, data: JsonValue) -> Seq<OutputView> {
        match self {
            AdminCmd::Users { json, .. } => listing(
                data,
                *json,
                ListSource::DataOrArray,
                seq!["ID"@, "USERNAME"@, "ROLE"@, "CREATED"@],
                seq!["id"@, "username"@, "role"@, "createdAt"@],
            ),
            AdminCmd::Websites { json, .. } => listing(
                data,
                *json,
                ListSource::DataOrArray,
                seq!["ID"@, "NAME"@, "DOMAIN"@, "CREATED"@],
                seq!["id"@, "name"@, "domain"@, "createdAt"@],
            ),
            AdminCmd::Teams { json, .. } => listing(
                data,
                *json,
                ListSource::DataOrArray,
                seq!["ID"@, "NAME"@, "ACCESS CODE"@, "CREATED"@],
                seq!["id"@, "name"@, "accessCode"@, "createdAt"@],
            ),
        }
    }

    /// The API call of the command.
    pub fn call(&self) -> (c: ApiCall)
        ensures
            c@ == self.request(),
    {
        match self {
            AdminCmd::Users { search, page, .. } => get_query_call(
                "/api/admin/users".to_owned(),
                page_query(*page, search),
            ),
            AdminCmd::Websites { search, page, .. } => get_query_call(
                "/api/admin/websites".to_owned(),
                page_query(*page, search),
            ),
            AdminCmd::Teams { search, page, .. } => get_query_call(
                "/api/admin/teams".to_owned(),
                page_query(*page, search),
            ),
        }
    }

    /// What the command shows for a successful reply.
    pub fn render(&self, data: Json) -> (v: Vec<Output>)
        ensures
            outputs_view(v@) == self.display(data@),
    {
        match self {
            AdminCmd::Users { json, .. } => {
                let headers: &[&str] = &["ID", "USERNAME", "ROLE", "CREATED"];
                let keys: &[&str] = &["id", "username", "role", "createdAt"];
                assert(strs_view(headers@) =~= seq!["ID"@, "USERNAME"@, "ROLE"@, "CREATED"@]);
                assert(strs_view(keys@) =~= seq!["id"@, "username"@, "role"@, "createdAt"@]);
                show_listing(data, *json, ListSource::DataOrArray, headers, keys)
            },
            AdminCmd::Websites { json, .. } => {
                let headers: &[&str] = &["ID", "NAME", "DOMAIN", "CREATED"];
                let keys: &[&str] = &["id", "name", "domain", "createdAt"];
                assert(strs_view(headers@) =~= seq!["ID"@, "NAME"@, "DOMAIN"@, "CREATED"@]);
                assert(strs_view(keys@) =~= seq!["id"@, "name"@, "domain"@, "createdAt"@]);
                show_listing(data, *json, ListSource::DataOrArray, headers, keys)
            },
            AdminCmd::Teams { json, .. } => {
                let headers: &[&str] = &["ID", "NAME", "ACCESS CODE", "CREATED"];
                let keys: &[&str] = &["id", "name", "accessCode", "createdAt"];
                assert(strs_view(headers@) =~= seq!["ID"@, "NAME"@, "ACCESS CODE"@, "CREATED"@]);
                assert(strs_view(keys@) =~= seq!["id"@, "name"@, "accessCode"@, "createdAt"@]);
                show_listing(data, *json, ListSource::DataOrArray, headers, keys)
            },
        }
    }

    /// What the command shows for the result of its call: the display of a
    /// successful reply, or the error message.
    pub fn outcome(&self, result: Result<Json, ApiError>) -> (v: Vec<Output>)
        ensures
            match result {
                Ok(data) => outputs_view(v@) == self.display(data@),
                Err(e) => outputs_view(v@) == error_outputs(""@, e@),
            },
    {
        match result {
            Ok(data) => self.render(data),
            Err(e) => show_error("", &e),
        }
    }
}

impl AdminCmd {
    /// Whether the raw JSON reply was asked for (`--json`).
    pub open spec fn json_requested(&self) -> bool {
        match self {
            AdminCmd::Users { json, .. } => *json,
            AdminCmd::Websites { json, .. } => *json,
            AdminCmd::Teams { json, .. } => *json,
        }
    }
}

/// With `--json`, the command shows the reply exactly as it came.
pub proof fn lemma_json_shows_reply(cmd: AdminCmd, data: JsonValue)
    requires
        cmd.json_requested(),
    ensures
        cmd.display(data) == seq![OutputView::Json(data)],
{
}

/// The calls sent: each admin listing is a GET of its collection under `/api/admin`, asking for the page, then the search text when given.
pub proof fn lemma_admin_calls(cmd: AdminCmd)
    ensures
        match cmd {
            AdminCmd::Users { search, page, .. } => cmd.request() == (ApiCallView { method: Method::Get, path: "/api/admin/users"@, query: seq![("page"@, decimal(page as nat))] + (match search { Some(t) => seq![("search"@, t@)], None => Seq::<(Seq<char>, Seq<char>)>::empty() }), body: None }),
            AdminCmd::Websites { search, page, .. } => cmd.request() == (ApiCallView { method: Method::Get, path: "/api/admin/websites"@, query: seq![("page"@, decimal(page as nat))] + (match search { Some(t) => seq![("search"@, t@)], None => Seq::<(Seq<char>, Seq<char>)>::empty() }), body: None }),
            AdminCmd::Teams { search, page, .. } => cmd.request() == (ApiCallView { method: Method::Get, path: "/api/admin/teams"@, query: seq![("page"@, decimal(page as nat))] + (match search { Some(t) => seq![("search"@, t@)], None => Seq::<(Seq<char>, Seq<char>)>::empty() }), body: None }),
        },
{
    match cmd {
        AdminCmd::Users { search, page, .. } => {
            assert(page_query_of(page, opt_str(search)) =~= seq![("page"@, decimal(page as nat))] + (match search { Some(t) => seq![("search"@, t@)], None => Seq::<(Seq<char>, Seq<char>)>::empty() }));
        },
        AdminCmd::Websites { search, page, .. } => {
            assert(page_query_of(page, opt_str(search)) =~= seq![("page"@, decimal(page as nat))] + (match search { Some(t) => seq![("search"@, t@)], None => Seq::<(Seq<char>, Seq<char>)>::empty() }));
        },
        AdminCmd::Teams { search, page, .. } => {
            assert(page_query_of(page, opt_str(search)) =~= seq![("page"@, decimal(page as nat))] + (match search { Some(t) => seq![("search"@, t@)], None => Seq::<(Seq<char>, Seq<char>)>::empty() }));
        },
        _ => {},
    }
}

/// Without `--json`, each admin listing is a table of the items found, each column holding the field its header names; a reply without items is shown as it came.
pub proof fn lemma_admin_shown(cmd: AdminCmd, data: JsonValue)
    requires
        !cmd.json_requested(),
    ensures
        cmd is Users ==> match list_items(data, ListSource::DataOrArray) {
            Some(items) => shows_columns(cmd.display(data), items, seq![("ID"@, "id"@), ("USERNAME"@, "username"@), ("ROLE"@, "role"@), ("CREATED"@, "createdAt"@)]),
            None => cmd.display(data) == seq![OutputView::Json(data)],
        },
        cmd is Websites ==> match list_items(data, ListSource::DataOrArray) {
            Some(items) => shows_columns(cmd.display(data), items, seq![("ID"@, "id"@), ("NAME"@, "name"@), ("DOMAIN"@, "domain"@), ("CREATED"@, "createdAt"@)]),
            None => cmd.display(data) == seq![OutputView::Json(data)],
        },
        cmd is Teams ==> match list_items(data, ListSource::DataOrArray) {
            Some(items) => shows_columns(cmd.display(data), items, seq![("ID"@, "id"@), ("NAME"@, "name"@), ("ACCESS CODE"@, "accessCode"@), ("CREATED"@, "createdAt"@)]),
            None => cmd.display(data) == seq![OutputView::Json(data)],
        },
{
    {
        let c = seq![("ID"@, "id"@), ("USERNAME"@, "username"@), ("ROLE"@, "role"@), ("CREATED"@, "createdAt"@)];
        assert(column_headers(c) =~= seq!["ID"@, "USERNAME"@, "ROLE"@, "CREATED"@]);
        assert(column_keys(c) =~= seq!["id"@, "username"@, "role"@, "createdAt"@]);
        if list_items(data, ListSource::DataOrArray) is Some {
            lemma_listing_columns(data, ListSource::DataOrArray, c);
        }
    }
    {
        let c = seq![("ID"@, "id"@), ("NAME"@, "name"@), ("DOMAIN"@, "domain"@), ("CREATED"@, "createdAt"@)];
        assert(column_headers(c) =~= seq!["ID"@, "NAME"@, "DOMAIN"@, "CREATED"@]);
        assert(column_keys(c) =~= seq!["id"@, "name"@, "domain"@, "createdAt"@]);
        if list_items(data, ListSource::DataOrArray) is Some {
            lemma_listing_columns(data, ListSource::DataOrArray, c);
        }
    }
    {
        let c = seq![("ID"@, "id"@), ("NAME"@, "name"@), ("ACCESS CODE"@, "accessCode"@), ("CREATED"@, "createdAt"@)];
        assert(column_headers(c) =~= seq!["ID"@, "NAME"@, "ACCESS CODE"@, "CREATED"@]);
        assert(column_keys(c) =~= seq!["id"@, "name"@, "accessCode"@, "createdAt"@]);
        if list_items(data, ListSource::DataOrArray) is Some {
            lemma_listing_columns(data, ListSource::DataOrArray, c);
        }
    }
}

} // verus!

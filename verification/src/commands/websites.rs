//! Managing websites.
use vstd::prelude::*;
use crate::api::client::ApiError;
use crate::api::http::{pairs_view, ApiCall, ApiCallView, Method};
use crate::commands::{
    delete_call, delete_of, get_call, get_of, get_query_call, get_query_of, no_fields, object,
    opt_field, page_query, page_query_of, post_call, post_of, push_field, push_opt_str_field,
    push_pair,
};
use crate::config::opt_str;
use crate::json::{fields_view, lemma_field_get_at, lemma_field_get_none, Json, JsonValue};
use crate::output::{
    column_headers, column_keys, lemma_details_fields, lemma_listing_columns, list_items,
    shows_columns, shows_fields, val_text, changed, created, details, error_outputs, listing, outputs_view, show_changed, show_created,
    show_details, show_error, show_listing, show_success, strs_view, ListSource, Output,
    OutputView,
};
use crate::text::{concat, concat3, decimal, owned, same_text};

verus! {

/// Manage websites.
#[allow(inconsistent_fields)]
pub enum WebsitesCmd {
    /// List all websites.
    List { search: Option<String>, include_teams: bool, page: u32, json: bool },
    /// Get website details.
    Get { id: String, json: bool },
    /// Create a new website.
    Create { name: String, domain: String, share_id: Option<String>, team_id: Option<String> },
    /// Update a website; a share id of "null" unshares it.
    Update { id: String, name: Option<String>, domain: Option<String>, share_id: Option<String> },
    /// Delete a website.
    Delete { id: String },
    /// Reset all data of a website.
    Reset { id: String },
}

/// The parameters of the website listing.
pub open spec fn list_query_of(page: u32, search: Option<Seq<char>>, include_teams: bool) -> Seq<
    (Seq<char>, Seq<char>),
> {
    let q = page_query_of(page, search);
    if include_teams {
        q.push(("includeTeams"@, "true"@))
    } else {
        q
    }
}

/// The share field of an update: the text "null" clears the share id.
pub open spec fn share_field(fields: Seq<(Seq<char>, JsonValue)>, share: Option<Seq<char>>) -> Seq<
    (Seq<char>, JsonValue),
> {
    match share {
        None => fields,
        Some(s) => if s == "null"@ {
            fields.push(("shareId"@, JsonValue::Null))
        } else {
            fields.push(("shareId"@, JsonValue::String(s)))
        },
    }
}

/// The body that creates a website.
pub open spec fn create_body(
    name: Seq<char>,
    domain: Seq<char>,
    share: Option<Seq<char>>,
    team: Option<Seq<char>>,
) -> JsonValue {
    JsonValue::Object(
        opt_field(
            opt_field(
                seq![("name"@, JsonValue::String(name)), ("domain"@, JsonValue::String(domain))],
                "shareId"@,
                share,
            ),
            "teamId"@,
            team,
        ),
    )
}

/// The body that updates a website: only the given fields.
pub open spec fn update_body(
    name: Option<Seq<char>>,
    domain: Option<Seq<char>>,
    share: Option<Seq<char>>,
) -> JsonValue {
    JsonValue::Object(
        share_field(opt_field(opt_field(Seq::empty(), "name"@, name), "domain"@, domain), share),
    )
}

impl WebsitesCmd {
    /// The API call of the command.
    pub open spec fn request(&self) -> ApiCallView {
        match self {
            WebsitesCmd::List { search, include_teams, page, .. } => get_query_of(
                "/api/websites"@,
                list_query_of(*page, opt_str(*search), *include_teams),
            ),
            WebsitesCmd::Get { id, .. } => get_of("/api/websites/"@ + id@),
            WebsitesCmd::Create { name, domain, share_id, team_id } => post_of(
                "/api/websites"@,
                create_body(name@, domain@, opt_str(*share_id), opt_str(*team_id)),
            ),
            WebsitesCmd::Update { id, name, domain, share_id } => post_of(
                "/api/websites/"@ + id@,
                update_body(opt_str(*name), opt_str(*domain), opt_str(*share_id)),
            ),
            WebsitesCmd::Delete { id } => delete_of("/api/websites/"@ + id@),
            WebsitesCmd::Reset { id } => post_of(
                "/api/websites/"@ + id@ + "/reset"@,
                JsonValue::Object(Seq::empty()),
            ),
        }
    }

    /// What the command shows for a successful reply.
    pub open spec fn display(&self, data: JsonValue) -> Seq<OutputView> {
        match self {
            WebsitesCmd::List { json, .. } => listing(
                data,
                *json,
                ListSource::DataOrArray,
                seq!["ID"@, "NAME"@, "DOMAIN"@, "CREATED"@],
                seq!["id"@, "name"@, "domain"@, "createdAt"@],
            ),
            WebsitesCmd::Get { json, .. } => details(
                data,
                *json,
                seq!["ID:      "@, "Name:    "@, "Domain:  "@, "Share:   "@, "Created: "@],
                seq!["id"@, "name"@, "domain"@, "shareId"@, "createdAt"@],
            ),
            WebsitesCmd::Create { .. } => created(data, "Website created: "@),
            WebsitesCmd::Update { .. } => changed(data, "Website updated."@),
            WebsitesCmd::Delete { .. } => seq![OutputView::Success("Website deleted."@)],
            WebsitesCmd::Reset { .. } => seq![OutputView::Success("Website data reset."@)],
        }
    }

    /// The API call of the command.
    pub fn call(&self) -> (c: ApiCall)
        ensures
            c@ == self.request(),
    {
        match self {
            WebsitesCmd::List { search, include_teams, page, .. } => {
                let mut q = page_query(*page, search);
                if *include_teams {
                    push_pair(&mut q, "includeTeams", owned("true"));
                }
                assert(pairs_view(q@) =~= list_query_of(*page, opt_str(*search), *include_teams));
                let c = get_query_call(owned("/api/websites"), q);
                c
            },
            WebsitesCmd::Get { id, .. } => get_call(concat("/api/websites/", id.as_str())),
            WebsitesCmd::Create { name, domain, share_id, team_id } => {
                let mut f = no_fields();
                push_field(&mut f, "name", Json::String(name.clone()));
                push_field(&mut f, "domain", Json::String(domain.clone()));
                assert(fields_view(f@) =~= seq![
                    ("name"@, JsonValue::String(name@)),
                    ("domain"@, JsonValue::String(domain@)),
                ]);
                push_opt_str_field(&mut f, "shareId", share_id);
                push_opt_str_field(&mut f, "teamId", team_id);
                post_call(owned("/api/websites"), object(f))
            },
            WebsitesCmd::Update { id, name, domain, share_id } => {
                let mut f = no_fields();
                push_opt_str_field(&mut f, "name", name);
                push_opt_str_field(&mut f, "domain", domain);
                match share_id {
                    Some(s) => {
                        if same_text(s.as_str(), "null") {
                            push_field(&mut f, "shareId", Json::Null);
                        } else {
                            push_field(&mut f, "shareId", Json::String(s.clone()));
                        }
                    },
                    None => {},
                }
                post_call(concat("/api/websites/", id.as_str()), object(f))
            },
            WebsitesCmd::Delete { id } => delete_call(concat("/api/websites/", id.as_str())),
            WebsitesCmd::Reset { id } => {
                let f = no_fields();
                post_call(concat3("/api/websites/", id.as_str(), "/reset"), object(f))
            },
        }
    }

    /// What the command shows for a successful reply.
    pub fn render(&self, data: Json) -> (v: Vec<Output>)
        ensures
            outputs_view(v@) == self.display(data@),
    {
        match self {
            WebsitesCmd::List { json, .. } => {
                let headers: &[&str] = &["ID", "NAME", "DOMAIN", "CREATED"];
                let keys: &[&str] = &["id", "name", "domain", "createdAt"];
                assert(strs_view(headers@) =~= seq!["ID"@, "NAME"@, "DOMAIN"@, "CREATED"@]);
                assert(strs_view(keys@) =~= seq!["id"@, "name"@, "domain"@, "createdAt"@]);
                show_listing(data, *json, ListSource::DataOrArray, headers, keys)
            },
            WebsitesCmd::Get { json, .. } => {
                let labels: &[&str] = &["ID:      ", "Name:    ", "Domain:  ", "Share:   ", "Created: "];
                let keys: &[&str] = &["id", "name", "domain", "shareId", "createdAt"];
                assert(strs_view(labels@) =~= seq![
                    "ID:      "@,
                    "Name:    "@,
                    "Domain:  "@,
                    "Share:   "@,
                    "Created: "@,
                ]);
                assert(strs_view(keys@) =~= seq!["id"@, "name"@, "domain"@, "shareId"@, "createdAt"@]);
                show_details(data, *json, labels, keys)
            },
            WebsitesCmd::Create { .. } => show_created(data, "Website created: "),
            WebsitesCmd::Update { .. } => show_changed(data, "Website updated."),
            WebsitesCmd::Delete { .. } => show_success("Website deleted."),
            WebsitesCmd::Reset { .. } => show_success("Website data reset."),
        }
    }

    /// What the command shows for the result of its call.
    pub fn outcome(&self, result: Result<Json, ApiError>) -> (v: Vec<Output>)
        ensures
            match result {
                Ok(data) => outputs_view(v@) == self.display(data@),
                Err(e) => outputs_view(v@) == error_outputs(""@, e@),
            },
    {
        match result {
            Ok(data) => self.render(data),
            Err(e) => show_error("", &e),
        }
    }
}

impl WebsitesCmd {
    /// Whether the raw JSON reply was asked for (`--json`).
    pub open spec fn json_requested(&self) -> bool {
        match self {
            WebsitesCmd::List { json, .. } => *json,
            WebsitesCmd::Get { json, .. } => *json,
            _ => false,
        }
    }
}

/// With `--json`, the command shows the reply exactly as it came.
pub proof fn lemma_json_shows_reply(cmd: WebsitesCmd, data: JsonValue)
    requires
        cmd.json_requested(),
    ensures
        cmd.display(data) == seq![OutputView::Json(data)],
{
}

/// The calls sent. Listing asks for the page, then the search text and
/// team websites when wanted; creating posts the name and domain, then the
/// share id and team id when given; updating posts only the given fields,
/// with the share id "null" sent as JSON null; deleting and resetting go to
/// the website's own path.
pub proof fn lemma_websites_calls(cmd: WebsitesCmd)
    ensures
        match cmd {
            WebsitesCmd::List { search, include_teams, page, .. } => cmd.request() == (ApiCallView {
                method: Method::Get,
                path: "/api/websites"@,
                query: seq![("page"@, decimal(page as nat))] + match search {
                    Some(t) => seq![("search"@, t@)],
                    None => Seq::empty(),
                } + if include_teams {
                    seq![("includeTeams"@, "true"@)]
                } else {
                    Seq::empty()
                },
                body: None,
            }),
            WebsitesCmd::Get { id, .. } => cmd.request() == (ApiCallView {
                method: Method::Get,
                path: "/api/websites/"@ + id@,
                query: Seq::empty(),
                body: None,
            }),
            WebsitesCmd::Create { name, domain, share_id, team_id } => cmd.request() == (
            ApiCallView {
                method: Method::Post,
                path: "/api/websites"@,
                query: Seq::empty(),
                body: Some(
                    JsonValue::Object(
                        seq![
                            ("name"@, JsonValue::String(name@)),
                            ("domain"@, JsonValue::String(domain@)),
                        ] + match share_id {
                            Some(t) => seq![("shareId"@, JsonValue::String(t@))],
                            None => Seq::empty(),
                        } + match team_id {
                            Some(t) => seq![("teamId"@, JsonValue::String(t@))],
                            None => Seq::empty(),
                        },
                    ),
                ),
            }),
            WebsitesCmd::Update { id, name, domain, share_id } => cmd.request() == (ApiCallView {
                method: Method::Post,
                path: "/api/websites/"@ + id@,
                query: Seq::empty(),
                body: Some(
                    JsonValue::Object(
                        match name {
                            Some(t) => seq![("name"@, JsonValue::String(t@))],
                            None => Seq::empty(),
                        } + match domain {
                            Some(t) => seq![("domain"@, JsonValue::String(t@))],
                            None => Seq::empty(),
                        } + match share_id {
                            Some(t) => if t@ == "null"@ {
                                seq![("shareId"@, JsonValue::Null)]
                            } else {
                                seq![("shareId"@, JsonValue::String(t@))]
                            },
                            None => Seq::empty(),
                        },
                    ),
                ),
            }),
            WebsitesCmd::Delete { id } => cmd.request() == (ApiCallView {
                method: Method::Delete,
                path: "/api/websites/"@ + id@,
                query: Seq::empty(),
                body: None,
            }),
            WebsitesCmd::Reset { id } => cmd.request() == (ApiCallView {
                method: Method::Post,
                path: "/api/websites/"@ + id@ + "/reset"@,
                query: Seq::empty(),
                body: Some(JsonValue::Object(Seq::empty())),
            }),
        },
{
    let e = Seq::<(Seq<char>, JsonValue)>::empty();
    match cmd {
        WebsitesCmd::List { search, include_teams, .. } => {
            let q = cmd.request().query;
            let a = seq![q[0]] + match search {
                Some(t) => seq![("search"@, t@)],
                None => Seq::empty(),
            };
            assert(page_query_of(cmd->List_page, opt_str(search)) =~= a);
            assert(q =~= a + if include_teams {
                seq![("includeTeams"@, "true"@)]
            } else {
                Seq::empty()
            });
        },
        WebsitesCmd::Create { name, domain, share_id, team_id } => {
            let base = seq![("name"@, JsonValue::String(name@)), ("domain"@, JsonValue::String(domain@))];
            let a = base + match share_id {
                Some(t) => seq![("shareId"@, JsonValue::String(t@))],
                None => e,
            };
            assert(opt_field(base, "shareId"@, opt_str(share_id)) =~= a);
            assert(opt_field(a, "teamId"@, opt_str(team_id)) =~= a + match team_id {
                Some(t) => seq![("teamId"@, JsonValue::String(t@))],
                None => e,
            });
        },
        WebsitesCmd::Update { name, domain, share_id, .. } => {
            let a = match name {
                Some(t) => seq![("name"@, JsonValue::String(t@))],
                None => e,
            };
            assert(opt_field(e, "name"@, opt_str(name)) =~= a);
            let b = a + match domain {
                Some(t) => seq![("domain"@, JsonValue::String(t@))],
                None => e,
            };
            assert(opt_field(a, "domain"@, opt_str(domain)) =~= b);
            assert(share_field(b, opt_str(share_id)) =~= b + match share_id {
                Some(t) => if t@ == "null"@ {
                    seq![("shareId"@, JsonValue::Null)]
                } else {
                    seq![("shareId"@, JsonValue::String(t@))]
                },
                None => e,
            });
        },
        _ => {},
    }
}

/// A created website belongs to the team given, and to no team when none
/// is given; its name and domain are the ones given.
pub proof fn lemma_website_create_fields(cmd: WebsitesCmd)
    requires
        cmd is Create,
    ensures
        cmd.request().body matches Some(b) && b.get("name"@) == Some(
            JsonValue::String(cmd->Create_name@),
        ) && b.get("domain"@) == Some(JsonValue::String(cmd->Create_domain@)) && b.get("teamId"@)
            == match cmd->Create_team_id {
            Some(t) => Some(JsonValue::String(t@)),
            None => None,
        } && b.get("shareId"@) == match cmd->Create_share_id {
            Some(t) => Some(JsonValue::String(t@)),
            None => None,
        },
{
    lemma_websites_calls(cmd);
    reveal_strlit("name");
    reveal_strlit("domain");
    reveal_strlit("shareId");
    reveal_strlit("teamId");
    let f = cmd.request().body->Some_0->Object_0;
    assert(f[0].0 == "name"@);
    assert(f[1].0 == "domain"@);
    lemma_field_get_at(f, "name"@, 0);
    lemma_field_get_at(f, "domain"@, 1);
    match cmd->Create_share_id {
        Some(t) => {
            lemma_field_get_at(f, "shareId"@, 2);
        },
        None => {
            assert forall|j: int| 0 <= j < f.len() implies #[trigger] f[j].0 != "shareId"@ by {
                assert(f[j].0 == "name"@ || f[j].0 == "domain"@ || f[j].0 == "teamId"@);
                assert(f[j].0.len() != "shareId"@.len());
            }
            lemma_field_get_none(f, "shareId"@);
        },
    }
    match cmd->Create_team_id {
        Some(t) => {
            assert forall|j: int| 0 <= j < f.len() - 1 implies #[trigger] f[j].0 != "teamId"@ by {
                assert(f[j].0 == "name"@ || f[j].0 == "domain"@ || f[j].0 == "shareId"@);
                if f[j].0 == "domain"@ {
                    assert(f[j].0[0] != "teamId"@[0]);
                }
            }
            lemma_field_get_at(f, "teamId"@, f.len() - 1);
        },
        None => {
            assert forall|j: int| 0 <= j < f.len() implies #[trigger] f[j].0 != "teamId"@ by {
                assert(f[j].0 == "name"@ || f[j].0 == "domain"@ || f[j].0 == "shareId"@);
                if f[j].0 == "domain"@ {
                    assert(f[j].0[0] != "teamId"@[0]);
                }
            }
            lemma_field_get_none(f, "teamId"@);
        },
    }
}

/// Without `--json`, the listing is a table of the websites found (`id`,
/// `name`, `domain`, `createdAt` under ID, NAME, DOMAIN, CREATED) and the
/// details are one labelled line per field; a created website is announced
/// by its `id`.
pub proof fn lemma_websites_shown(cmd: WebsitesCmd, data: JsonValue)
    requires
        !cmd.json_requested(),
    ensures
        cmd is List ==> match list_items(data, ListSource::DataOrArray) {
            Some(items) => shows_columns(
                cmd.display(data),
                items,
                seq![("ID"@, "id"@), ("NAME"@, "name"@), ("DOMAIN"@, "domain"@), ("CREATED"@, "createdAt"@)],
            ),
            None => cmd.display(data) == seq![OutputView::Json(data)],
        },
        cmd is Get ==> shows_fields(
            cmd.display(data),
            data,
            seq![
                ("ID:      "@, "id"@),
                ("Name:    "@, "name"@),
                ("Domain:  "@, "domain"@),
                ("Share:   "@, "shareId"@),
                ("Created: "@, "createdAt"@),
            ],
        ),
        cmd is Create ==> cmd.display(data) == seq![
            OutputView::Success("Website created: "@ + val_text(data, "id"@)),
            OutputView::Json(data),
        ],
{
    let cols = seq![("ID"@, "id"@), ("NAME"@, "name"@), ("DOMAIN"@, "domain"@), ("CREATED"@, "createdAt"@)];
    let fields = seq![
        ("ID:      "@, "id"@),
        ("Name:    "@, "name"@),
        ("Domain:  "@, "domain"@),
        ("Share:   "@, "shareId"@),
        ("Created: "@, "createdAt"@),
    ];
    assert(column_headers(cols) =~= seq!["ID"@, "NAME"@, "DOMAIN"@, "CREATED"@]);
    assert(column_keys(cols) =~= seq!["id"@, "name"@, "domain"@, "createdAt"@]);
    assert(column_headers(fields) =~= seq!["ID:      "@, "Name:    "@, "Domain:  "@, "Share:   "@, "Created: "@]);
    assert(column_keys(fields) =~= seq!["id"@, "name"@, "domain"@, "shareId"@, "createdAt"@]);
    lemma_details_fields(data, fields);
    if list_items(data, ListSource::DataOrArray) is Some {
        lemma_listing_columns(data, ListSource::DataOrArray, cols);
    }
}

} // verus!

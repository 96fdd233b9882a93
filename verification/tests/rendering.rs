use umami_cli::api::ApiError;
use umami_cli::commands::auth::{after_login_reply, show_cleared, show_saved, show_status, show_verified};
use umami_cli::commands::events::{send_payload, send_result, send_url, EventsCmd};
use umami_cli::commands::realtime::RealtimeCmd;
use umami_cli::commands::websites::WebsitesCmd;
use umami_cli::config::Config;
use umami_cli::json::{to_text, Json, JsonNumber};
use umami_cli::output::Output;

fn s(t: &str) -> Json {
    Json::String(t.to_string())
}

fn n(v: u64) -> Json {
    Json::Number(JsonNumber::PosInt(v))
}

fn obj(fields: Vec<(&str, Json)>) -> Json {
    Json::Object(fields.into_iter().map(|(k, v)| (k.to_string(), v)).collect())
}

fn line(o: &Output) -> &str {
    match o {
        Output::Line(l) => l.as_str(),
        other => panic!("not a line: {other:?}"),
    }
}

fn realtime_sample() -> Json {
    obj(vec![
        ("countries", obj(vec![("DE", n(3)), ("US", n(9))])),
        ("urls", obj(vec![("/", n(43)), ("/about", n(12))])),
        ("referrers", obj(vec![])),
        ("events", Json::Array(vec![])),
        ("totals", obj(vec![("views", n(55)), ("visitors", n(12)), ("events", n(0)), ("countries", n(2))])),
        ("timestamp", n(1704067200000)),
    ])
}

#[test]
fn realtime_shows_totals_and_top_lists() {
    let cmd = RealtimeCmd::Get { website_id: "web-1".to_string(), json: false };
    let out = cmd.render(realtime_sample());
    let lines: Vec<&str> = out.iter().map(line).collect();
    assert_eq!(lines, vec![
        "=== Realtime (last 30 min) ===",
        "Views:     55",
        "Visitors:  12",
        "Events:    0",
        "Countries: 2",
        "",
        "=== Top URLs ===",
        "  43  /",
        "  12  /about",
        "",
        "=== Top Countries ===",
        "  9  US",
        "  3  DE",
        "",
        "=== Top Referrers ===",
    ]);
}

#[test]
fn realtime_top_list_keeps_ten_with_ties_in_order() {
    let mut urls = Vec::new();
    for i in 0..12u64 {
        let count = if i % 2 == 0 { 5 } else { 7 };
        urls.push((format!("/p{i:02}"), n(count)));
    }
    urls.push(("/text".to_string(), s("many")));
    let data = Json::Object(vec![("urls".to_string(), Json::Object(urls))]);
    let cmd = RealtimeCmd::Get { website_id: "w".to_string(), json: false };
    let out = cmd.render(data);
    let lines: Vec<&str> = out.iter().map(line).collect();
    assert_eq!(lines, vec![
        "",
        "=== Top URLs ===",
        "  7  /p01",
        "  7  /p03",
        "  7  /p05",
        "  7  /p07",
        "  7  /p09",
        "  7  /p11",
        "  5  /p00",
        "  5  /p02",
        "  5  /p04",
        "  5  /p06",
    ]);
}

#[test]
fn realtime_json_flag_shows_raw_reply() {
    let cmd = RealtimeCmd::Get { website_id: "web-1".to_string(), json: true };
    let out = cmd.render(realtime_sample());
    assert_eq!(out.len(), 1);
    assert!(matches!(&out[0], Output::Json(j) if to_text(j) == to_text(&realtime_sample())));
}

#[test]
fn website_listing_is_a_table_of_the_data_array() {
    let cmd = WebsitesCmd::List { search: None, include_teams: false, page: 1, json: false };
    let data = obj(vec![(
        "data",
        Json::Array(vec![
            obj(vec![("id", s("web-1")), ("name", s("My Site")), ("domain", s("example.com")), ("createdAt", s("2025-01-01"))]),
            obj(vec![("id", s("web-2")), ("name", s("Blog")), ("domain", Json::Null)]),
        ]),
    )]);
    let out = cmd.render(data);
    assert_eq!(out.len(), 1);
    match &out[0] {
        Output::Table { headers, rows } => {
            assert_eq!(headers, &vec!["ID", "NAME", "DOMAIN", "CREATED"]);
            assert_eq!(rows, &vec![
                vec!["web-1", "My Site", "example.com", "2025-01-01"],
                vec!["web-2", "Blog", "—", "—"],
            ]);
        }
        other => panic!("not a table: {other:?}"),
    }
}

#[test]
fn website_listing_without_items_shows_json() {
    let cmd = WebsitesCmd::List { search: None, include_teams: false, page: 1, json: false };
    let out = cmd.render(obj(vec![("count", n(0))]));
    assert!(matches!(&out[0], Output::Json(_)));
}

#[test]
fn website_created_names_its_id() {
    let cmd = WebsitesCmd::Create { name: "A".to_string(), domain: "a.com".to_string(), share_id: None, team_id: None };
    let out = cmd.render(obj(vec![("id", s("new-web-id"))]));
    assert!(matches!(&out[0], Output::Success(m) if m == "Website created: new-web-id"));
    assert!(matches!(&out[1], Output::Json(_)));
}

#[test]
fn failed_call_shows_error_message() {
    let cmd = WebsitesCmd::Delete { id: "x".to_string() };
    let out = cmd.outcome(Err(ApiError::Api { status: 404, body: "Not found".to_string() }));
    assert!(matches!(&out[..], [Output::Error(m)] if m == "API error (404): Not found"));
    let out = cmd.outcome(Ok(obj(vec![])));
    assert!(matches!(&out[..], [Output::Success(m)] if m == "Website deleted."));
}

#[test]
fn website_update_share_null_unshares() {
    let cmd = WebsitesCmd::Update { id: "w".to_string(), name: None, domain: None, share_id: Some("null".to_string()) };
    let call = cmd.call();
    assert_eq!(call.path, "/api/websites/w");
    assert_eq!(to_text(call.body.as_ref().unwrap()), "{\"shareId\":null}");
    let cmd = WebsitesCmd::Update { id: "w".to_string(), name: Some("N".to_string()), domain: None, share_id: Some("abc".to_string()) };
    assert_eq!(to_text(cmd.call().body.as_ref().unwrap()), "{\"name\":\"N\",\"shareId\":\"abc\"}");
}

#[test]
fn event_send_goes_to_the_server_without_token() {
    let cmd = EventsCmd::Send {
        website_id: "web-1".to_string(),
        url: "/test-page".to_string(),
        name: Some("signup".to_string()),
        data: None,
        hostname: Some("example.com".to_string()),
        referrer: None,
    };
    assert!(cmd.call().is_none());
    let mut config = Config::default();
    assert_eq!(send_url(&config), "http://localhost:3000/api/send");
    config.server_url = Some("https://a.example.com/".to_string());
    assert_eq!(send_url(&config), "https://a.example.com/api/send");
    let payload = send_payload(
        &"web-1".to_string(),
        &"/test-page".to_string(),
        &Some("signup".to_string()),
        Some(obj(vec![("plan", s("pro"))])),
        &Some("example.com".to_string()),
        &None,
    );
    assert_eq!(
        to_text(&payload),
        "{\"payload\":{\"website\":\"web-1\",\"url\":\"/test-page\",\"name\":\"signup\",\"data\":{\"plan\":\"pro\"},\"hostname\":\"example.com\"}}"
    );
}

#[test]
fn event_send_result_messages() {
    assert!(matches!(&send_result(200, "ok".to_string())[..], [Output::Success(m)] if m == "Event sent."));
    let out = send_result(500, "boom".to_string());
    assert!(matches!(&out[..], [Output::Error(m)] if m == "Failed (500 Internal Server Error): boom"));
    let out = send_result(404, "".to_string());
    assert!(matches!(&out[..], [Output::Error(m)] if m == "Failed (404 Not Found): "));
}

#[test]
fn login_reply_leads_to_saved_settings() {
    let data = obj(vec![("token", s("jwt")), ("user", obj(vec![]))]);
    let config = after_login_reply("https://x.example.com", "admin", &Ok(data)).unwrap();
    assert_eq!(config, Config {
        server_url: Some("https://x.example.com".to_string()),
        token: Some("jwt".to_string()),
        username: Some("admin".to_string()),
    });
    let no_token = after_login_reply("https://x", "u", &Ok(obj(vec![]))).unwrap();
    assert_eq!(no_token.token.as_deref(), Some(""));
    let refused = after_login_reply("https://x", "u", &Err(ApiError::Api { status: 401, body: "Unauthorized".to_string() }));
    let out = refused.unwrap_err();
    assert!(matches!(&out[..], [Output::Error(m)] if m == "Login failed: API error (401): Unauthorized"));
}

#[test]
fn login_logout_and_verify_messages() {
    assert!(matches!(&show_saved(Ok(()))[..], [Output::Success(m)] if m == "Logged in successfully."));
    assert!(matches!(&show_saved(Err("disk full".to_string()))[..], [Output::Error(m)] if m == "Failed to save config: disk full"));
    assert!(matches!(&show_cleared(Ok(()))[..], [Output::Success(m)] if m == "Logged out. Credentials cleared."));
    assert!(matches!(&show_cleared(Err("denied".to_string()))[..], [Output::Error(m)] if m == "Failed to clear config: denied"));
    let out = show_verified(Ok(obj(vec![("id", s("u"))])));
    assert!(matches!(&out[..], [Output::Success(m), Output::Json(_)] if m == "Token is valid."));
    let out = show_verified(Err(ApiError::NotAuthenticated));
    assert!(matches!(&out[..], [Output::Error(m)] if m == "Verification failed: Not authenticated. Run `umami-cli auth login` first."));
}

#[test]
fn auth_status_when_not_logged_in() {
    let out = show_status(&Config::default(), "/home/u/.config/umami-cli/config.toml");
    let lines: Vec<&str> = out.iter().map(line).collect();
    assert_eq!(lines, vec!["Not authenticated. Run `umami-cli auth login`."]);
    assert!(!lines.iter().any(|l| l.contains("Server:")));
}

#[test]
fn auth_status_when_logged_in() {
    let config = Config { server_url: Some("https://a".to_string()), token: Some("t".to_string()), username: None };
    let out = show_status(&config, "/cfg.toml");
    let lines: Vec<&str> = out.iter().map(line).collect();
    assert_eq!(lines, vec!["Server:   https://a", "Username: —", "Token:    (saved)", "Config:   /cfg.toml"]);
}

use umami_cli::api::http::{HttpReply, HttpRequest, Method};
use umami_cli::api::{ApiError, UmamiClient};
use umami_cli::commands::admin::AdminCmd;
use umami_cli::commands::links::LinksCmd;
use umami_cli::commands::pixels::PixelsCmd;
use umami_cli::commands::realtime::RealtimeCmd;
use umami_cli::commands::reports::ReportsCmd;
use umami_cli::commands::sessions::SessionsCmd;
use umami_cli::commands::shares::SharesCmd;
use umami_cli::commands::stats::StatsCmd;
use umami_cli::commands::teams::TeamsCmd;
use umami_cli::commands::websites::WebsitesCmd;
use umami_cli::json::{to_text, Json, JsonNumber};

const BASE: &str = "http://127.0.0.1:3000";

fn s(t: &str) -> Json {
    Json::String(t.to_string())
}

fn n(v: u64) -> Json {
    Json::Number(JsonNumber::PosInt(v))
}

fn obj(fields: Vec<(&str, Json)>) -> Json {
    Json::Object(fields.into_iter().map(|(k, v)| (k.to_string(), v)).collect())
}

fn pairs(p: &[(&str, &str)]) -> Vec<(String, String)> {
    p.iter().map(|(a, b)| (a.to_string(), b.to_string())).collect()
}

fn test_client(token: Option<&str>) -> UmamiClient {
    UmamiClient::new(BASE, token.map(|t| t.to_string()))
}

fn ok_reply(body: Json) -> HttpReply {
    HttpReply { status: 200, text: to_text(&body), json: Some(body) }
}

fn text_reply(status: u16, text: &str) -> HttpReply {
    HttpReply { status, text: text.to_string(), json: None }
}

fn header<'a>(req: &'a HttpRequest, name: &str) -> Option<&'a str> {
    req.headers.iter().find(|(k, _)| k.eq_ignore_ascii_case(name)).map(|(_, v)| v.as_str())
}

fn body_text(req: &HttpRequest) -> Option<String> {
    req.body.as_ref().map(to_text)
}

#[test]
fn login_success() {
    let mut client = test_client(None);
    let req = client.login_request("admin", "umami");
    assert_eq!(req.method, Method::Post);
    assert_eq!(req.url, format!("{BASE}/api/auth/login"));
    assert_eq!(body_text(&req).unwrap(), "{\"username\":\"admin\",\"password\":\"umami\"}");
    assert_eq!(header(&req, "content-type"), Some("application/json"));
    assert_eq!(header(&req, "authorization"), None);

    let response_body = obj(vec![
        ("token", s("test-jwt-token")),
        (
            "user",
            obj(vec![
                ("id", s("user-1")),
                ("username", s("admin")),
                ("role", s("admin")),
                ("createdAt", s("2025-01-01T00:00:00.000Z")),
                ("isAdmin", Json::Bool(true)),
            ]),
        ),
    ]);
    let result = client.finish_login(ok_reply(response_body));
    assert!(result.is_ok());
    let data = result.unwrap();
    assert_eq!(data.get("token").and_then(|t| t.as_str()).map(|t| t.as_str()), Some("test-jwt-token"));
    let user = data.get("user").unwrap();
    assert_eq!(user.get("username").and_then(|t| t.as_str()).map(|t| t.as_str()), Some("admin"));
    assert_eq!(client.token().as_deref(), Some("test-jwt-token"));
}

#[test]
fn login_failure_invalid_credentials() {
    let mut client = test_client(None);
    let req = client.login_request("admin", "wrong");
    assert_eq!(req.url, format!("{BASE}/api/auth/login"));
    let result = client.finish_login(text_reply(401, "Unauthorized"));
    assert!(result.is_err());
    let err = result.unwrap_err().message();
    assert!(err.contains("401"));
    assert_eq!(err, "API error (401): Unauthorized");
    assert_eq!(client.token(), None);
}

#[test]
fn get_requires_auth() {
    let client = test_client(None);
    let result = client.get_request("/api/websites");
    assert!(result.is_err());
    let err = result.unwrap_err();
    assert_eq!(err, ApiError::NotAuthenticated);
    assert!(err.message().contains("Not authenticated"));
}

#[test]
fn get_websites_success() {
    let client = test_client(Some("test-token"));
    let cmd = WebsitesCmd::List { search: None, include_teams: false, page: 1, json: false };
    let req = client.prepare(cmd.call()).unwrap();
    assert_eq!(req.method, Method::Get);
    assert_eq!(req.url, format!("{BASE}/api/websites"));
    assert_eq!(header(&req, "authorization"), Some("Bearer test-token"));
    assert_eq!(req.query, pairs(&[("page", "1")]));

    let websites = obj(vec![
        (
            "data",
            Json::Array(vec![
                obj(vec![("id", s("web-1")), ("name", s("My Site")), ("domain", s("example.com")), ("createdAt", s("2025-01-01"))]),
                obj(vec![("id", s("web-2")), ("name", s("Blog")), ("domain", s("blog.example.com")), ("createdAt", s("2025-02-01"))]),
            ]),
        ),
        ("count", n(2)),
        ("page", n(1)),
        ("pageSize", n(20)),
    ]);
    let result = UmamiClient::handle_response(ok_reply(websites)).unwrap();
    let data = result.get("data").unwrap().as_array().unwrap();
    assert_eq!(data.len(), 2);
    assert_eq!(data[0].get("name").unwrap().as_str().unwrap(), "My Site");
}

#[test]
fn create_website_success() {
    let client = test_client(Some("test-token"));
    let cmd = WebsitesCmd::Create {
        name: "New Site".to_string(),
        domain: "new.example.com".to_string(),
        share_id: None,
        team_id: None,
    };
    let req = client.prepare(cmd.call()).unwrap();
    assert_eq!(req.method, Method::Post);
    assert_eq!(req.url, format!("{BASE}/api/websites"));
    assert_eq!(header(&req, "authorization"), Some("Bearer test-token"));
    assert_eq!(body_text(&req).unwrap(), "{\"name\":\"New Site\",\"domain\":\"new.example.com\"}");
    let created = obj(vec![("id", s("new-web-id")), ("name", s("New Site")), ("domain", s("new.example.com")), ("createdAt", s("2025-03-01"))]);
    let result = UmamiClient::handle_response(ok_reply(created)).unwrap();
    assert_eq!(result.get("id").unwrap().as_str().unwrap(), "new-web-id");
}

#[test]
fn delete_website_success() {
    let client = test_client(Some("test-token"));
    let cmd = WebsitesCmd::Delete { id: "web-1".to_string() };
    let req = client.prepare(cmd.call()).unwrap();
    assert_eq!(req.method, Method::Delete);
    assert_eq!(req.url, format!("{BASE}/api/websites/web-1"));
    assert_eq!(header(&req, "authorization"), Some("Bearer test-token"));
    assert!(req.body.is_none());
    let result = UmamiClient::handle_response(ok_reply(obj(vec![("ok", Json::Bool(true))]))).unwrap();
    assert!(matches!(result.get("ok"), Some(Json::Bool(true))));
}

#[test]
fn api_error_propagated() {
    let client = test_client(Some("test-token"));
    let req = client.get_request("/api/websites/nonexistent").unwrap();
    assert_eq!(req.url, format!("{BASE}/api/websites/nonexistent"));
    let result = UmamiClient::handle_response(text_reply(404, "Not found"));
    assert!(result.is_err());
    let err = result.unwrap_err();
    assert_eq!(err, ApiError::Api { status: 404, body: "Not found".to_string() });
    assert!(err.message().contains("404"));
}

#[test]
fn get_website_stats() {
    let client = test_client(Some("test-token"));
    let cmd = StatsCmd::Summary { website_id: "web-1".to_string(), start_at: 1000, end_at: 2000, json: false };
    let req = client.prepare(cmd.call()).unwrap();
    assert_eq!(req.url, format!("{BASE}/api/websites/web-1/stats"));
    assert_eq!(req.query, pairs(&[("startAt", "1000"), ("endAt", "2000")]));
    let stats = obj(vec![
        ("pageviews", obj(vec![("value", n(1234)), ("prev", n(1100))])),
        ("visitors", obj(vec![("value", n(456)), ("prev", n(400))])),
        ("visits", obj(vec![("value", n(789)), ("prev", n(700))])),
        ("bounces", obj(vec![("value", n(123)), ("prev", n(100))])),
        ("totaltime", obj(vec![("value", n(56789)), ("prev", n(50000))])),
    ]);
    let result = UmamiClient::handle_response(ok_reply(stats)).unwrap();
    assert_eq!(result.get("pageviews").unwrap().get("value").unwrap().as_u64(), Some(1234));
}

#[test]
fn get_active_visitors() {
    let client = test_client(Some("test-token"));
    let cmd = StatsCmd::Active { website_id: "web-1".to_string() };
    let req = client.prepare(cmd.call()).unwrap();
    assert_eq!(req.method, Method::Get);
    assert_eq!(req.url, format!("{BASE}/api/websites/web-1/active"));
    let result = UmamiClient::handle_response(ok_reply(obj(vec![("visitors", n(42))]))).unwrap();
    assert_eq!(result.get("visitors").unwrap().as_u64(), Some(42));
}

#[test]
fn get_realtime_data() {
    let client = test_client(Some("test-token"));
    let cmd = RealtimeCmd::Get { website_id: "web-1".to_string(), json: false };
    let req = client.prepare(cmd.call()).unwrap();
    assert_eq!(req.url, format!("{BASE}/api/realtime/web-1"));
    let realtime = obj(vec![
        ("countries", obj(vec![("US", n(9)), ("DE", n(3))])),
        ("urls", obj(vec![("/", n(43)), ("/about", n(12))])),
        ("referrers", obj(vec![])),
        ("events", Json::Array(vec![])),
        ("series", obj(vec![("views", Json::Array(vec![])), ("visitors", Json::Array(vec![]))])),
        ("totals", obj(vec![("views", n(55)), ("visitors", n(12)), ("events", n(0)), ("countries", n(2))])),
        ("timestamp", n(1704067200000)),
    ]);
    let result = UmamiClient::handle_response(ok_reply(realtime)).unwrap();
    assert_eq!(result.get("totals").unwrap().get("views").unwrap().as_u64(), Some(55));
    assert_eq!(result.get("countries").unwrap().get("US").unwrap().as_u64(), Some(9));
}

#[test]
fn list_sessions() {
    let client = test_client(Some("test-token"));
    let cmd = SessionsCmd::List {
        website_id: "web-1".to_string(),
        start_at: 1000,
        end_at: 2000,
        search: None,
        page: 1,
        json: false,
    };
    let req = client.prepare(cmd.call()).unwrap();
    assert_eq!(req.url, format!("{BASE}/api/websites/web-1/sessions"));
    assert_eq!(req.query, pairs(&[("startAt", "1000"), ("endAt", "2000"), ("page", "1")]));
    let sessions = obj(vec![
        (
            "data",
            Json::Array(vec![obj(vec![
                ("id", s("session-1")),
                ("websiteId", s("web-1")),
                ("browser", s("chrome")),
                ("os", s("Mac OS")),
                ("device", s("desktop")),
                ("country", s("US")),
                ("visits", n(2)),
                ("views", n(18)),
            ])]),
        ),
        ("count", n(1)),
        ("page", n(1)),
        ("pageSize", n(20)),
    ]);
    let result = UmamiClient::handle_response(ok_reply(sessions)).unwrap();
    let data = result.get("data").unwrap().as_array().unwrap();
    assert_eq!(data[0].get("browser").unwrap().as_str().unwrap(), "chrome");
}

#[test]
fn create_team() {
    let client = test_client(Some("test-token"));
    let cmd = TeamsCmd::Create { name: "Dev Team".to_string() };
    let req = client.prepare(cmd.call()).unwrap();
    assert_eq!(req.method, Method::Post);
    assert_eq!(req.url, format!("{BASE}/api/teams"));
    assert_eq!(body_text(&req).unwrap(), "{\"name\":\"Dev Team\"}");
    let team = obj(vec![("id", s("team-1")), ("name", s("Dev Team")), ("accessCode", s("abc123")), ("createdAt", s("2025-01-01"))]);
    let result = UmamiClient::handle_response(ok_reply(team)).unwrap();
    assert_eq!(result.get("name").unwrap().as_str().unwrap(), "Dev Team");
    assert_eq!(result.get("accessCode").unwrap().as_str().unwrap(), "abc123");
}

#[test]
fn create_report_funnel() {
    let client = test_client(Some("test-token"));
    let cmd = ReportsCmd::Funnel {
        website_id: "web-1".to_string(),
        start_date: "2025-01-01".to_string(),
        end_date: "2025-01-31".to_string(),
        urls: "/signup,/onboard,/activate".to_string(),
        window: 7,
        timezone: "UTC".to_string(),
        json: false,
    };
    let req = client.prepare(cmd.call()).unwrap();
    assert_eq!(req.method, Method::Post);
    assert_eq!(req.url, format!("{BASE}/api/reports/funnel"));
    assert_eq!(
        body_text(&req).unwrap(),
        "{\"websiteId\":\"web-1\",\"type\":\"funnel\",\"parameters\":{\"startDate\":\"2025-01-01\",\"endDate\":\"2025-01-31\",\"timezone\":\"UTC\",\"urls\":[\"/signup\",\"/onboard\",\"/activate\"],\"window\":7}}"
    );
    let report_result = obj(vec![(
        "data",
        Json::Array(vec![
            obj(vec![("url", s("/signup")), ("visitors", n(100)), ("dropoff", n(0))]),
            obj(vec![("url", s("/onboard")), ("visitors", n(75)), ("dropoff", n(25))]),
            obj(vec![("url", s("/activate")), ("visitors", n(50)), ("dropoff", n(25))]),
        ]),
    )]);
    let result = UmamiClient::handle_response(ok_reply(report_result)).unwrap();
    let data = result.get("data").unwrap().as_array().unwrap();
    assert_eq!(data.len(), 3);
    assert_eq!(data[0].get("visitors").unwrap().as_u64(), Some(100));
}

#[test]
fn create_link() {
    let client = test_client(Some("test-token"));
    let cmd = LinksCmd::Create {
        name: "My Link".to_string(),
        url: "https://example.com".to_string(),
        slug: "mylink12".to_string(),
        team_id: None,
    };
    let req = client.prepare(cmd.call()).unwrap();
    assert_eq!(req.url, format!("{BASE}/api/links"));
    assert_eq!(body_text(&req).unwrap(), "{\"name\":\"My Link\",\"url\":\"https://example.com\",\"slug\":\"mylink12\"}");
    let link = obj(vec![("id", s("link-1")), ("name", s("My Link")), ("url", s("https://example.com")), ("slug", s("mylink12"))]);
    let result = UmamiClient::handle_response(ok_reply(link)).unwrap();
    assert_eq!(result.get("slug").unwrap().as_str().unwrap(), "mylink12");
}

#[test]
fn create_pixel() {
    let client = test_client(Some("test-token"));
    let cmd = PixelsCmd::Create { name: "My Pixel".to_string(), slug: "mypixel1".to_string(), team_id: None };
    let req = client.prepare(cmd.call()).unwrap();
    assert_eq!(req.url, format!("{BASE}/api/pixels"));
    assert_eq!(body_text(&req).unwrap(), "{\"name\":\"My Pixel\",\"slug\":\"mypixel1\"}");
    let pixel = obj(vec![("id", s("pixel-1")), ("name", s("My Pixel")), ("slug", s("mypixel1"))]);
    let result = UmamiClient::handle_response(ok_reply(pixel)).unwrap();
    assert_eq!(result.get("name").unwrap().as_str().unwrap(), "My Pixel");
}

#[test]
fn admin_list_users() {
    let client = test_client(Some("test-token"));
    let cmd = AdminCmd::Users { search: None, page: 1, json: false };
    let req = client.prepare(cmd.call()).unwrap();
    assert_eq!(req.url, format!("{BASE}/api/admin/users"));
    assert_eq!(req.query, pairs(&[("page", "1")]));
    let users = obj(vec![
        (
            "data",
            Json::Array(vec![
                obj(vec![("id", s("user-1")), ("username", s("admin")), ("role", s("admin")), ("createdAt", s("2025-01-01"))]),
                obj(vec![("id", s("user-2")), ("username", s("viewer")), ("role", s("view-only")), ("createdAt", s("2025-02-01"))]),
            ]),
        ),
        ("count", n(2)),
        ("page", n(1)),
        ("pageSize", n(20)),
    ]);
    let result = UmamiClient::handle_response(ok_reply(users)).unwrap();
    assert_eq!(result.get("data").unwrap().as_array().unwrap().len(), 2);
}

#[test]
fn share_create() {
    let client = test_client(Some("test-token"));
    let cmd = SharesCmd::Create {
        entity_id: "web-1".to_string(),
        share_type: 1,
        name: "Public Dashboard".to_string(),
        slug: "my-dashboard".to_string(),
    };
    let req = client.prepare(cmd.call()).unwrap();
    assert_eq!(req.url, format!("{BASE}/api/share"));
    let body = body_text(&req).unwrap();
    assert!(body.contains("\"entityId\":\"web-1\""));
    assert!(body.contains("\"shareType\":1"));
    assert!(body.contains("\"slug\":\"my-dashboard\""));
    let share = obj(vec![("id", s("share-1")), ("entityId", s("web-1")), ("shareType", n(1)), ("name", s("Public Dashboard")), ("slug", s("my-dashboard"))]);
    let result = UmamiClient::handle_response(ok_reply(share)).unwrap();
    assert_eq!(result.get("slug").unwrap().as_str().unwrap(), "my-dashboard");
}

#[test]
fn reply_that_is_not_json_fails_to_decode() {
    let result = UmamiClient::handle_response(text_reply(200, "<html>"));
    let err = result.unwrap_err();
    assert_eq!(err, ApiError::Http("error decoding response body".to_string()));
    assert_eq!(err.message(), "HTTP error: error decoding response body");
}

#[test]
fn status_399_is_no_error_but_400_is() {
    assert!(UmamiClient::handle_response(ok_reply(obj(vec![]))).is_ok());
    let r = UmamiClient::handle_response(HttpReply { status: 399, text: "{}".to_string(), json: Some(obj(vec![])) });
    assert!(r.is_ok());
    let r = UmamiClient::handle_response(HttpReply { status: 400, text: "bad".to_string(), json: Some(obj(vec![])) });
    assert_eq!(r.unwrap_err(), ApiError::Api { status: 400, body: "bad".to_string() });
}

#[test]
fn token_with_line_break_is_refused_as_header() {
    let client = test_client(Some("bad\ntoken"));
    let err = client.get_request("/api/websites").unwrap_err();
    assert_eq!(err, ApiError::Other("failed to parse header value".to_string()));
    assert_eq!(err.message(), "failed to parse header value");
}

#[test]
fn error_messages() {
    assert_eq!(ApiError::NotAuthenticated.message(), "Not authenticated. Run `umami-cli auth login` first.");
    assert_eq!(ApiError::Other("boom".to_string()).message(), "boom");
    assert_eq!(ApiError::Http("timeout".to_string()).message(), "HTTP error: timeout");
    assert_eq!(ApiError::Api { status: 500, body: "oops".to_string() }.message(), "API error (500): oops");
}

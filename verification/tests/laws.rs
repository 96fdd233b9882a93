use umami_cli::api::http::{status_text, HttpReply};
use umami_cli::api::{ApiError, UmamiClient};
use umami_cli::config::Config;
use umami_cli::json::{to_text, Json, JsonNumber};
use umami_cli::ranking::top_ranked;
use umami_cli::text::{i64_to_text, split_char, trim, trim_end_slashes, u64_to_text};

fn n(v: u64) -> Json {
    Json::Number(JsonNumber::PosInt(v))
}

#[test]
fn get_after_insert_gives_inserted_value() {
    let mut j = Json::Object(vec![("a".to_string(), n(1)), ("b".to_string(), n(2))]);
    j.insert("c".to_string(), n(3));
    assert_eq!(j.get("c").unwrap().as_u64(), Some(3));
    assert_eq!(j.get("a").unwrap().as_u64(), Some(1));
    j.insert("a".to_string(), Json::String("x".to_string()));
    assert_eq!(to_text(&j), "{\"a\":\"x\",\"b\":2,\"c\":3}");
    assert_eq!(j.get("b").unwrap().as_u64(), Some(2));
    j.insert("c".to_string(), n(4));
    j.insert("c".to_string(), n(5));
    assert_eq!(to_text(&j), "{\"a\":\"x\",\"b\":2,\"c\":5}");
}

#[test]
fn get_finds_first_of_repeated_keys() {
    let j = Json::Object(vec![("k".to_string(), n(1)), ("k".to_string(), n(2))]);
    assert_eq!(j.get("k").unwrap().as_u64(), Some(1));
    assert!(Json::Null.get("k").is_none());
}

#[test]
fn trailing_slashes_of_server_url_are_ignored() {
    let a = UmamiClient::new("https://a.example.com", None);
    let b = UmamiClient::new("https://a.example.com/", None);
    let c = UmamiClient::new("https://a.example.com///", None);
    assert_eq!(a.base_url(), "https://a.example.com");
    assert_eq!(b.base_url(), a.base_url());
    assert_eq!(c.base_url(), a.base_url());
    assert_eq!(trim_end_slashes("/"), "");
}

#[test]
fn from_config_needs_a_server() {
    let err = UmamiClient::from_config(&Config::default()).err().unwrap();
    assert_eq!(err, ApiError::Other("No server URL configured. Run `umami-cli auth login` first.".to_string()));
    let config = Config { server_url: Some("http://h:3000/".to_string()), token: Some("t".to_string()), username: None };
    let client = UmamiClient::from_config(&config).ok().unwrap();
    assert_eq!(client.base_url(), "http://h:3000");
    assert_eq!(client.token().as_deref(), Some("t"));
}

#[test]
fn no_token_means_no_authenticated_request() {
    let client = UmamiClient::new("http://h", None);
    assert_eq!(client.require_auth(), Err(ApiError::NotAuthenticated));
    assert_eq!(client.get_request("/x").err(), Some(ApiError::NotAuthenticated));
    assert_eq!(client.delete_request("/x").err(), Some(ApiError::NotAuthenticated));
    assert_eq!(client.post_request("/x", Json::empty_object()).err(), Some(ApiError::NotAuthenticated));
    assert_eq!(client.verify_request().err(), Some(ApiError::NotAuthenticated));
}

#[test]
fn login_keeps_token_and_failed_login_keeps_client() {
    let mut client = UmamiClient::new("http://h", Some("old".to_string()));
    let reply = HttpReply { status: 500, text: "down".to_string(), json: None };
    assert!(client.finish_login(reply).is_err());
    assert_eq!(client.token().as_deref(), Some("old"));
    let body = Json::Object(vec![("token".to_string(), Json::String("new".to_string()))]);
    let reply = HttpReply { status: 200, text: to_text(&body), json: Some(body) };
    assert!(client.finish_login(reply).is_ok());
    assert_eq!(client.token().as_deref(), Some("new"));
    let req = client.verify_request().ok().unwrap();
    assert!(req.headers.iter().any(|(k, v)| k == "authorization" && v == "Bearer new"));
    let body = Json::Object(vec![("token".to_string(), n(5))]);
    let reply = HttpReply { status: 200, text: to_text(&body), json: Some(body) };
    assert!(client.finish_login(reply).is_ok());
    assert_eq!(client.token().as_deref(), Some("new"));
}

#[test]
fn ranking_is_stable_descending_and_cut() {
    assert_eq!(top_ranked(&vec![5, 9, 9, 1], 2), vec![1, 2]);
    assert_eq!(top_ranked(&vec![5, 9, 9, 1], 10), vec![1, 2, 0, 3]);
    assert_eq!(top_ranked(&vec![3, 3, 3], 2), vec![0, 1]);
    assert_eq!(top_ranked(&vec![], 10), Vec::<usize>::new());
    assert_eq!(top_ranked(&vec![1, 2, 3], 0), Vec::<usize>::new());
}

#[test]
fn decimal_texts() {
    assert_eq!(u64_to_text(0), "0");
    assert_eq!(u64_to_text(1704067200000), "1704067200000");
    assert_eq!(u64_to_text(u64::MAX), "18446744073709551615");
    assert_eq!(i64_to_text(-5), "-5");
    assert_eq!(i64_to_text(i64::MIN), "-9223372036854775808");
    assert_eq!(i64_to_text(1000), "1000");
}

#[test]
fn status_texts() {
    assert_eq!(status_text(404), "404 Not Found");
    assert_eq!(status_text(200), "200 OK");
    assert_eq!(status_text(599), "599 <unknown status code>");
    assert_eq!(status_text(42), "42 <unknown status code>");
}

#[test]
fn split_and_trim_like_std() {
    assert_eq!(split_char("/a, /b ,,", ','), vec!["/a", " /b ", "", ""]);
    assert_eq!(split_char("", ','), vec![""]);
    assert_eq!(trim("  \t/a b\n"), "/a b");
    assert_eq!(trim("   "), "");
}

#[test]
fn query_parameters_are_sent_as_given() {
    let client = UmamiClient::new("http://h/", Some("tok".to_string()));
    let query = vec![("startAt".to_string(), "1".to_string()), ("search".to_string(), "a b".to_string())];
    let req = client.get_with_query_request("/api/x", query.clone()).ok().unwrap();
    assert_eq!(req.url, "http://h/api/x");
    assert_eq!(req.query, query);
    assert!(req.body.is_none());
    assert_eq!(req.headers, vec![
        ("content-type".to_string(), "application/json".to_string()),
        ("authorization".to_string(), "Bearer tok".to_string()),
    ]);
}

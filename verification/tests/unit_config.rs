use umami_cli::commands::auth::login_start;
use umami_cli::config::Config;

#[test]
fn config_default_is_empty() {
    let config = Config::default();
    assert!(config.server_url.is_none());
    assert!(config.token.is_none());
    assert!(config.username.is_none());
}

#[test]
fn config_for_server_holds_only_the_server() {
    let config = Config::for_server("https://analytics.example.com".to_string());
    assert_eq!(config.server_url.as_deref(), Some("https://analytics.example.com"));
    assert!(config.token.is_none());
    assert!(config.username.is_none());
    assert_eq!(login_start("https://analytics.example.com"), config);
}

//! Logging in and out, and what is saved in between.
use vstd::prelude::*;
use crate::api::client::{token_of, ApiError};
use crate::config::{opt_str, Config, ConfigView};
use crate::json::{Json, JsonValue};
use crate::output::{dash, dash_string, error_outputs, one, outputs_view, show_error, two, Output, OutputView};
use crate::text::{concat, owned};

verus! {

/// Authentication.
pub enum AuthCmd {
    /// Log in: each of server URL, user name and password that is not
    /// given is asked for.
    Login { server: Option<String>, username: Option<String>, password: Option<String> },
    /// Verify the saved token.
    Verify,
    /// Log out and clear the saved settings.
    Logout,
    /// Show what is saved.
    Status,
}

/// The settings saved after a successful login: the server, the token of
/// the reply (empty when it has none) and the user name.
pub open spec fn login_settings(server: Seq<char>, username: Seq<char>, data: JsonValue) -> ConfigView {
    ConfigView {
        server_url: Some(server),
        token: Some(
            match token_of(data) {
                Some(t) => t,
                None => Seq::empty(),
            },
        ),
        username: Some(username),
    }
}

/// The settings a login starts from: only the server URL.
pub fn login_start(server: &str) -> (c: Config)
    ensures
        c@ == (ConfigView { server_url: Some(server@), token: None, username: None }),
{
    Config::for_server(owned(server))
}

/// The settings to save after a successful login reply.
pub fn login_config(server: &str, username: &str, data: &Json) -> (c: Config)
    ensures
        c@ == login_settings(server@, username@, data@),
{
    let token = match data.get("token") {
        Some(t) => match t.as_str() {
            Some(s) => s.clone(),
            None => String::new(),
        },
        None => String::new(),
    };
    Config { server_url: Some(owned(server)), token: Some(token), username: Some(owned(username)) }
}

/// What a login reply leads to: settings to save, or the messages of a
/// failed login.
pub open spec fn login_step(
    server: Seq<char>,
    username: Seq<char>,
    result: Result<JsonValue, crate::api::client::ApiErrorView>,
) -> Result<ConfigView, Seq<OutputView>> {
    match result {
        Ok(data) => Ok(login_settings(server, username, data)),
        Err(e) => Err(error_outputs("Login failed: "@, e)),
    }
}

/// The view of what a login reply leads to.
pub open spec fn step_view(r: Result<Config, Vec<Output>>) -> Result<ConfigView, Seq<OutputView>> {
    match r {
        Ok(c) => Ok(c@),
        Err(v) => Err(outputs_view(v@)),
    }
}

/// What a login reply leads to: on success the settings to save; on
/// failure the message to show.
pub fn after_login_reply(server: &str, username: &str, result: &Result<Json, ApiError>) -> (r: Result<
    Config,
    Vec<Output>,
>)
    ensures
        step_view(r) == login_step(server@, username@, crate::api::client::result_view(*result)),
{
    match result {
        Ok(data) => Ok(login_config(server, username, data)),
        Err(e) => Err(show_error("Login failed: ", e)),
    }
}

/// What is shown once saving the settings of a login succeeded or failed
/// with a message.
pub open spec fn saved_outputs(r: Result<(), Seq<char>>) -> Seq<OutputView> {
    match r {
        Ok(()) => seq![OutputView::Success("Logged in successfully."@)],
        Err(m) => seq![OutputView::Error("Failed to save config: "@ + m)],
    }
}

/// Shows the end of a login: saved, or the reason saving failed.
pub fn show_saved(r: Result<(), String>) -> (v: Vec<Output>)
    ensures
        outputs_view(v@) == saved_outputs(match r {
            Ok(()) => Ok(()),
            Err(m) => Err(m@),
        }),
{
    match r {
        Ok(()) => one(Output::Success(owned("Logged in successfully."))),
        Err(m) => one(Output::Error(concat("Failed to save config: ", m.as_str()))),
    }
}

/// What verifying the token shows: a success message and the reply, or
/// why verification failed.
pub open spec fn verify_outputs(r: Result<JsonValue, crate::api::client::ApiErrorView>) -> Seq<
    OutputView,
> {
    match r {
        Ok(data) => seq![OutputView::Success("Token is valid."@), OutputView::Json(data)],
        Err(e) => error_outputs("Verification failed: "@, e),
    }
}

/// Shows the result of verifying the token.
pub fn show_verified(r: Result<Json, ApiError>) -> (v: Vec<Output>)
    ensures
        outputs_view(v@) == verify_outputs(crate::api::client::result_view(r)),
{
    match r {
        Ok(data) => two(Output::Success(owned("Token is valid.")), Output::Json(data)),
        Err(e) => show_error("Verification failed: ", &e),
    }
}

/// What is shown once clearing the saved settings succeeded or failed
/// with a message.
pub open spec fn cleared_outputs(r: Result<(), Seq<char>>) -> Seq<OutputView> {
    match r {
        Ok(()) => seq![OutputView::Success("Logged out. Credentials cleared."@)],
        Err(m) => seq![OutputView::Error("Failed to clear config: "@ + m)],
    }
}

/// Shows the end of a logout.
pub fn show_cleared(r: Result<(), String>) -> (v: Vec<Output>)
    ensures
        outputs_view(v@) == cleared_outputs(match r {
            Ok(()) => Ok(()),
            Err(m) => Err(m@),
        }),
{
    match r {
        Ok(()) => one(Output::Success(owned("Logged out. Credentials cleared."))),
        Err(m) => one(Output::Error(concat("Failed to clear config: ", m.as_str()))),
    }
}

/// A saved value, or a dash.
pub open spec fn or_dash(o: Option<Seq<char>>) -> Seq<char> {
    match o {
        Some(s) => s,
        None => dash(),
    }
}

/// What the status shows: with a saved token, the server, user name, that
/// a token is saved, and where the settings live; otherwise how to log in.
pub open spec fn status_outputs(c: ConfigView, path: Seq<char>) -> Seq<OutputView> {
    if c.token is Some {
        seq![
            OutputView::Line("Server:   "@ + or_dash(c.server_url)),
            OutputView::Line("Username: "@ + or_dash(c.username)),
            OutputView::Line("Token:    (saved)"@),
            OutputView::Line("Config:   "@ + path),
        ]
    } else {
        seq![OutputView::Line("Not authenticated. Run `umami-cli auth login`."@)]
    }
}

/// A saved value, or a dash.
fn value_or_dash(o: &Option<String>) -> (s: String)
    ensures
        s@ == or_dash(opt_str(*o)),
{
    match o {
        Some(s) => s.clone(),
        None => dash_string(),
    }
}

/// Shows the saved settings, found at `path`.
pub fn show_status(config: &Config, path: &str) -> (v: Vec<Output>)
    ensures
        outputs_view(v@) == status_outputs(config@, path@),
{
    if config.token.is_some() {
        let server = value_or_dash(&config.server_url);
        let user = value_or_dash(&config.username);
        let mut v: Vec<Output> = Vec::new();
        v.push(Output::Line(concat("Server:   ", server.as_str())));
        v.push(Output::Line(concat("Username: ", user.as_str())));
        v.push(Output::Line(owned("Token:    (saved)")));
        v.push(Output::Line(concat("Config:   ", path)));
        assert(outputs_view(v@) =~= status_outputs(config@, path@));
        v
    } else {
        one(Output::Line(owned("Not authenticated. Run `umami-cli auth login`.")))
    }
}

/// A successful login saves the server, the token the server sent and the
/// user name; a refused one saves nothing and says why.
pub proof fn lemma_login_saves_token(server: Seq<char>, username: Seq<char>, data: JsonValue, t: Seq<char>)
    requires
        data.get("token"@) == Some(JsonValue::String(t)),
    ensures
        login_step(server, username, Ok(data)) == Ok::<ConfigView, Seq<OutputView>>(
            ConfigView { server_url: Some(server), token: Some(t), username: Some(username) },
        ),
{
}

/// After logging in, the status shows the user as logged in on that server.
pub proof fn lemma_status_after_login(server: Seq<char>, username: Seq<char>, data: JsonValue, path: Seq<char>)
    ensures
        status_outputs(login_settings(server, username, data), path) == seq![
            OutputView::Line("Server:   "@ + server),
            OutputView::Line("Username: "@ + username),
            OutputView::Line("Token:    (saved)"@),
            OutputView::Line("Config:   "@ + path),
        ],
{
}

/// Once the saved settings are cleared (nothing saved), the status says
/// that the user is not authenticated; no token is left to send, and
/// `UmamiClient::from_config` refuses settings without a server URL.
pub proof fn lemma_status_after_logout(path: Seq<char>)
    ensures
        status_outputs(ConfigView { server_url: None, token: None, username: None }, path) == seq![
            OutputView::Line("Not authenticated. Run `umami-cli auth login`."@),
        ],
{
}

} // verus!

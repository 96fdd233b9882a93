//! The saved connection settings: server URL, token and user name.
use vstd::prelude::*;

verus! {

/// The view of an optional string.
pub open spec fn opt_str(o: Option<String>) -> Option<Seq<char>> {
    match o {
        Some(s) => Some(s@),
        None => None,
    }
}

/// A copy of an optional string.
pub fn clone_opt(o: &Option<String>) -> (r: Option<String>)
    ensures
        opt_str(r) == opt_str(*o),
{
    match o {
        Some(s) => Some(s.clone()),
        None => None,
    }
}

/// Connection settings, as saved between runs.
#[derive(Clone, Debug, PartialEq)]
pub struct Config {
    pub server_url: Option<String>,
    pub token: Option<String>,
    pub username: Option<String>,
}

/// The view of [`Config`].
pub struct ConfigView {
    pub server_url: Option<Seq<char>>,
    pub token: Option<Seq<char>>,
    pub username: Option<Seq<char>>,
}

impl View for Config {
    type V = ConfigView;

    open spec fn view(&self) -> ConfigView {
        ConfigView {
            server_url: opt_str(self.server_url),
            token: opt_str(self.token),
            username: opt_str(self.username),
        }
    }
}

impl Default for Config {
    /// Settings with nothing saved.
    fn default() -> (c: Config)
        ensures
            c.server_url is None,
            c.token is None,
            c.username is None,
    {
        Config { server_url: None, token: None, username: None }
    }
}

impl Config {
    /// Settings with only a server URL, before logging in.
    pub fn for_server(server: String) -> (c: Config)
        ensures
            c@ == (ConfigView { server_url: Some(server@), token: None, username: None }),
    {
        Config { server_url: Some(server), token: None, username: None }
    }
}

} // verus!

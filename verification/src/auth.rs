//! The settings and decisions of the Spotify OAuth flow: where the token is
//! cached, where Spotify sends the user back, and how the one-shot callback
//! server answers.
use crate::decimal::{decimal_text, parse_port, parse_unsigned, port_text};
use crate::text::{str_eq, text_or, value_or};
use vstd::prelude::*;
use vstd::string::StringExecFns;

verus! {

/// The token cache file used when none is configured.
pub const DEFAULT_CACHE_PATH: &'static str = "./cache/.spoitify_token_cache.json";

/// The callback host used when none is configured.
pub const DEFAULT_CALLBACK_HOST: &'static str = "localhost";

/// The callback port used when none is configured.
pub const DEFAULT_CALLBACK_PORT: &'static str = "8100";

/// The path on which Spotify calls back.
pub const CALLBACK_PATH: &'static str = "/callback";

/// The OAuth redirect URI `http://{host}:{port}/callback`.
pub open spec fn redirect_uri_text(host: Seq<char>, port: Seq<char>) -> Seq<char> {
    "http://"@ + host + ":"@ + port + "/callback"@
}

/// Builds the OAuth redirect URI for a callback host and port.
pub fn redirect_uri(host: &str, port: &str) -> (r: String)
    ensures
        r@ == redirect_uri_text(host@, port@),
{
    let mut s = String::from_str("http://");
    s.append(host);
    s.append(":");
    s.append(port);
    s.append("/callback");
    s
}

/// What the OAuth client is configured with.
#[derive(Debug)]
pub struct AuthSettings {
    /// Where the token is cached.
    pub cache_path: String,
    /// Whether the token is read from and written to the cache.
    pub token_cached: bool,
    /// Whether an expired token is refreshed.
    pub token_refreshing: bool,
    /// Where Spotify sends the user back after authorising.
    pub redirect_uri: String,
    /// The permissions that are asked for.
    pub scopes: Vec<String>,
}

/// The permissions that synchronisation needs.
pub open spec fn scope_texts() -> Seq<Seq<char>> {
    seq!["playlist-modify-public"@, "playlist-modify-private"@, "playlist-read-private"@]
}

/// The OAuth settings for the configured cache path, callback host and
/// callback port, each of which falls back to its default when not set. The
/// token is always cached and refreshed.
pub fn auth_settings(
    cache_path: Option<String>,
    callback_host: Option<String>,
    callback_port: Option<String>,
) -> (r: AuthSettings)
    ensures
        r.cache_path@ == text_or(cache_path, DEFAULT_CACHE_PATH@),
        r.token_cached,
        r.token_refreshing,
        r.redirect_uri@ == redirect_uri_text(
            text_or(callback_host, DEFAULT_CALLBACK_HOST@),
            text_or(callback_port, DEFAULT_CALLBACK_PORT@),
        ),
        r.scopes@.map_values(|s: String| s@) == scope_texts(),
{
    let cache = value_or(cache_path, DEFAULT_CACHE_PATH);
    let host = value_or(callback_host, DEFAULT_CALLBACK_HOST);
    let port = value_or(callback_port, DEFAULT_CALLBACK_PORT);
    let uri = redirect_uri(host.as_str(), port.as_str());
    let mut scopes: Vec<String> = Vec::new();
    scopes.push(String::from_str("playlist-modify-public"));
    scopes.push(String::from_str("playlist-modify-private"));
    scopes.push(String::from_str("playlist-read-private"));
    assert(scopes@.map_values(|s: String| s@) =~= scope_texts());
    AuthSettings {
        cache_path: cache,
        token_cached: true,
        token_refreshing: true,
        redirect_uri: uri,
        scopes,
    }
}

/// The port that the callback server listens on: the configured one, or the
/// default; `None` when that is not a port number.
pub fn callback_port(configured: Option<String>) -> (r: Option<u16>)
    ensures
        match r {
            Some(p) => parse_unsigned(text_or(configured, DEFAULT_CALLBACK_PORT@), u16::MAX as int)
                == Some(p as int),
            None => parse_unsigned(text_or(configured, DEFAULT_CALLBACK_PORT@), u16::MAX as int) is None,
        },
{
    let text = value_or(configured, DEFAULT_CALLBACK_PORT);
    parse_port(text.as_str())
}

/// The full callback URL that the OAuth client parses the code from:
/// `localhost:{port}` followed by the request's path and query.
pub fn callback_url(port: u16, path_and_query: &str) -> (r: String)
    ensures
        r@ == "localhost:"@ + decimal_text(port as nat) + path_and_query@,
{
    let mut s = String::from_str("localhost:");
    let p = port_text(port);
    s.append(p.as_str());
    s.append(path_and_query);
    s
}

/// How the callback server answers a request.
#[derive(PartialEq, Eq, Structural, Debug, Clone, Copy)]
pub enum CallbackRoute {
    /// Spotify's callback: stop the server and hand the URL on.
    Callback,
    /// Any other request: the server keeps waiting.
    Other,
}

impl CallbackRoute {
    /// The body of the answer.
    pub fn body(&self) -> (r: &'static str)
        ensures
            r@ == (match self {
                CallbackRoute::Callback => "Thanks for authenticating Spotisync"@,
                CallbackRoute::Other => "That's not a Spotify callback URL"@,
            }),
    {
        match self {
            CallbackRoute::Callback => "Thanks for authenticating Spotisync",
            CallbackRoute::Other => "That's not a Spotify callback URL",
        }
    }
}

/// Routes a request of the callback server by its path: only `/callback` is
/// Spotify's callback.
pub fn route_request(path: &str) -> (r: CallbackRoute)
    ensures
        r == CallbackRoute::Callback <==> path@ == CALLBACK_PATH@,
{
    if str_eq(path, CALLBACK_PATH) {
        CallbackRoute::Callback
    } else {
        CallbackRoute::Other
    }
}

} // verus!

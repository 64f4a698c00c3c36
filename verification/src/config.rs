use vstd::prelude::*;

use crate::address::{ParsedUrl, invalid_url_message, parsed_url_value, parses_as_url};

verus! {

#[verifier::external_type_specification]
#[verifier::external_body]
pub struct ExMinifluxApi(miniflux_api::MinifluxApi);

#[verifier::external_type_specification]
#[verifier::external_body]
pub struct ExClient(reqwest::Client);

#[verifier::external_type_specification]
#[verifier::external_body]
pub struct ExClientBuilder(reqwest::ClientBuilder);

/// The client that `miniflux_api::MinifluxApi::new_from_token` builds for a URL and a
/// token. Its source builds the value from a copy of the URL and the token alone.
pub uninterp spec fn token_client(url: url::Url, token: Seq<char>) -> miniflux_api::MinifluxApi;

/// The client that `miniflux_api::MinifluxApi::new` builds for a URL, a username and a
/// password. Its source builds the value from a copy of the URL and the basic
/// authentication header of `username:password` alone.
pub uninterp spec fn basic_client(
    url: url::Url,
    username: Seq<char>,
    password: Seq<char>,
) -> miniflux_api::MinifluxApi;

/// `miniflux_api::MinifluxApi::new_from_token` builds a client that sends the token with
/// every request. Trusted: it cannot fail or panic, and its result is the one that
/// `token_client` names for its arguments.
pub assume_specification[ miniflux_api::MinifluxApi::new_from_token ](
    url: &url::Url,
    token: String,
) -> (r: miniflux_api::MinifluxApi)
    ensures
        r == token_client(*url, token@),
;

/// `miniflux_api::MinifluxApi::new` builds a client that sends basic authentication with
/// every request. Trusted: it cannot fail or panic, and its result is the one that
/// `basic_client` names for its arguments, username before password.
pub assume_specification[ miniflux_api::MinifluxApi::new ](
    url: &url::Url,
    username: String,
    password: String,
) -> (r: miniflux_api::MinifluxApi)
    ensures
        r == basic_client(*url, username@, password@),
;

/// `reqwest::Client::builder` starts an HTTP client configuration with default settings.
/// It only calls `ClientBuilder::new`, which cannot fail or panic; the builder is opaque
/// here, so nothing is stated of it.
pub assume_specification[ reqwest::Client::builder ]() -> reqwest::ClientBuilder;

/// Calls `reqwest::ClientBuilder::build`, which reports, rather than panics on, a TLS
/// backend or a resolver that cannot be set up, and hands back the error's display text.
/// Whether it succeeds depends on the machine, not on any argument, so nothing is stated of
/// the outcome.
#[verifier::external_body]
fn build_http_client(builder: reqwest::ClientBuilder) -> Result<reqwest::Client, String> {
    match builder.build() {
        Ok(client) => Ok(client),
        Err(e) => Err(e.to_string()),
    }
}

/// How the server authenticates to Miniflux.
pub enum Auth {
    Token(String),
    UserPass { username: String, password: String },
}

/// Credentials as contracts speak of them.
pub enum AuthView {
    Token(Seq<char>),
    UserPass { username: Seq<char>, password: Seq<char> },
}

impl View for Auth {
    type V = AuthView;

    open spec fn view(&self) -> AuthView {
        match self {
            Auth::Token(token) => AuthView::Token(token@),
            Auth::UserPass { username, password } => AuthView::UserPass {
                username: username@,
                password: password@,
            },
        }
    }
}

/// The settings the server runs with.
pub struct Config {
    pub url: ParsedUrl,
    pub auth: Auth,
    pub read_only: bool,
}

/// Settings as contracts speak of them: the URL by its text.
pub struct ConfigView {
    pub url: Seq<char>,
    pub auth: AuthView,
    pub read_only: bool,
}

impl View for Config {
    type V = ConfigView;

    open spec fn view(&self) -> ConfigView {
        ConfigView { url: self.url@, auth: self.auth@, read_only: self.read_only }
    }
}

/// An optional text, taken by its characters.
pub open spec fn opt_text(s: Option<String>) -> Option<Seq<char>> {
    match s {
        Some(t) => Some(t@),
        None => None,
    }
}

/// The refusal when only one of username and password is given.
pub open spec fn partial_userpass_message() -> Seq<char> {
    "Both --username and --password are required for user/pass auth"@
}

/// The refusal when no credentials are given.
pub open spec fn missing_auth_message() -> Seq<char> {
    "Authentication required: provide --api-token or --username + --password"@
}

/// The refusal when a token is given together with a username and a password.
pub open spec fn conflicting_auth_message() -> Seq<char> {
    "Provide either --api-token or --username + --password, not both"@
}

/// The credentials chosen from what was given: either a token or a username with its
/// password, not both and not neither. Username and password count only together.
pub open spec fn chosen_auth(
    api_token: Option<Seq<char>>,
    username: Option<Seq<char>>,
    password: Option<Seq<char>>,
) -> Result<AuthView, Seq<char>> {
    match (api_token, username, password) {
        (Some(_), Some(_), Some(_)) => Err(conflicting_auth_message()),
        (Some(token), _, _) => Ok(AuthView::Token(token)),
        (None, Some(user), Some(pass)) => Ok(AuthView::UserPass { username: user, password: pass }),
        (None, None, None) => Err(missing_auth_message()),
        _ => Err(partial_userpass_message()),
    }
}

/// The settings built from what was given: the URL is checked first, then the credentials.
pub open spec fn configured(
    url: Seq<char>,
    api_token: Option<Seq<char>>,
    username: Option<Seq<char>>,
    password: Option<Seq<char>>,
    read_only: bool,
) -> Result<ConfigView, Seq<char>> {
    if !parses_as_url(url) {
        Err(invalid_url_message(url))
    } else {
        match chosen_auth(api_token, username, password) {
            Ok(auth) => Ok(ConfigView { url, auth, read_only }),
            Err(message) => Err(message),
        }
    }
}

/// The Miniflux client for the settings: built from the parse of the URL text, with the
/// token, or with the username and the password, as the settings hold them.
pub open spec fn api_for(c: ConfigView) -> miniflux_api::MinifluxApi {
    match c.auth {
        AuthView::Token(token) => token_client(parsed_url_value(c.url), token),
        AuthView::UserPass { username, password } => basic_client(
            parsed_url_value(c.url),
            username,
            password,
        ),
    }
}

/// A result of building settings, taken by its views.
pub open spec fn config_result_view(r: Result<Config, String>) -> Result<ConfigView, Seq<char>> {
    match r {
        Ok(c) => Ok(c@),
        Err(m) => Err(m@),
    }
}

impl Config {
    /// Builds the settings from the command line: the Miniflux URL, either an API token or a
    /// username with its password, and whether writes are refused.
    pub fn new(
        url: String,
        api_token: Option<String>,
        username: Option<String>,
        password: Option<String>,
        read_only: bool,
    ) -> (r: Result<Config, String>)
        ensures
            config_result_view(r) == configured(
                url@,
                opt_text(api_token),
                opt_text(username),
                opt_text(password),
                read_only,
            ),
    {
        let url = match ParsedUrl::parse(url.as_str()) {
            Ok(parsed) => parsed,
            Err(message) => return Err(message),
        };
        let auth = match (api_token, username, password) {
            (Some(_), Some(_), Some(_)) => {
                return Err(
                    String::from_str(
                        "Provide either --api-token or --username + --password, not both",
                    ),
                );
            },
            (Some(token), _, _) => Auth::Token(token),
            (None, Some(user), Some(pass)) => Auth::UserPass { username: user, password: pass },
            (None, None, None) => {
                return Err(
                    String::from_str(
                        "Authentication required: provide --api-token or --username + --password",
                    ),
                );
            },
            _ => {
                return Err(
                    String::from_str(
                        "Both --username and --password are required for user/pass auth",
                    ),
                );
            },
        };
        Ok(Config { url, auth, read_only })
    }

    /// Builds the Miniflux client for these settings, with the chosen credentials.
    pub fn create_api(&self) -> (r: miniflux_api::MinifluxApi)
        ensures
            r == api_for(self@),
    {
        match &self.auth {
            Auth::Token(token) => miniflux_api::MinifluxApi::new_from_token(
                self.url.url(),
                token.clone(),
            ),
            Auth::UserPass { username, password } => miniflux_api::MinifluxApi::new(
                self.url.url(),
                username.clone(),
                password.clone(),
            ),
        }
    }

    /// Builds the HTTP client that carries the requests, or reports, with its message, why
    /// the machine cannot provide one.
    pub fn create_client() -> Result<reqwest::Client, String> {
        build_http_client(reqwest::Client::builder())
    }
}

} // verus!

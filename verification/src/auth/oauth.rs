//! The OAuth clients of the two providers and the addresses the service
//! calls them at.
use vstd::prelude::*;
use vstd::string::*;
use crate::auth::error::{AuthError, UrlParseError};
use crate::text::push_str;
use crate::models::opt_view;

verus! {

/// The kind of `url::ParseError` that `url::Url::parse` reports for `s`;
/// `None` where it accepts `s` as an absolute URL.
pub uninterp spec fn url_parse_error(s: Seq<char>) -> Option<UrlParseError>;

/// `url::Url::parse` accepts `s`.
pub open spec fn url_parses(s: Seq<char>) -> bool {
    url_parse_error(s) is None
}

/// The kind of a `url::ParseError`, one variant for each.
#[verifier::external_body]
fn parse_error_kind(e: url::ParseError) -> (r: UrlParseError) {
    match e {
        url::ParseError::EmptyHost => UrlParseError::EmptyHost,
        url::ParseError::IdnaError => UrlParseError::IdnaError,
        url::ParseError::InvalidPort => UrlParseError::InvalidPort,
        url::ParseError::InvalidIpv4Address => UrlParseError::InvalidIpv4Address,
        url::ParseError::InvalidIpv6Address => UrlParseError::InvalidIpv6Address,
        url::ParseError::InvalidDomainCharacter => UrlParseError::InvalidDomainCharacter,
        url::ParseError::RelativeUrlWithoutBase => UrlParseError::RelativeUrlWithoutBase,
        url::ParseError::RelativeUrlWithCannotBeABaseBase => UrlParseError::RelativeUrlWithCannotBeABaseBase,
        url::ParseError::SetHostOnCannotBeABaseUrl => UrlParseError::SetHostOnCannotBeABaseUrl,
        url::ParseError::Overflow => UrlParseError::Overflow,
        _ => UrlParseError::Other,
    }
}

/// Parses `s` with `url::Url::parse` and keeps only whether it succeeded,
/// with the kind of the error when it failed; the contract names that
/// outcome.
#[verifier::external_body]
fn parse_url(s: &str) -> (r: Result<(), UrlParseError>)
    ensures
        match r {
            Ok(()) => url_parse_error(s@) is None,
            Err(k) => url_parse_error(s@) == Some(k),
        },
{
    url::Url::parse(s).map(|_| ()).map_err(parse_error_kind)
}

/// What the service configures an OAuth client with.
pub struct OAuthClientConfig {
    pub client_id: String,
    pub client_secret: String,
    pub auth_url: String,
    pub token_url: String,
    pub scopes: Vec<String>,
    pub redirect_url: String,
}

/// The address a provider sends the guest back to: the public address of the
/// service followed by `path`.
pub open spec fn redirect_url_of(public_url: Seq<char>, path: Seq<char>) -> Seq<char> {
    public_url + path
}

/// The Facebook client: its fixed endpoints, the `email` scope and the
/// redirect to `<public_url>/facebook/redirect`.
pub open spec fn facebook_client_ok(
    client_id: Seq<char>,
    client_secret: Seq<char>,
    public_url: Seq<char>,
    c: OAuthClientConfig,
) -> bool {
    &&& c.client_id@ == client_id
    &&& c.client_secret@ == client_secret
    &&& c.auth_url@ == "https://www.facebook.com/v5.0/dialog/oauth"@
    &&& c.token_url@ == "https://graph.facebook.com/v5.0/oauth/access_token"@
    &&& c.scopes@.len() == 1
    &&& c.scopes@[0]@ == "email"@
    &&& c.redirect_url@ == redirect_url_of(public_url, "/facebook/redirect"@)
}

/// The Google client: its fixed endpoints, the e-mail and profile scopes and
/// the redirect to `<public_url>/google/redirect`.
pub open spec fn google_client_ok(
    client_id: Seq<char>,
    client_secret: Seq<char>,
    public_url: Seq<char>,
    c: OAuthClientConfig,
) -> bool {
    &&& c.client_id@ == client_id
    &&& c.client_secret@ == client_secret
    &&& c.auth_url@ == "https://accounts.google.com/o/oauth2/v2/auth"@
    &&& c.token_url@ == "https://www.googleapis.com/oauth2/v3/token"@
    &&& c.scopes@.len() == 2
    &&& c.scopes@[0]@ == "https://www.googleapis.com/auth/userinfo.email"@
    &&& c.scopes@[1]@ == "https://www.googleapis.com/auth/userinfo.profile"@
    &&& c.redirect_url@ == redirect_url_of(public_url, "/google/redirect"@)
}

fn joined(a: &str, b: &str) -> (r: String)
    ensures
        r@ == a@ + b@,
{
    let mut s = String::from_str(a);
    push_str(&mut s, b);
    s
}

/// The Facebook OAuth client for the service published at `public_url`,
/// whose redirect address `<public_url>/facebook/redirect` is a URL.
pub fn build_facebook_client(client_id: String, client_secret: String, public_url: &str) -> (r:
    OAuthClientConfig)
    requires
        url_parses(redirect_url_of(public_url@, "/facebook/redirect"@)),
    ensures
        facebook_client_ok(client_id@, client_secret@, public_url@, r),
{
    let mut scopes: Vec<String> = Vec::new();
    scopes.push(String::from_str("email"));
    OAuthClientConfig {
        client_id,
        client_secret,
        auth_url: String::from_str("https://www.facebook.com/v5.0/dialog/oauth"),
        token_url: String::from_str("https://graph.facebook.com/v5.0/oauth/access_token"),
        scopes,
        redirect_url: joined(public_url, "/facebook/redirect"),
    }
}

/// The Facebook OAuth client for the service published at `public_url`, or
/// `BadRedirectUrl` with the parser's error when
/// `<public_url>/facebook/redirect` is not a URL.
pub fn try_build_facebook_client(client_id: String, client_secret: String, public_url: &str) -> (r:
    Result<OAuthClientConfig, AuthError>)
    ensures
        match url_parse_error(redirect_url_of(public_url@, "/facebook/redirect"@)) {
            None => r matches Ok(c) && facebook_client_ok(client_id@, client_secret@, public_url@, c),
            Some(k) => r == Err::<OAuthClientConfig, AuthError>(AuthError::BadRedirectUrl(k)),
        },
{
    let redirect_url = joined(public_url, "/facebook/redirect");
    match parse_url(redirect_url.as_str()) {
        Err(e) => Err(AuthError::BadRedirectUrl(e)),
        Ok(()) => Ok(build_facebook_client(client_id, client_secret, public_url)),
    }
}

/// The Google OAuth client for the service published at `public_url`, whose
/// redirect address `<public_url>/google/redirect` is a URL.
pub fn build_google_client(client_id: String, client_secret: String, public_url: &str) -> (r:
    OAuthClientConfig)
    requires
        url_parses(redirect_url_of(public_url@, "/google/redirect"@)),
    ensures
        google_client_ok(client_id@, client_secret@, public_url@, r),
{
    let mut scopes: Vec<String> = Vec::new();
    scopes.push(String::from_str("https://www.googleapis.com/auth/userinfo.email"));
    scopes.push(String::from_str("https://www.googleapis.com/auth/userinfo.profile"));
    OAuthClientConfig {
        client_id,
        client_secret,
        auth_url: String::from_str("https://accounts.google.com/o/oauth2/v2/auth"),
        token_url: String::from_str("https://www.googleapis.com/oauth2/v3/token"),
        scopes,
        redirect_url: joined(public_url, "/google/redirect"),
    }
}

/// The Google OAuth client for the service published at `public_url`, or
/// `BadRedirectUrl` with the parser's error when
/// `<public_url>/google/redirect` is not a URL.
pub fn try_build_google_client(client_id: String, client_secret: String, public_url: &str) -> (r:
    Result<OAuthClientConfig, AuthError>)
    ensures
        match url_parse_error(redirect_url_of(public_url@, "/google/redirect"@)) {
            None => r matches Ok(c) && google_client_ok(client_id@, client_secret@, public_url@, c),
            Some(k) => r == Err::<OAuthClientConfig, AuthError>(AuthError::BadRedirectUrl(k)),
        },
{
    let redirect_url = joined(public_url, "/google/redirect");
    match parse_url(redirect_url.as_str()) {
        Err(e) => Err(AuthError::BadRedirectUrl(e)),
        Ok(()) => Ok(build_google_client(client_id, client_secret, public_url)),
    }
}

/// A fresh CSRF state from `oauth2::CsrfToken::new_random()`, as its secret
/// text. The value drawn is not stated.
#[verifier::external_body]
fn random_csrf_state() -> (r: String) {
    oauth2::CsrfToken::new_random().secret().clone()
}

/// The address that oauth2's `authorize_url(..).add_scopes(..).url()` builds
/// for a `BasicClient` with the client id `client_id`, the authorization
/// endpoint `auth_url` and the redirect address `redirect_url`, asking for
/// `scopes` and carrying the CSRF state `state`; `None` where oauth2 refuses
/// one of the two addresses.
pub uninterp spec fn oauth_authorize_url(
    client_id: Seq<char>,
    auth_url: Seq<char>,
    redirect_url: Seq<char>,
    scopes: Seq<Seq<char>>,
    state: Seq<char>,
) -> Option<Seq<char>>;

/// The scopes of a client as text.
pub open spec fn scopes_view(scopes: Seq<String>) -> Seq<Seq<char>> {
    scopes.map_values(|s: String| s@)
}

/// Builds the sign-in address with oauth2: `AuthUrl::new` and
/// `RedirectUrl::new`, which parse their address with `url::Url::parse`,
/// `BasicClient::new` and `set_redirect_uri`, then `authorize_url` with the
/// given state, `add_scopes` and `url()`. The contract names the address and
/// says that it is built exactly when both addresses parse.
#[verifier::external_body]
fn authorize_url_with(config: &OAuthClientConfig, state: &str) -> (r: Option<String>)
    ensures
        r is Some <==> (url_parses(config.auth_url@) && url_parses(config.redirect_url@)),
        opt_view(r) == oauth_authorize_url(
            config.client_id@,
            config.auth_url@,
            config.redirect_url@,
            scopes_view(config.scopes@),
            state@,
        ),
{
    let auth_url = oauth2::AuthUrl::new(config.auth_url.clone()).ok()?;
    let redirect_url = oauth2::RedirectUrl::new(config.redirect_url.clone()).ok()?;
    let id = oauth2::ClientId::new(config.client_id.clone());
    let client = oauth2::basic::BasicClient::new(id, None, auth_url, None).set_redirect_uri(redirect_url);
    let csrf = oauth2::CsrfToken::new(state.to_string());
    let scopes = config.scopes.iter().map(|s| oauth2::Scope::new(s.clone()));
    let (url, _) = client.authorize_url(|| csrf).add_scopes(scopes).url();
    Some(url.to_string())
}

/// The address to send a guest to for signing in with the provider, with a
/// freshly drawn CSRF state, and that state; `None` where the authorization
/// endpoint or the redirect address is not a URL.
pub fn gen_authorize_url(config: &OAuthClientConfig) -> (r: Option<(String, String)>)
    ensures
        r is Some <==> (url_parses(config.auth_url@) && url_parses(config.redirect_url@)),
        r matches Some((url, state)) ==> oauth_authorize_url(
            config.client_id@,
            config.auth_url@,
            config.redirect_url@,
            scopes_view(config.scopes@),
            state@,
        ) == Some(url@),
{
    let state = random_csrf_state();
    match authorize_url_with(config, state.as_str()) {
        Some(url) => Some((url, state)),
        None => None,
    }
}

/// The Graph API address that returns the guest's Facebook profile for the
/// given access token.
pub fn facebook_profile_url(access_token: &str) -> (r: String)
    ensures
        r@ == "https://graph.facebook.com/me?fields=id,first_name,last_name,middle_name,gender,picture,email&access_token="@
            + access_token@,
{
    joined(
        "https://graph.facebook.com/me?fields=id,first_name,last_name,middle_name,gender,picture,email&access_token=",
        access_token,
    )
}

/// The address of Google's `userinfo` endpoint.
pub fn google_userinfo_url() -> (r: String)
    ensures
        r@ == "https://www.googleapis.com"@ + "/oauth2/v1/userinfo?alt=json"@,
{
    joined("https://www.googleapis.com", "/oauth2/v1/userinfo?alt=json")
}

/// The `Authorization` header value that presents an access token.
pub fn bearer_header(access_token: &str) -> (r: String)
    ensures
        r@ == "Bearer "@ + access_token@,
{
    joined("Bearer ", access_token)
}

} // verus!

use crate::error::AuthError;
use vstd::prelude::*;
use vstd::string::*;

verus! {

/// The provider's authorization endpoint.
pub const AUTHORIZE_ENDPOINT: &'static str = "https://anilist.co/api/v2/oauth/authorize";

/// The provider's token endpoint.
pub const TOKEN_ENDPOINT: &'static str = "https://anilist.co/api/v2/oauth/token";

/// The loopback address the callback listener binds; the configured
/// redirect URI must point at it.
pub const CALLBACK_ADDR: &'static str = "127.0.0.1:8080";

/// The OAuth2 client registration.
#[derive(Clone, Debug, PartialEq, Eq)]
pub struct AuthConfig {
    pub client_id: String,
    pub client_secret: String,
    pub redirect_uri: String,
}

/// Where to send the user, and the CSRF state that the callback must echo.
#[derive(Clone, Debug, PartialEq, Eq)]
pub struct AuthorizationRequest {
    pub url: String,
    pub csrf_state: String,
}

/// The authorization URL for these parameters, or `None` when the endpoint
/// or the redirect URI is not a valid absolute URL.
pub uninterp spec fn authorize_url_of(
    endpoint: Seq<char>,
    client_id: Seq<char>,
    redirect_uri: Seq<char>,
    scopes: Seq<Seq<char>>,
    state: Seq<char>,
) -> Option<Seq<char>>;

/// Whether `config` forms no authorization URL, whatever the CSRF state.
pub open spec fn config_rejected(config: AuthConfig) -> bool {
    exists|s: Seq<char>|
        s.len() == 22 && (#[trigger] authorize_url_of(
            AUTHORIZE_ENDPOINT@,
            config.client_id@,
            config.redirect_uri@,
            auth_scopes(),
            s,
        )) is None
}

/// The scopes requested from the provider.
pub open spec fn auth_scopes() -> Seq<Seq<char>> {
    seq!["read"@, "write"@]
}

/// Relies on oauth2's `CsrfToken::new_random`: 16 random bytes encoded as
/// unpadded URL-safe base64, so 22 characters.
#[verifier::external_body]
fn random_csrf_state() -> (r: String)
    ensures
        r@.len() == 22,
{
    oauth2::CsrfToken::new_random().secret().clone()
}

/// Relies on oauth2's `BasicClient::authorize_url(..).url()`, with the URL
/// types' `new` for the endpoint and the redirect URI (which fail on a
/// string that is not a URL).
#[verifier::external_body]
fn oauth_authorize_url(
    endpoint: &str,
    client_id: &str,
    redirect_uri: &str,
    scopes: &Vec<String>,
    state: &str,
) -> (r: Option<String>)
    ensures
        match r {
            Some(u) => authorize_url_of(
                endpoint@,
                client_id@,
                redirect_uri@,
                scopes@.map_values(|s: String| s@),
                state@,
            ) == Some(u@),
            None => authorize_url_of(
                endpoint@,
                client_id@,
                redirect_uri@,
                scopes@.map_values(|s: String| s@),
                state@,
            ) is None,
        },
{
    let auth_url = oauth2::AuthUrl::new(endpoint.to_string()).ok()?;
    let redirect = oauth2::RedirectUrl::new(redirect_uri.to_string()).ok()?;
    let id = oauth2::ClientId::new(client_id.to_string());
    let client = oauth2::basic::BasicClient::new(id, None, auth_url, None).set_redirect_uri(redirect);
    let state = oauth2::CsrfToken::new(state.to_string());
    let scopes = scopes.iter().map(|s| oauth2::Scope::new(s.clone()));
    let (url, _) = client.authorize_url(move || state).add_scopes(scopes).url();
    Some(url.to_string())
}

/// The authorization request for `config` that carries `csrf_state`;
/// a configuration that cannot form a URL is a `ConfigError`.
pub fn authorization_request_with_state(config: &AuthConfig, csrf_state: String) -> (r: Result<
    AuthorizationRequest,
    AuthError,
>)
    ensures
        match authorize_url_of(
            AUTHORIZE_ENDPOINT@,
            config.client_id@,
            config.redirect_uri@,
            auth_scopes(),
            csrf_state@,
        ) {
            Some(u) => r matches Ok(req) && req.url@ == u && req.csrf_state == csrf_state,
            None => r matches Err(AuthError::ConfigError(_)),
        },
{
    let scopes = vec![String::from_str("read"), String::from_str("write")];
    assert(scopes@.map_values(|s: String| s@) =~= auth_scopes());
    match oauth_authorize_url(
        AUTHORIZE_ENDPOINT,
        config.client_id.as_str(),
        config.redirect_uri.as_str(),
        &scopes,
        csrf_state.as_str(),
    ) {
        Some(url) => Ok(AuthorizationRequest { url, csrf_state }),
        None => Err(AuthError::ConfigError(String::from_str("invalid authorization URL"))),
    }
}

/// A fresh authorization request for `config`, with a new random CSRF state.
pub fn build_authorization_request(config: &AuthConfig) -> (r: Result<
    AuthorizationRequest,
    AuthError,
>)
    ensures
        match r {
            Ok(req) => req.csrf_state@.len() == 22 && authorize_url_of(
                AUTHORIZE_ENDPOINT@,
                config.client_id@,
                config.redirect_uri@,
                auth_scopes(),
                req.csrf_state@,
            ) == Some(req.url@),
            Err(e) => e is ConfigError && config_rejected(*config),
        },
{
    let state = random_csrf_state();
    authorization_request_with_state(config, state)
}

} // verus!

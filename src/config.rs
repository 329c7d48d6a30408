use vstd::prelude::*;
use vstd::string::*;

verus! {

/// The application's settings as stored on disk.
#[derive(Clone, Debug)]
pub struct Config {
    pub auth_config: AuthConfig,
    pub theme: String,
    pub language: String,
    pub offline_mode: bool,
}

/// The OAuth2 client registration as stored in the settings.
#[derive(Clone, Debug)]
pub struct AuthConfig {
    pub client_id: String,
    pub client_secret: String,
    pub redirect_uri: String,
}

impl Default for Config {
    /// Placeholder credentials, the default theme, English, online.
    fn default() -> (r: Config)
        ensures
            r.auth_config.client_id@ == "your-client-id"@,
            r.auth_config.client_secret@ == "your-client-secret"@,
            r.auth_config.redirect_uri@ == "http://localhost:8080/callback"@,
            r.theme@ == "default"@,
            r.language@ == "en"@,
            !r.offline_mode,
    {
        Config {
            auth_config: AuthConfig {
                client_id: String::from_str("your-client-id"),
                client_secret: String::from_str("your-client-secret"),
                redirect_uri: String::from_str("http://localhost:8080/callback"),
            },
            theme: String::from_str("default"),
            language: String::from_str("en"),
            offline_mode: false,
        }
    }
}

} // verus!

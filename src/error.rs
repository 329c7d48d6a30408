use vstd::prelude::*;
use vstd::string::*;

verus! {

/// Everything that can go wrong while obtaining or keeping a credential.
#[derive(Clone, Debug, PartialEq, Eq)]
pub enum AuthError {
    /// The loopback listener could not bind its port.
    BindFailed,
    /// No callback arrived within the allowed window.
    Timeout,
    /// The callback's request line could not be read as an HTTP request.
    MalformedCallback,
    /// The callback lacked the named query parameter.
    MissingParameter(String),
    /// The callback's `state` differs from the one sent out.
    CsrfMismatch,
    /// The token endpoint refused the grant or could not be reached.
    TokenExchangeFailed(String),
    /// The token endpoint asked to be retried later (rate limit, 5xx).
    Transient(String),
    /// The identity query gave no user id.
    IdentityLookupFailed(String),
    /// The credential store could not be read or written.
    PersistenceFailed(String),
    /// The configuration cannot be turned into a request.
    ConfigError(String),
}

/// The text shown for an error: a fixed phrase for its kind, followed by
/// its detail where it has one.
pub open spec fn message_of(e: AuthError) -> Seq<char> {
    match e {
        AuthError::BindFailed => "could not bind the callback listener"@,
        AuthError::Timeout => "timed out waiting for the callback"@,
        AuthError::MalformedCallback => "malformed callback request"@,
        AuthError::MissingParameter(name) => "callback is missing parameter: "@ + name@,
        AuthError::CsrfMismatch => "CSRF state mismatch, possible security breach"@,
        AuthError::TokenExchangeFailed(d) => "token exchange failed: "@ + d@,
        AuthError::Transient(d) => "temporary failure: "@ + d@,
        AuthError::IdentityLookupFailed(d) => "failed to get user ID: "@ + d@,
        AuthError::PersistenceFailed(d) => "credential store error: "@ + d@,
        AuthError::ConfigError(d) => "configuration error: "@ + d@,
    }
}

impl AuthError {
    /// A copy of the error, field for field.
    pub fn duplicate(&self) -> (r: AuthError)
        ensures
            r == *self,
    {
        match self {
            AuthError::BindFailed => AuthError::BindFailed,
            AuthError::Timeout => AuthError::Timeout,
            AuthError::MalformedCallback => AuthError::MalformedCallback,
            AuthError::MissingParameter(s) => AuthError::MissingParameter(s.clone()),
            AuthError::CsrfMismatch => AuthError::CsrfMismatch,
            AuthError::TokenExchangeFailed(s) => AuthError::TokenExchangeFailed(s.clone()),
            AuthError::Transient(s) => AuthError::Transient(s.clone()),
            AuthError::IdentityLookupFailed(s) => AuthError::IdentityLookupFailed(s.clone()),
            AuthError::PersistenceFailed(s) => AuthError::PersistenceFailed(s.clone()),
            AuthError::ConfigError(s) => AuthError::ConfigError(s.clone()),
        }
    }

    /// A human-readable message; it carries the error's kind and detail
    /// only, never a token.
    pub fn message(&self) -> (r: String)
        ensures
            r@ == message_of(*self),
    {
        match self {
            AuthError::BindFailed => String::from_str("could not bind the callback listener"),
            AuthError::Timeout => String::from_str("timed out waiting for the callback"),
            AuthError::MalformedCallback => String::from_str("malformed callback request"),
            AuthError::MissingParameter(name) => {
                String::from_str("callback is missing parameter: ").concat(name.as_str())
            },
            AuthError::CsrfMismatch => String::from_str(
                "CSRF state mismatch, possible security breach",
            ),
            AuthError::TokenExchangeFailed(d) => {
                String::from_str("token exchange failed: ").concat(d.as_str())
            },
            AuthError::Transient(d) => String::from_str("temporary failure: ").concat(d.as_str()),
            AuthError::IdentityLookupFailed(d) => {
                String::from_str("failed to get user ID: ").concat(d.as_str())
            },
            AuthError::PersistenceFailed(d) => {
                String::from_str("credential store error: ").concat(d.as_str())
            },
            AuthError::ConfigError(d) => String::from_str("configuration error: ").concat(
                d.as_str(),
            ),
        }
    }
}

} // verus!

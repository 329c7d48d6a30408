use crate::authorize::{
    auth_scopes, authorize_url_of, build_authorization_request, config_rejected, AuthConfig,
    AuthorizationRequest, AUTHORIZE_ENDPOINT,
};
use crate::callback::{
    callback_line_result, first_value, parse_callback, query_pairs_of, request_target_of,
    CALLBACK_BASE,
};
use crate::error::AuthError;
use crate::token::{copy_opt_string, copy_string, credential_expired, credential_expired_at, AuthToken};
use vstd::prelude::*;
use vstd::string::*;

verus! {

/// The single persisted credential row.
#[derive(Clone, Debug, PartialEq, Eq)]
pub struct StoredCredential {
    pub user_id: i32,
    pub access_token: String,
    pub refresh_token: Option<String>,
    /// Absolute expiry, seconds since the Unix epoch.
    pub expires_at: Option<i64>,
}

/// What the token endpoint returned for a code or refresh grant.
#[derive(Clone, Debug, PartialEq, Eq)]
pub struct TokenGrant {
    pub access_token: String,
    pub token_type: String,
    pub expires_in: Option<u64>,
    pub refresh_token: Option<String>,
}

/// Where the manager stands in obtaining a credential.
#[derive(Clone, Debug, PartialEq, Eq)]
pub enum Phase {
    Unauthenticated,
    /// Waiting for the stored credential.
    LoadingCredential,
    /// Waiting for a refresh exchange; with `fallback`, a failure starts a
    /// full authorization instead of being reported.
    Refreshing { user_id: Option<i32>, fallback: bool },
    /// A refreshed token waits for the stored row's user id.
    LoadingUser { token: AuthToken },
    /// The browser was sent to the provider; waiting for the redirect.
    AwaitingCallback { csrf_state: String },
    /// Waiting for the code exchange.
    ExchangingCode,
    /// Waiting for the identity query on a new token.
    ResolvingIdentity { token: AuthToken },
    /// Waiting for the store to persist `token`.
    Saving { token: AuthToken, fallback: bool },
    /// Waiting for the store to drop the credential.
    ClearingCredential,
    Authenticated { token: AuthToken },
    /// A token was obtained but could not be attributed to a user or
    /// persisted; the request failed with `error`, and the token may still
    /// be used for this session.
    Unsaved { token: AuthToken, error: AuthError },
    Failed { error: AuthError },
}

/// An outcome of outside work, handed back to the manager.
#[derive(Clone, Debug, PartialEq, Eq)]
pub enum Event {
    /// The store's row, if there is one.
    CredentialLoaded(Option<StoredCredential>),
    /// The store could not be read or written.
    StoreFailed(String),
    /// The callback listener read this request line.
    CallbackReceived(String),
    /// The callback listener failed (bind, timeout, read).
    CallbackFailed(AuthError),
    /// The token endpoint issued a token.
    TokenIssued(TokenGrant),
    /// The token endpoint refused or could not be reached.
    ExchangeFailed(AuthError),
    /// The identity query named this user.
    IdentityResolved(i32),
    /// The identity query failed.
    IdentityFailed(String),
    /// The store saved or cleared the credential as asked.
    StoreUpdated,
}

/// The outside work the manager asks for next.
#[derive(Debug, PartialEq, Eq)]
pub enum Action {
    /// Read the stored credential.
    LoadCredential,
    /// Exchange this refresh token at the token endpoint.
    ExchangeRefresh(String),
    /// Open the URL in the browser and listen for the callback.
    Authorize(AuthorizationRequest),
    /// Exchange this authorization code at the token endpoint.
    ExchangeCode(String),
    /// Ask the API whose access token this is.
    LookupIdentity(String),
    /// Persist this credential, replacing any other.
    SaveCredential(StoredCredential),
    /// Delete the stored credential.
    ClearCredential,
    /// The request is over.
    Finish(Result<AuthToken, AuthError>),
    /// The logout is over.
    LoggedOut(Result<(), AuthError>),
    /// The event does not belong to the current phase; nothing changes.
    Ignore,
}

/// The OAuth2 authentication manager: the decisions of the login flow and
/// of the token lifecycle, driven by the outcomes of outside work.
pub struct AuthManager {
    pub config: AuthConfig,
    pub phase: Phase,
}

pub open spec fn bearer() -> Seq<char> {
    "Bearer"@
}

/// `t` is the token issued by grant `g` at `now`.
pub open spec fn issued_token(t: AuthToken, g: TokenGrant, now: i64) -> bool {
    &&& t.access_token == g.access_token
    &&& t.token_type == g.token_type
    &&& t.expires_in == g.expires_in
    &&& t.refresh_token == g.refresh_token
    &&& t.created_at == now
}

/// `t` is the token handed out for a stored credential that is still valid
/// at `now`: the same access and refresh tokens, issued at `now` with a
/// lifetime up to the stored expiry, so that it expires when the stored
/// credential does.
pub open spec fn token_from_stored(t: AuthToken, c: StoredCredential, now: i64) -> bool {
    &&& t.access_token == c.access_token
    &&& t.token_type@ == bearer()
    &&& t.refresh_token == c.refresh_token
    &&& t.expires_in == match c.expires_at {
        Some(at) => Some(
            if at - now > 0 {
                (at - now) as u64
            } else {
                0u64
            },
        ),
        None => None::<u64>,
    }
    &&& t.created_at == now
}

/// `c` persists token `t` for `user_id`.
pub open spec fn credential_of(c: StoredCredential, user_id: i32, t: AuthToken) -> bool {
    &&& c.user_id == user_id
    &&& c.access_token == t.access_token
    &&& c.refresh_token == t.refresh_token
    &&& c.expires_at == t.spec_expires_at()
}

/// `m2` and `a` start a full authorization for `config`.
pub open spec fn starts_authorization(config: AuthConfig, m2: AuthManager, a: Action) -> bool {
    &&& m2.config == config
    &&& match a {
        Action::Authorize(req) => {
            &&& m2.phase == Phase::AwaitingCallback { csrf_state: req.csrf_state }
            &&& authorize_url_of(
                AUTHORIZE_ENDPOINT@,
                config.client_id@,
                config.redirect_uri@,
                auth_scopes(),
                req.csrf_state@,
            ) == Some(req.url@)
        },
        Action::Finish(Err(e)) => {
            &&& e is ConfigError
            &&& config_rejected(config)
            &&& m2.phase == Phase::Failed { error: e }
        },
        _ => false,
    }
}

/// `m2` and `a` end the request with error `e`.
pub open spec fn fails_with(m: AuthManager, e: AuthError, m2: AuthManager, a: Action) -> bool {
    &&& m2.config == m.config
    &&& m2.phase == Phase::Failed { error: e }
    &&& a == Action::Finish(Err(e))
}

/// `m2` and `a` end the request with error `e`, keeping `token` in hand
/// unsaved.
pub open spec fn fails_unsaved(
    m: AuthManager,
    token: AuthToken,
    e: AuthError,
    m2: AuthManager,
    a: Action,
) -> bool {
    &&& m2.config == m.config
    &&& m2.phase == Phase::Unsaved { token, error: e }
    &&& a == Action::Finish(Err(e))
}

/// `m2` asks for `a` from `phase`, with the configuration kept.
pub open spec fn moves_to(m: AuthManager, phase: Phase, m2: AuthManager, a: Action, a2: Action) -> bool {
    &&& m2.config == m.config
    &&& m2.phase == phase
    &&& a == a2
}

/// What handling `e` at time `now` does: `m` becomes `m2` and asks for `a`.
pub open spec fn step(m: AuthManager, e: Event, now: i64, m2: AuthManager, a: Action) -> bool {
    match (m.phase, e) {
        (Phase::LoadingCredential, Event::CredentialLoaded(None)) => starts_authorization(
            m.config,
            m2,
            a,
        ),
        (Phase::LoadingCredential, Event::CredentialLoaded(Some(c))) => {
            if !credential_expired_at(c.expires_at, now as int) {
                &&& m2.config == m.config
                &&& a matches Action::Finish(Ok(t))
                &&& token_from_stored(t, c, now)
                &&& m2.phase == Phase::Authenticated { token: t }
            } else {
                match c.refresh_token {
                    Some(r) => moves_to(
                        m,
                        Phase::Refreshing { user_id: Some(c.user_id), fallback: true },
                        m2,
                        a,
                        Action::ExchangeRefresh(r),
                    ),
                    None => starts_authorization(m.config, m2, a),
                }
            }
        },
        (Phase::LoadingCredential, Event::StoreFailed(d)) => fails_with(
            m,
            AuthError::PersistenceFailed(d),
            m2,
            a,
        ),
        (Phase::Refreshing { user_id, fallback }, Event::TokenIssued(g)) => {
            &&& m2.config == m.config
            &&& match user_id {
                Some(id) => {
                    &&& m2.phase matches Phase::Saving { token, fallback: f }
                    &&& f == fallback
                    &&& issued_token(token, g, now)
                    &&& a matches Action::SaveCredential(c)
                    &&& credential_of(c, id, token)
                },
                None => {
                    &&& m2.phase matches Phase::LoadingUser { token }
                    &&& issued_token(token, g, now)
                    &&& a == Action::LoadCredential
                },
            }
        },
        (Phase::Refreshing { user_id, fallback }, Event::ExchangeFailed(err)) => if fallback {
            starts_authorization(m.config, m2, a)
        } else {
            fails_with(m, err, m2, a)
        },
        (Phase::LoadingUser { token }, Event::CredentialLoaded(Some(c))) => {
            &&& m2.config == m.config
            &&& m2.phase == Phase::Saving { token, fallback: false }
            &&& a matches Action::SaveCredential(s)
            &&& credential_of(s, c.user_id, token)
        },
        (Phase::LoadingUser { token }, Event::CredentialLoaded(None)) | (
            Phase::LoadingUser { token },
            Event::StoreFailed(_),
        ) => {
            &&& m2.config == m.config
            &&& m2.phase == Phase::ResolvingIdentity { token }
            &&& a matches Action::LookupIdentity(s)
            &&& s == token.access_token
        },
        (Phase::AwaitingCallback { csrf_state }, Event::CallbackReceived(line)) => {
            exists|r: Result<String, AuthError>|
                {
                    &&& #[trigger] callback_line_result(line@, csrf_state@, r)
                    &&& match r {
                        Ok(code) => moves_to(
                            m,
                            Phase::ExchangingCode,
                            m2,
                            a,
                            Action::ExchangeCode(code),
                        ),
                        Err(err) => fails_with(m, err, m2, a),
                    }
                }
        },
        (Phase::AwaitingCallback { .. }, Event::CallbackFailed(err)) => fails_with(m, err, m2, a),
        (Phase::ExchangingCode, Event::TokenIssued(g)) => {
            &&& m2.config == m.config
            &&& m2.phase matches Phase::ResolvingIdentity { token }
            &&& issued_token(token, g, now)
            &&& a matches Action::LookupIdentity(s)
            &&& s == token.access_token
        },
        (Phase::ExchangingCode, Event::ExchangeFailed(err)) => fails_with(m, err, m2, a),
        (Phase::ResolvingIdentity { token }, Event::IdentityResolved(id)) => {
            &&& m2.config == m.config
            &&& m2.phase == Phase::Saving { token, fallback: false }
            &&& a matches Action::SaveCredential(c)
            &&& credential_of(c, id, token)
        },
        (Phase::ResolvingIdentity { token }, Event::IdentityFailed(d)) => fails_unsaved(
            m,
            token,
            AuthError::IdentityLookupFailed(d),
            m2,
            a,
        ),
        (Phase::Saving { token, .. }, Event::StoreUpdated) => moves_to(
            m,
            Phase::Authenticated { token },
            m2,
            a,
            Action::Finish(Ok(token)),
        ),
        (Phase::Saving { token, fallback }, Event::StoreFailed(d)) => if fallback {
            starts_authorization(m.config, m2, a)
        } else {
            fails_unsaved(m, token, AuthError::PersistenceFailed(d), m2, a)
        },
        (Phase::ClearingCredential, Event::StoreUpdated) => moves_to(
            m,
            Phase::Unauthenticated,
            m2,
            a,
            Action::LoggedOut(Ok(())),
        ),
        (Phase::ClearingCredential, Event::StoreFailed(d)) => moves_to(
            m,
            Phase::Unauthenticated,
            m2,
            a,
            Action::LoggedOut(Err(AuthError::PersistenceFailed(d))),
        ),
        _ => m2 == m && a == Action::Ignore,
    }
}

/// `m2` and `a` are how `ensure_authenticated` starts from `m`.
pub open spec fn ensure_started(m: AuthManager, m2: AuthManager, a: Action) -> bool {
    &&& m2.config == m.config
    &&& m2.phase == Phase::LoadingCredential
    &&& a == Action::LoadCredential
}

/// `m2` and `a` are how `logout` starts from `m`.
pub open spec fn logout_started(m: AuthManager, m2: AuthManager, a: Action) -> bool {
    &&& m2.config == m.config
    &&& m2.phase == Phase::ClearingCredential
    &&& a == Action::ClearCredential
}

fn issue(g: TokenGrant, now: i64) -> (t: AuthToken)
    ensures
        issued_token(t, g, now),
{
    AuthToken {
        access_token: g.access_token,
        token_type: g.token_type,
        expires_in: g.expires_in,
        refresh_token: g.refresh_token,
        created_at: now,
    }
}

fn from_stored(c: StoredCredential, now: i64) -> (t: AuthToken)
    ensures
        token_from_stored(t, c, now),
{
    let expires_in = match c.expires_at {
        Some(at) => {
            let left: i128 = (at as i128) - (now as i128);
            if left > 0 {
                Some(left as u64)
            } else {
                Some(0u64)
            }
        },
        None => None,
    };
    AuthToken {
        access_token: c.access_token,
        token_type: String::from_str("Bearer"),
        expires_in,
        refresh_token: c.refresh_token,
        created_at: now,
    }
}

fn credential_for(user_id: i32, t: &AuthToken) -> (c: StoredCredential)
    ensures
        credential_of(c, user_id, *t),
{
    StoredCredential {
        user_id,
        access_token: copy_string(&t.access_token),
        refresh_token: copy_opt_string(&t.refresh_token),
        expires_at: t.expires_at(),
    }
}

impl AuthManager {
    /// A manager for `config`, with no credential in hand.
    pub fn new(config: AuthConfig) -> (r: AuthManager)
        ensures
            r.config == config,
            r.phase == Phase::Unauthenticated,
    {
        AuthManager { config, phase: Phase::Unauthenticated }
    }

    fn fail(&mut self, e: AuthError) -> (a: Action)
        ensures
            fails_with(*old(self), e, *final(self), a),
    {
        let copy = e.duplicate();
        self.phase = Phase::Failed { error: copy };
        Action::Finish(Err(e))
    }

    /// Starts a full authorization: a fresh CSRF state and the URL to send
    /// the user to. A configuration that forms no URL fails the request with
    /// a `ConfigError`.
    pub fn authenticate(&mut self) -> (a: Action)
        ensures
            starts_authorization(old(self).config, *final(self), a),
    {
        match build_authorization_request(&self.config) {
            Ok(req) => {
                self.phase = Phase::AwaitingCallback { csrf_state: copy_string(&req.csrf_state) };
                Action::Authorize(req)
            },
            Err(e) => self.fail(e),
        }
    }

    /// Starts exchanging `refresh_token` for a new token; a failure is
    /// reported to the caller.
    pub fn refresh_token(&mut self, refresh_token: &str) -> (a: Action)
        ensures
            final(self).config == old(self).config,
            final(self).phase == (Phase::Refreshing { user_id: None, fallback: false }),
            a matches Action::ExchangeRefresh(r) && r@ == refresh_token@,
    {
        self.phase = Phase::Refreshing { user_id: None, fallback: false };
        Action::ExchangeRefresh(String::from_str(refresh_token))
    }

    /// Starts making sure a usable token is at hand: first the stored
    /// credential is read.
    pub fn ensure_authenticated(&mut self) -> (a: Action)
        ensures
            ensure_started(*old(self), *final(self), a),
    {
        self.phase = Phase::LoadingCredential;
        Action::LoadCredential
    }

    /// Starts a logout: the token in hand is dropped and the stored
    /// credential is to be deleted. No network call.
    pub fn logout(&mut self) -> (a: Action)
        ensures
            logout_started(*old(self), *final(self), a),
    {
        self.phase = Phase::ClearingCredential;
        Action::ClearCredential
    }

    /// The token in hand: after a request that succeeded, or one whose new
    /// token could not be attributed to a user or saved.
    pub fn current_token(&self) -> (r: Option<&AuthToken>)
        ensures
            match self.phase {
                Phase::Authenticated { token } => r == Some(&token),
                Phase::Unsaved { token, .. } => r == Some(&token),
                _ => r is None,
            },
    {
        match &self.phase {
            Phase::Authenticated { token } => Some(token),
            Phase::Unsaved { token, .. } => Some(token),
            _ => None,
        }
    }

    fn fail_unsaved(&mut self, token: AuthToken, e: AuthError) -> (a: Action)
        ensures
            fails_unsaved(*old(self), token, e, *final(self), a),
    {
        self.phase = Phase::Unsaved { token, error: e.duplicate() };
        Action::Finish(Err(e))
    }

    /// Handles the outcome of the outside work last asked for, at time
    /// `now` (seconds since the Unix epoch), and says what to do next.
    pub fn handle(&mut self, event: Event, now: i64) -> (a: Action)
        ensures
            step(*old(self), event, now, *final(self), a),
    {
        let mut phase = Phase::Unauthenticated;
        std::mem::swap(&mut self.phase, &mut phase);
        match (phase, event) {
            (Phase::LoadingCredential, Event::CredentialLoaded(None)) => self.authenticate(),
            (Phase::LoadingCredential, Event::CredentialLoaded(Some(c))) => {
                if !credential_expired(c.expires_at, now) {
                    let t = from_stored(c, now);
                    self.phase = Phase::Authenticated { token: t.duplicate() };
                    Action::Finish(Ok(t))
                } else {
                    match c.refresh_token {
                        Some(r) => {
                            self.phase = Phase::Refreshing { user_id: Some(c.user_id), fallback: true };
                            Action::ExchangeRefresh(r)
                        },
                        None => self.authenticate(),
                    }
                }
            },
            (Phase::LoadingCredential, Event::StoreFailed(d)) => self.fail(
                AuthError::PersistenceFailed(d),
            ),
            (Phase::Refreshing { user_id, fallback }, Event::TokenIssued(g)) => {
                let t = issue(g, now);
                match user_id {
                    Some(id) => {
                        let c = credential_for(id, &t);
                        self.phase = Phase::Saving { token: t, fallback };
                        Action::SaveCredential(c)
                    },
                    None => {
                        self.phase = Phase::LoadingUser { token: t };
                        Action::LoadCredential
                    },
                }
            },
            (Phase::Refreshing { user_id, fallback }, Event::ExchangeFailed(err)) => {
                if fallback {
                    self.authenticate()
                } else {
                    self.fail(err)
                }
            },
            (Phase::LoadingUser { token }, Event::CredentialLoaded(Some(c))) => {
                let s = credential_for(c.user_id, &token);
                self.phase = Phase::Saving { token, fallback: false };
                Action::SaveCredential(s)
            },
            (Phase::LoadingUser { token }, Event::CredentialLoaded(None)) => {
                let s = copy_string(&token.access_token);
                self.phase = Phase::ResolvingIdentity { token };
                Action::LookupIdentity(s)
            },
            (Phase::LoadingUser { token }, Event::StoreFailed(_)) => {
                let s = copy_string(&token.access_token);
                self.phase = Phase::ResolvingIdentity { token };
                Action::LookupIdentity(s)
            },
            (Phase::AwaitingCallback { csrf_state }, Event::CallbackReceived(line)) => {
                let r = parse_callback(line.as_str(), csrf_state.as_str());
                match r {
                    Ok(code) => {
                        self.phase = Phase::ExchangingCode;
                        Action::ExchangeCode(code)
                    },
                    Err(err) => self.fail(err),
                }
            },
            (Phase::AwaitingCallback { .. }, Event::CallbackFailed(err)) => self.fail(err),
            (Phase::ExchangingCode, Event::TokenIssued(g)) => {
                let t = issue(g, now);
                let s = copy_string(&t.access_token);
                self.phase = Phase::ResolvingIdentity { token: t };
                Action::LookupIdentity(s)
            },
            (Phase::ExchangingCode, Event::ExchangeFailed(err)) => self.fail(err),
            (Phase::ResolvingIdentity { token }, Event::IdentityResolved(id)) => {
                let c = credential_for(id, &token);
                self.phase = Phase::Saving { token, fallback: false };
                Action::SaveCredential(c)
            },
            (Phase::ResolvingIdentity { token }, Event::IdentityFailed(d)) => self.fail_unsaved(
                token,
                AuthError::IdentityLookupFailed(d),
            ),
            (Phase::Saving { token, .. }, Event::StoreUpdated) => {
                self.phase = Phase::Authenticated { token: token.duplicate() };
                Action::Finish(Ok(token))
            },
            (Phase::Saving { token, fallback }, Event::StoreFailed(d)) => {
                if fallback {
                    self.authenticate()
                } else {
                    self.fail_unsaved(token, AuthError::PersistenceFailed(d))
                }
            },
            (Phase::ClearingCredential, Event::StoreUpdated) => {
                self.phase = Phase::Unauthenticated;
                Action::LoggedOut(Ok(()))
            },
            (Phase::ClearingCredential, Event::StoreFailed(d)) => {
                self.phase = Phase::Unauthenticated;
                Action::LoggedOut(Err(AuthError::PersistenceFailed(d)))
            },
            (other, _) => {
                self.phase = other;
                Action::Ignore
            },
        }
    }
}

/// A callback whose `state` differs from the one sent out fails the request
/// with `CsrfMismatch`; no code is exchanged.
pub proof fn lemma_csrf_mismatch_aborts(
    m: AuthManager,
    line: String,
    now: i64,
    m2: AuthManager,
    a: Action,
    target: Seq<char>,
    pairs: Seq<(Seq<char>, Seq<char>)>,
)
    requires
        m.phase is AwaitingCallback,
        request_target_of(line@) == Some(target),
        query_pairs_of(CALLBACK_BASE@ + target) == Some(pairs),
        first_value(pairs, "code"@) is Some,
        first_value(pairs, "state"@) matches Some(s) && s != m.phase->csrf_state@,
        step(m, Event::CallbackReceived(line), now, m2, a),
    ensures
        a == Action::Finish(Err(AuthError::CsrfMismatch)),
        m2.phase == (Phase::Failed { error: AuthError::CsrfMismatch }),
        !(a is ExchangeCode),
{
    let r = choose|r: Result<String, AuthError>|
        {
            &&& #[trigger] callback_line_result(line@, m.phase->csrf_state@, r)
            &&& match r {
                Ok(code) => moves_to(m, Phase::ExchangingCode, m2, a, Action::ExchangeCode(code)),
                Err(err) => fails_with(m, err, m2, a),
            }
        };
    assert(r == Err::<String, AuthError>(AuthError::CsrfMismatch));
}

/// A CSRF state serves one callback only: once a callback has been handled,
/// whatever it held, the manager awaits no other.
pub proof fn lemma_csrf_state_single_use(m: AuthManager, line: String, now: i64, m2: AuthManager, a: Action)
    requires
        m.phase is AwaitingCallback,
        step(m, Event::CallbackReceived(line), now, m2, a),
    ensures
        m2.phase !is AwaitingCallback,
{
    let r = choose|r: Result<String, AuthError>|
        {
            &&& #[trigger] callback_line_result(line@, m.phase->csrf_state@, r)
            &&& match r {
                Ok(code) => moves_to(m, Phase::ExchangingCode, m2, a, Action::ExchangeCode(code)),
                Err(err) => fails_with(m, err, m2, a),
            }
        };
}

/// With a stored credential that is still valid, `ensure_authenticated`
/// asks only for the stored row, then returns that credential's access
/// token unchanged: no network call.
pub proof fn lemma_valid_credential_reused(
    m0: AuthManager,
    m1: AuthManager,
    a1: Action,
    c: StoredCredential,
    now: i64,
    m2: AuthManager,
    a2: Action,
)
    requires
        ensure_started(m0, m1, a1),
        !credential_expired_at(c.expires_at, now as int),
        step(m1, Event::CredentialLoaded(Some(c)), now, m2, a2),
    ensures
        a1 == Action::LoadCredential,
        a2 matches Action::Finish(Ok(t)) && t.access_token == c.access_token,
        m2.phase is Authenticated,
{
}

/// With a stored credential that has expired and has a refresh token,
/// `ensure_authenticated` asks for exactly one refresh exchange with that
/// token; if it fails, a full authorization starts, and if it succeeds, the
/// new token is saved.
pub proof fn lemma_expired_credential_refreshed(
    m0: AuthManager,
    m1: AuthManager,
    a1: Action,
    c: StoredCredential,
    now: i64,
    m2: AuthManager,
    a2: Action,
)
    requires
        ensure_started(m0, m1, a1),
        credential_expired_at(c.expires_at, now as int),
        c.refresh_token is Some,
        step(m1, Event::CredentialLoaded(Some(c)), now, m2, a2),
    ensures
        a2 == Action::ExchangeRefresh(c.refresh_token->0),
        forall|e: AuthError, later: i64, m3: AuthManager, a3: Action|
            #[trigger] step(m2, Event::ExchangeFailed(e), later, m3, a3) ==> starts_authorization(
                m0.config,
                m3,
                a3,
            ),
        forall|g: TokenGrant, later: i64, m3: AuthManager, a3: Action|
            #[trigger] step(m2, Event::TokenIssued(g), later, m3, a3) ==> (a3 matches Action::SaveCredential(
                s,
            ) && s.user_id == c.user_id && s.access_token == g.access_token),
{
}

/// After a logout whose clearing succeeded, `ensure_authenticated` finds no
/// stored credential and goes through the full authorization: the cleared
/// credential is never used again.
pub proof fn lemma_logout_forces_authorization(
    m0: AuthManager,
    m1: AuthManager,
    a1: Action,
    now: i64,
    m2: AuthManager,
    a2: Action,
    m3: AuthManager,
    a3: Action,
    later: i64,
    m4: AuthManager,
    a4: Action,
)
    requires
        logout_started(m0, m1, a1),
        step(m1, Event::StoreUpdated, now, m2, a2),
        ensure_started(m2, m3, a3),
        step(m3, Event::CredentialLoaded(None), later, m4, a4),
    ensures
        a1 == Action::ClearCredential,
        m1.phase !is Authenticated,
        a2 == Action::LoggedOut(Ok(())),
        m2.phase == Phase::Unauthenticated,
        a3 == Action::LoadCredential,
        starts_authorization(m0.config, m4, a4),
        a4 is Authorize || a4 matches Action::Finish(Err(AuthError::ConfigError(_))),
{
}

/// After `authenticate` has sent the user to the authorization URL, a
/// callback whose `state` differs from the one embedded in that URL fails
/// the request with `CsrfMismatch`, and no code is exchanged.
pub proof fn lemma_authorization_rejects_forged_state(
    m0: AuthManager,
    m1: AuthManager,
    req: AuthorizationRequest,
    line: String,
    now: i64,
    m2: AuthManager,
    a2: Action,
    target: Seq<char>,
    pairs: Seq<(Seq<char>, Seq<char>)>,
)
    requires
        starts_authorization(m0.config, m1, Action::Authorize(req)),
        request_target_of(line@) == Some(target),
        query_pairs_of(CALLBACK_BASE@ + target) == Some(pairs),
        first_value(pairs, "code"@) is Some,
        first_value(pairs, "state"@) matches Some(s) && s != req.csrf_state@,
        step(m1, Event::CallbackReceived(line), now, m2, a2),
    ensures
        a2 == Action::Finish(Err(AuthError::CsrfMismatch)),
        !(a2 is ExchangeCode),
{
    lemma_csrf_mismatch_aborts(m1, line, now, m2, a2, target, pairs);
}

/// After `authenticate` has sent the user to the authorization URL, a
/// callback without `code` fails the request with `MissingParameter("code")`,
/// and one with a code but no `state` with `MissingParameter("state")`; no
/// code is exchanged.
pub proof fn lemma_authorization_missing_parameter(
    m0: AuthManager,
    m1: AuthManager,
    req: AuthorizationRequest,
    line: String,
    now: i64,
    m2: AuthManager,
    a2: Action,
    target: Seq<char>,
    pairs: Seq<(Seq<char>, Seq<char>)>,
)
    requires
        starts_authorization(m0.config, m1, Action::Authorize(req)),
        request_target_of(line@) == Some(target),
        query_pairs_of(CALLBACK_BASE@ + target) == Some(pairs),
        first_value(pairs, "code"@) is None || first_value(pairs, "state"@) is None,
        step(m1, Event::CallbackReceived(line), now, m2, a2),
    ensures
        first_value(pairs, "code"@) is None ==> (a2 matches Action::Finish(
            Err(AuthError::MissingParameter(n)),
        ) && n@ == "code"@),
        first_value(pairs, "code"@) is Some ==> (a2 matches Action::Finish(
            Err(AuthError::MissingParameter(n)),
        ) && n@ == "state"@),
        !(a2 is ExchangeCode),
{
    let r = choose|r: Result<String, AuthError>|
        {
            &&& #[trigger] callback_line_result(line@, req.csrf_state@, r)
            &&& match r {
                Ok(code) => moves_to(m1, Phase::ExchangingCode, m2, a2, Action::ExchangeCode(code)),
                Err(err) => fails_with(m1, err, m2, a2),
            }
        };
}

} // verus!

use anilist_client::authorize::AuthConfig;
use anilist_client::error::AuthError;
use anilist_client::manager::{Action, AuthManager, Event, Phase, StoredCredential, TokenGrant};
use anilist_client::token::AuthToken;

fn config() -> AuthConfig {
    AuthConfig {
        client_id: "id1".to_string(),
        client_secret: "secret1".to_string(),
        redirect_uri: "http://127.0.0.1:8080/callback".to_string(),
    }
}

fn grant(access: &str, expires_in: Option<u64>, refresh: Option<&str>) -> TokenGrant {
    TokenGrant {
        access_token: access.to_string(),
        token_type: "Bearer".to_string(),
        expires_in,
        refresh_token: refresh.map(|r| r.to_string()),
    }
}

/// Starts a full authorization and returns the CSRF state it sent out.
fn start_authorization(m: &mut AuthManager) -> String {
    match m.authenticate() {
        Action::Authorize(req) => {
            assert!(req.url.contains(&format!("state={}", req.csrf_state)));
            req.csrf_state
        }
        other => panic!("expected an authorization, got {:?}", other),
    }
}

fn callback_line(code: &str, state: &str) -> String {
    format!("GET /callback?code={}&state={} HTTP/1.1\r\n", code, state)
}

#[test]
fn end_to_end_first_login() {
    let mut m = AuthManager::new(config());
    let now: i64 = 1_700_000_000;
    let mut saves = 0;
    let mut exchanges = Vec::new();

    assert_eq!(m.ensure_authenticated(), Action::LoadCredential);
    let state = match m.handle(Event::CredentialLoaded(None), now) {
        Action::Authorize(req) => {
            assert!(req.url.starts_with("https://anilist.co/api/v2/oauth/authorize?"));
            assert!(req.url.contains("client_id=id1"));
            assert!(req.url.contains("response_type=code"));
            assert!(req.url.contains("scope=read+write"));
            assert!(req.url.contains("redirect_uri=http%3A%2F%2F127.0.0.1%3A8080%2Fcallback"));
            assert_eq!(req.csrf_state.len(), 22);
            req.csrf_state
        }
        other => panic!("expected an authorization, got {:?}", other),
    };

    let a = m.handle(Event::CallbackReceived(callback_line("abc123", &state)), now);
    match a {
        Action::ExchangeCode(code) => exchanges.push(code),
        other => panic!("expected a code exchange, got {:?}", other),
    }
    assert_eq!(exchanges, vec!["abc123".to_string()]);

    let a = m.handle(Event::TokenIssued(grant("tok1", Some(3600), Some("ref1"))), now);
    assert_eq!(a, Action::LookupIdentity("tok1".to_string()));

    let a = m.handle(Event::IdentityResolved(42), now);
    match a {
        Action::SaveCredential(c) => {
            saves += 1;
            assert_eq!(
                c,
                StoredCredential {
                    user_id: 42,
                    access_token: "tok1".to_string(),
                    refresh_token: Some("ref1".to_string()),
                    expires_at: Some(now + 3600),
                }
            );
        }
        other => panic!("expected a save, got {:?}", other),
    }

    let a = m.handle(Event::StoreUpdated, now);
    let expected = AuthToken {
        access_token: "tok1".to_string(),
        token_type: "Bearer".to_string(),
        expires_in: Some(3600),
        refresh_token: Some("ref1".to_string()),
        created_at: now,
    };
    assert_eq!(a, Action::Finish(Ok(expected.clone())));
    assert_eq!(saves, 1);
    assert_eq!(m.current_token(), Some(&expected));
}

#[test]
fn end_to_end_refresh_of_expired_credential() {
    let mut m = AuthManager::new(config());
    let now: i64 = 1_700_000_000;
    let mut refreshes = Vec::new();

    assert_eq!(m.ensure_authenticated(), Action::LoadCredential);
    let stored = StoredCredential {
        user_id: 7,
        access_token: "old".to_string(),
        refresh_token: Some("ref1".to_string()),
        expires_at: Some(now - 10),
    };
    match m.handle(Event::CredentialLoaded(Some(stored)), now) {
        Action::ExchangeRefresh(r) => refreshes.push(r),
        other => panic!("expected a refresh, got {:?}", other),
    }
    assert_eq!(refreshes, vec!["ref1".to_string()]);

    let a = m.handle(Event::TokenIssued(grant("new", Some(3600), Some("ref2"))), now);
    assert_eq!(
        a,
        Action::SaveCredential(StoredCredential {
            user_id: 7,
            access_token: "new".to_string(),
            refresh_token: Some("ref2".to_string()),
            expires_at: Some(now + 3600),
        })
    );
    match m.handle(Event::StoreUpdated, now) {
        Action::Finish(Ok(t)) => {
            assert_eq!(t.access_token, "new");
            assert_eq!(t.created_at, now);
        }
        other => panic!("expected the new token, got {:?}", other),
    }
    assert_eq!(refreshes.len(), 1);
}

#[test]
fn valid_stored_credential_needs_no_network() {
    let mut m = AuthManager::new(config());
    let now: i64 = 1_000_000;
    assert_eq!(m.ensure_authenticated(), Action::LoadCredential);
    let stored = StoredCredential {
        user_id: 1,
        access_token: "keep-me".to_string(),
        refresh_token: None,
        expires_at: Some(now + 3600),
    };
    let a = m.handle(Event::CredentialLoaded(Some(stored)), now);
    assert_eq!(
        a,
        Action::Finish(Ok(AuthToken {
            access_token: "keep-me".to_string(),
            token_type: "Bearer".to_string(),
            expires_in: Some(3600),
            refresh_token: None,
            created_at: now,
        }))
    );
    // The token handed out expires exactly when the stored credential does.
    let t = m.current_token().unwrap();
    assert!(!t.is_expired_at(now + 3300));
    assert!(t.is_expired_at(now + 3301));
}

#[test]
fn stored_credential_without_expiry_is_reused() {
    let mut m = AuthManager::new(config());
    m.ensure_authenticated();
    let stored = StoredCredential {
        user_id: 1,
        access_token: "forever".to_string(),
        refresh_token: Some("r".to_string()),
        expires_at: None,
    };
    match m.handle(Event::CredentialLoaded(Some(stored)), 5) {
        Action::Finish(Ok(t)) => {
            assert_eq!(t.access_token, "forever");
            assert_eq!(t.expires_in, None);
        }
        other => panic!("expected the stored token, got {:?}", other),
    }
}

#[test]
fn credential_within_margin_counts_as_expired() {
    let mut m = AuthManager::new(config());
    let now: i64 = 10_000;
    m.ensure_authenticated();
    let stored = StoredCredential {
        user_id: 1,
        access_token: "soon".to_string(),
        refresh_token: Some("r1".to_string()),
        expires_at: Some(now + 299),
    };
    assert_eq!(
        m.handle(Event::CredentialLoaded(Some(stored)), now),
        Action::ExchangeRefresh("r1".to_string())
    );
}

#[test]
fn failed_refresh_falls_back_to_authorization() {
    let mut m = AuthManager::new(config());
    let now: i64 = 50_000;
    m.ensure_authenticated();
    let stored = StoredCredential {
        user_id: 3,
        access_token: "old".to_string(),
        refresh_token: Some("ref1".to_string()),
        expires_at: Some(now - 10),
    };
    assert_eq!(
        m.handle(Event::CredentialLoaded(Some(stored)), now),
        Action::ExchangeRefresh("ref1".to_string())
    );
    let a = m.handle(
        Event::ExchangeFailed(AuthError::TokenExchangeFailed("invalid_grant".to_string())),
        now,
    );
    match a {
        Action::Authorize(req) => {
            assert_eq!(
                m.phase,
                Phase::AwaitingCallback { csrf_state: req.csrf_state.clone() }
            );
        }
        other => panic!("expected a full authorization, got {:?}", other),
    }
}

#[test]
fn failed_save_after_refresh_falls_back_to_authorization() {
    let mut m = AuthManager::new(config());
    let now: i64 = 50_000;
    m.ensure_authenticated();
    let stored = StoredCredential {
        user_id: 3,
        access_token: "old".to_string(),
        refresh_token: Some("ref1".to_string()),
        expires_at: Some(now - 10),
    };
    m.handle(Event::CredentialLoaded(Some(stored)), now);
    m.handle(Event::TokenIssued(grant("new", None, None)), now);
    let a = m.handle(Event::StoreFailed("disk full".to_string()), now);
    assert!(matches!(a, Action::Authorize(_)));
}

#[test]
fn expired_credential_without_refresh_token_reauthorizes() {
    let mut m = AuthManager::new(config());
    m.ensure_authenticated();
    let stored = StoredCredential {
        user_id: 3,
        access_token: "old".to_string(),
        refresh_token: None,
        expires_at: Some(0),
    };
    assert!(matches!(
        m.handle(Event::CredentialLoaded(Some(stored)), 100_000),
        Action::Authorize(_)
    ));
}

#[test]
fn csrf_mismatch_aborts_without_exchange() {
    let mut m = AuthManager::new(config());
    let state = start_authorization(&mut m);
    let a = m.handle(Event::CallbackReceived(callback_line("abc123", "forged")), 0);
    assert_ne!(state, "forged");
    assert_eq!(a, Action::Finish(Err(AuthError::CsrfMismatch)));
    assert_eq!(m.phase, Phase::Failed { error: AuthError::CsrfMismatch });
    // A later exchange result is not acted upon.
    assert_eq!(
        m.handle(Event::TokenIssued(grant("tok", None, None)), 0),
        Action::Ignore
    );
}

#[test]
fn callback_missing_code_or_state() {
    let mut m = AuthManager::new(config());
    let state = start_authorization(&mut m);
    let line = format!("GET /callback?state={} HTTP/1.1", state);
    assert_eq!(
        m.handle(Event::CallbackReceived(line), 0),
        Action::Finish(Err(AuthError::MissingParameter("code".to_string())))
    );

    let mut m = AuthManager::new(config());
    start_authorization(&mut m);
    let line = "GET /callback?code=abc123 HTTP/1.1".to_string();
    assert_eq!(
        m.handle(Event::CallbackReceived(line), 0),
        Action::Finish(Err(AuthError::MissingParameter("state".to_string())))
    );
}

#[test]
fn malformed_callback_and_listener_failures() {
    let mut m = AuthManager::new(config());
    start_authorization(&mut m);
    assert_eq!(
        m.handle(Event::CallbackReceived("GARBAGE".to_string()), 0),
        Action::Finish(Err(AuthError::MalformedCallback))
    );

    let mut m = AuthManager::new(config());
    start_authorization(&mut m);
    assert_eq!(
        m.handle(Event::CallbackFailed(AuthError::BindFailed), 0),
        Action::Finish(Err(AuthError::BindFailed))
    );

    let mut m = AuthManager::new(config());
    start_authorization(&mut m);
    assert_eq!(
        m.handle(Event::CallbackFailed(AuthError::Timeout), 0),
        Action::Finish(Err(AuthError::Timeout))
    );
}

#[test]
fn code_exchange_failure_is_reported() {
    let mut m = AuthManager::new(config());
    let state = start_authorization(&mut m);
    m.handle(Event::CallbackReceived(callback_line("c", &state)), 0);
    let e = AuthError::Transient("HTTP 503".to_string());
    assert_eq!(
        m.handle(Event::ExchangeFailed(e.clone()), 0),
        Action::Finish(Err(e))
    );
}

#[test]
fn identity_failure_aborts_before_saving() {
    let mut m = AuthManager::new(config());
    let state = start_authorization(&mut m);
    m.handle(Event::CallbackReceived(callback_line("c", &state)), 0);
    m.handle(Event::TokenIssued(grant("tok", None, None)), 0);
    assert_eq!(
        m.handle(Event::IdentityFailed("no viewer".to_string()), 0),
        Action::Finish(Err(AuthError::IdentityLookupFailed("no viewer".to_string())))
    );
    // The token was not saved, but stays usable for this session.
    assert_eq!(m.current_token().map(|t| t.access_token.clone()), Some("tok".to_string()));
}

#[test]
fn persistence_failure_after_login_is_reported() {
    let mut m = AuthManager::new(config());
    let state = start_authorization(&mut m);
    m.handle(Event::CallbackReceived(callback_line("c", &state)), 0);
    m.handle(Event::TokenIssued(grant("tok", None, None)), 0);
    m.handle(Event::IdentityResolved(5), 0);
    assert_eq!(
        m.handle(Event::StoreFailed("locked".to_string()), 0),
        Action::Finish(Err(AuthError::PersistenceFailed("locked".to_string())))
    );
    assert_eq!(m.current_token().map(|t| t.access_token.clone()), Some("tok".to_string()));
}

#[test]
fn store_read_failure_is_reported() {
    let mut m = AuthManager::new(config());
    m.ensure_authenticated();
    assert_eq!(
        m.handle(Event::StoreFailed("corrupt".to_string()), 0),
        Action::Finish(Err(AuthError::PersistenceFailed("corrupt".to_string())))
    );
}

#[test]
fn logout_then_ensure_goes_through_authorization() {
    let mut m = AuthManager::new(config());
    m.ensure_authenticated();
    let stored = StoredCredential {
        user_id: 1,
        access_token: "valid".to_string(),
        refresh_token: None,
        expires_at: None,
    };
    assert!(matches!(
        m.handle(Event::CredentialLoaded(Some(stored)), 0),
        Action::Finish(Ok(_))
    ));
    assert!(m.current_token().is_some());

    assert_eq!(m.logout(), Action::ClearCredential);
    assert_eq!(m.current_token(), None);
    assert_eq!(m.handle(Event::StoreUpdated, 0), Action::LoggedOut(Ok(())));
    assert_eq!(m.phase, Phase::Unauthenticated);

    assert_eq!(m.ensure_authenticated(), Action::LoadCredential);
    assert!(matches!(
        m.handle(Event::CredentialLoaded(None), 0),
        Action::Authorize(_)
    ));
}

#[test]
fn logout_store_failure_is_reported() {
    let mut m = AuthManager::new(config());
    m.logout();
    assert_eq!(
        m.handle(Event::StoreFailed("busy".to_string()), 0),
        Action::LoggedOut(Err(AuthError::PersistenceFailed("busy".to_string())))
    );
    assert_eq!(m.current_token(), None);
}

#[test]
fn standalone_refresh_reads_user_from_store() {
    let mut m = AuthManager::new(config());
    assert_eq!(m.refresh_token("r9"), Action::ExchangeRefresh("r9".to_string()));
    assert_eq!(
        m.handle(Event::TokenIssued(grant("fresh", Some(60), None)), 100),
        Action::LoadCredential
    );
    let stored = StoredCredential {
        user_id: 11,
        access_token: "stale".to_string(),
        refresh_token: Some("r9".to_string()),
        expires_at: None,
    };
    assert_eq!(
        m.handle(Event::CredentialLoaded(Some(stored)), 100),
        Action::SaveCredential(StoredCredential {
            user_id: 11,
            access_token: "fresh".to_string(),
            refresh_token: None,
            expires_at: Some(160),
        })
    );
}

#[test]
fn standalone_refresh_without_stored_user_asks_identity() {
    let mut m = AuthManager::new(config());
    m.refresh_token("r9");
    m.handle(Event::TokenIssued(grant("fresh", None, None)), 100);
    assert_eq!(
        m.handle(Event::CredentialLoaded(None), 100),
        Action::LookupIdentity("fresh".to_string())
    );
    assert!(matches!(
        m.handle(Event::IdentityResolved(12), 100),
        Action::SaveCredential(StoredCredential { user_id: 12, .. })
    ));
}

#[test]
fn standalone_refresh_failure_is_reported() {
    let mut m = AuthManager::new(config());
    m.refresh_token("r9");
    let e = AuthError::TokenExchangeFailed("invalid_grant".to_string());
    assert_eq!(
        m.handle(Event::ExchangeFailed(e.clone()), 0),
        Action::Finish(Err(e))
    );
}

#[test]
fn invalid_redirect_uri_is_a_config_error() {
    let mut m = AuthManager::new(AuthConfig {
        client_id: "id".to_string(),
        client_secret: "s".to_string(),
        redirect_uri: "not a url".to_string(),
    });
    assert!(matches!(
        m.authenticate(),
        Action::Finish(Err(AuthError::ConfigError(_)))
    ));
}

#[test]
fn unexpected_events_are_ignored() {
    let mut m = AuthManager::new(config());
    assert_eq!(m.handle(Event::StoreUpdated, 0), Action::Ignore);
    assert_eq!(m.phase, Phase::Unauthenticated);
}

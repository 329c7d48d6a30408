use anilist_client::authorize::{
    authorization_request_with_state, build_authorization_request, AuthConfig,
};
use anilist_client::callback::{
    check_callback, find_param, parse_callback, request_target, CALLBACK_RESPONSE,
};
use anilist_client::error::AuthError;
use anilist_client::provider::{exchange_error, identity_outcome, join};
use anilist_client::token::{credential_expired, AuthToken};

fn token(created_at: i64, expires_in: Option<u64>) -> AuthToken {
    AuthToken {
        access_token: "a".to_string(),
        token_type: "Bearer".to_string(),
        expires_in,
        refresh_token: None,
        created_at,
    }
}

fn pairs(items: &[(&str, &str)]) -> Vec<(String, String)> {
    items.iter().map(|(k, v)| (k.to_string(), v.to_string())).collect()
}

#[test]
fn expiry_uses_five_minute_margin() {
    let t = token(1000, Some(3600));
    assert!(!t.is_expired_at(4300));
    assert!(t.is_expired_at(4301));
    assert!(!t.is_expired_at(0));
    assert!(t.is_expired_at(i64::MAX));
}

#[test]
fn unknown_lifetime_never_expires() {
    let t = token(0, None);
    assert!(!t.is_expired_at(i64::MAX));
    assert!(!t.is_expired_at(i64::MIN));
    assert!(!t.is_expired());
}

#[test]
fn expired_by_clock() {
    assert!(token(0, Some(0)).is_expired());
    assert!(!token(i64::MAX - 10, Some(5)).is_expired());
}

#[test]
fn absolute_expiry() {
    assert_eq!(token(1000, Some(3600)).expires_at(), Some(4600));
    assert_eq!(token(1000, None).expires_at(), None);
    assert_eq!(token(i64::MAX - 1, Some(u64::MAX)).expires_at(), Some(i64::MAX));
}

#[test]
fn stored_expiry_check() {
    assert!(!credential_expired(None, i64::MAX));
    assert!(!credential_expired(Some(1300), 1000));
    assert!(credential_expired(Some(1299), 1000));
    assert!(credential_expired(Some(i64::MIN), i64::MAX));
}

#[test]
fn request_target_is_second_word() {
    assert_eq!(
        request_target("GET /callback?code=a&state=b HTTP/1.1\r\n"),
        Some("/callback?code=a&state=b".to_string())
    );
    assert_eq!(request_target("  GET\t /x  "), Some("/x".to_string()));
    assert_eq!(request_target("GET\u{3000}/y\u{a0}HTTP/1.1"), Some("/y".to_string()));
    assert_eq!(request_target("GET"), None);
    assert_eq!(request_target("GET   "), None);
    assert_eq!(request_target(""), None);
}

#[test]
fn parse_callback_yields_code() {
    assert_eq!(
        parse_callback("GET /callback?code=abc123&state=xyz HTTP/1.1", "xyz"),
        Ok("abc123".to_string())
    );
    assert_eq!(
        parse_callback("GET /callback?state=xyz&code=a%20b+c HTTP/1.1", "xyz"),
        Ok("a b c".to_string())
    );
}

#[test]
fn parse_callback_errors() {
    assert_eq!(
        parse_callback("GET /callback?code=abc&state=other HTTP/1.1", "xyz"),
        Err(AuthError::CsrfMismatch)
    );
    assert_eq!(
        parse_callback("GET /callback?state=xyz HTTP/1.1", "xyz"),
        Err(AuthError::MissingParameter("code".to_string()))
    );
    assert_eq!(
        parse_callback("GET /callback?code=abc HTTP/1.1", "xyz"),
        Err(AuthError::MissingParameter("state".to_string()))
    );
    assert_eq!(parse_callback("GET", "xyz"), Err(AuthError::MalformedCallback));
    assert_eq!(
        parse_callback("GET /callback?code=abc&state=xyz HTTP/1.1", ""),
        Err(AuthError::CsrfMismatch)
    );
}

#[test]
fn check_callback_on_pairs() {
    let p = pairs(&[("state", "s1"), ("code", "c1"), ("code", "c2")]);
    assert_eq!(check_callback(&p, "s1"), Ok("c1".to_string()));
    assert_eq!(check_callback(&p, "s2"), Err(AuthError::CsrfMismatch));
    assert_eq!(
        check_callback(&pairs(&[]), "s1"),
        Err(AuthError::MissingParameter("code".to_string()))
    );
}

#[test]
fn find_param_takes_first() {
    let p = pairs(&[("a", "1"), ("b", "2"), ("a", "3")]);
    assert_eq!(find_param(&p, "a"), Some("1".to_string()));
    assert_eq!(find_param(&p, "b"), Some("2".to_string()));
    assert_eq!(find_param(&p, "c"), None);
}

#[test]
fn success_page_is_http_ok() {
    assert!(CALLBACK_RESPONSE.starts_with("HTTP/1.1 200 OK\r\n"));
}

#[test]
fn authorization_url_carries_state() {
    let config = AuthConfig {
        client_id: "id1".to_string(),
        client_secret: "secret1".to_string(),
        redirect_uri: "http://127.0.0.1:8080/callback".to_string(),
    };
    let req = authorization_request_with_state(&config, "xyz".to_string()).unwrap();
    assert_eq!(req.csrf_state, "xyz");
    assert_eq!(
        req.url,
        "https://anilist.co/api/v2/oauth/authorize?response_type=code&client_id=id1&state=xyz&redirect_uri=http%3A%2F%2F127.0.0.1%3A8080%2Fcallback&scope=read+write"
    );
    assert!(!req.url.contains("secret1"));

    let fresh = build_authorization_request(&config).unwrap();
    assert_eq!(fresh.csrf_state.len(), 22);
    assert!(fresh.url.contains(&format!("state={}", fresh.csrf_state)));
    let other = build_authorization_request(&config).unwrap();
    assert_ne!(fresh.csrf_state, other.csrf_state);
}

#[test]
fn authorization_with_bad_redirect_fails() {
    let config = AuthConfig {
        client_id: "id1".to_string(),
        client_secret: "secret1".to_string(),
        redirect_uri: "::".to_string(),
    };
    assert!(matches!(
        authorization_request_with_state(&config, "s".to_string()),
        Err(AuthError::ConfigError(_))
    ));
}

#[test]
fn exchange_errors_are_classified() {
    assert_eq!(
        exchange_error(Some(429), "slow down".to_string()),
        AuthError::Transient("slow down".to_string())
    );
    assert_eq!(
        exchange_error(Some(503), "d".to_string()),
        AuthError::Transient("d".to_string())
    );
    assert_eq!(
        exchange_error(Some(400), "d".to_string()),
        AuthError::TokenExchangeFailed("d".to_string())
    );
    assert_eq!(
        exchange_error(None, "d".to_string()),
        AuthError::TokenExchangeFailed("d".to_string())
    );
}

#[test]
fn messages_are_joined() {
    assert_eq!(join(&vec![]), "");
    assert_eq!(join(&vec!["a".to_string()]), "a");
    assert_eq!(
        join(&vec!["a".to_string(), "b".to_string(), "c".to_string()]),
        "a, b, c"
    );
}

#[test]
fn identity_outcomes() {
    assert_eq!(identity_outcome(200, 0, &vec![], Some(42)), Ok(42));
    assert_eq!(
        identity_outcome(401, 0, &vec![], Some(42)),
        Err("API error: HTTP 401".to_string())
    );
    assert_eq!(
        identity_outcome(200, 2, &vec!["bad".to_string(), "worse".to_string()], Some(42)),
        Err("GraphQL error: bad, worse".to_string())
    );
    assert_eq!(
        identity_outcome(200, 1, &vec![], Some(42)),
        Err("GraphQL error: ".to_string())
    );
    assert!(identity_outcome(200, 0, &vec![], None).is_err());
    assert!(identity_outcome(200, 0, &vec![], Some(1 << 40)).is_err());
}

#[test]
fn error_messages_hold_no_token() {
    assert_eq!(
        AuthError::MissingParameter("code".to_string()).message(),
        "callback is missing parameter: code"
    );
    assert_eq!(
        AuthError::CsrfMismatch.message(),
        "CSRF state mismatch, possible security breach"
    );
    assert_eq!(
        AuthError::PersistenceFailed("x".to_string()).message(),
        "credential store error: x"
    );
}

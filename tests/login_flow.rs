use openidconnect::{CsrfToken, Nonce, PkceCodeChallenge};
use order_wizard::config::{OAuthConfig, SessionConfig};
use order_wizard::error::ApiError;
use order_wizard::json::Json;
use order_wizard::login::{
    answer_callback, auth_redirect, begin_callback, begin_callback_at, current_session, finish_callback,
    finish_callback_at, logout, CallbackQuery, CodeExchange, ProviderOutcome,
};
use order_wizard::oauth::{OAuthState, SameSite};

fn oauth_config(failure: Option<&str>, scopes: Vec<&str>) -> OAuthConfig {
    OAuthConfig {
        client_id: "client".to_string(),
        client_secret: None,
        issuer_url: "https://issuer.example".to_string(),
        redirect_url: "http://localhost:8080/auth/callback".to_string(),
        scopes: scopes.into_iter().map(|s| s.to_string()).collect(),
        success_redirect: "https://app.example/auth/success".to_string(),
        failure_redirect: failure.map(|f| f.to_string()),
    }
}

fn session_config(ttl_secs: i64) -> SessionConfig {
    SessionConfig {
        cookie_name: "ow_session".to_string(),
        cookie_domain: Some("app.example".to_string()),
        cookie_secure: true,
        ttl_secs,
    }
}

fn state(failure: Option<&str>) -> OAuthState {
    OAuthState::new(&oauth_config(failure, vec!["openid", "email"]), &session_config(7200))
}

fn profile_sub(sub: &str) -> Json {
    Json::Object(vec![("sub".to_string(), Json::String(sub.to_string()))])
}

fn query(code: Option<&str>, st: Option<&str>) -> CallbackQuery {
    CallbackQuery {
        code: code.map(|c| c.to_string()),
        state: st.map(|s| s.to_string()),
        error: None,
        error_description: None,
    }
}

/// A stand-in provider: it accepts the code "xyz" and answers with the profile.
fn stub_provider(exchange: &CodeExchange, profile: Json) -> ProviderOutcome {
    if exchange.code == "xyz" {
        ProviderOutcome::Profile(profile)
    } else {
        ProviderOutcome::ExchangeRejected("invalid_grant".to_string())
    }
}

#[test]
fn full_login_creates_session_visible_through_cookie() {
    let mut oauth = state(None);
    let csrf = CsrfToken::new_random();
    let (_challenge, verifier) = PkceCodeChallenge::new_random_sha256();
    let nonce = Nonce::new_random();
    oauth.store_pending(
        csrf.secret().to_string(),
        verifier.secret().to_string(),
        nonce.secret().to_string(),
    );
    let exchange = begin_callback(&mut oauth, query(Some("xyz"), Some(csrf.secret()))).unwrap();
    assert_eq!(exchange.verifier, verifier.secret().to_string());
    assert_eq!(exchange.nonce, nonce.secret().to_string());
    let outcome = stub_provider(&exchange, profile_sub("u1"));
    let session_id = finish_callback(&mut oauth, outcome).unwrap();
    let redirect = auth_redirect(&oauth, Ok(session_id.clone())).unwrap();
    assert_eq!(redirect.location, "https://app.example/auth/success");
    assert_eq!(redirect.cookie.value, session_id);
    let cookie_value = redirect.cookie.value.clone();
    let session = current_session(&oauth, Some(&cookie_value)).unwrap();
    assert_eq!(session.user.id, "u1");
    assert_eq!(session.user.name, None);
    assert_eq!(session.user.email, None);
    assert!(session.expires_at.is_some());
    assert_eq!(session.raw_profile, profile_sub("u1"));
    assert_eq!(oauth.session_user_id(Some(&cookie_value)), Some("u1".to_string()));
    // The state was redeemed: a replay is refused.
    let replay = begin_callback(&mut oauth, query(Some("xyz"), Some(csrf.secret())));
    assert_eq!(
        replay,
        Err(ApiError::Auth("Unknown or expired state parameter".to_string()))
    );
}

#[test]
fn callback_with_unknown_state_creates_no_session() {
    let mut oauth = state(None);
    oauth.store_pending_at("issued".to_string(), "v".to_string(), "n".to_string(), 0);
    let r = begin_callback_at(&mut oauth, query(Some("xyz"), Some("never-issued")), 10);
    assert_eq!(r, Err(ApiError::Auth("Unknown or expired state parameter".to_string())));
    assert!(current_session(&oauth, Some(&"never-issued".to_string())).is_err());
    assert_eq!(oauth.cleanup_expired_at(10), (0, 0));
    assert_eq!(
        begin_callback_at(&mut oauth, query(Some("xyz"), Some("issued")), 20),
        Ok(CodeExchange { code: "xyz".to_string(), verifier: "v".to_string(), nonce: "n".to_string() })
    );
}

#[test]
fn callback_errors_in_order() {
    let mut oauth = state(None);
    let provider_error = CallbackQuery {
        code: Some("c".to_string()),
        state: Some("s".to_string()),
        error: Some("access_denied".to_string()),
        error_description: None,
    };
    assert_eq!(
        begin_callback_at(&mut oauth, provider_error, 0),
        Err(ApiError::Auth("access_denied: OAuth authorization failed".to_string()))
    );
    let described = CallbackQuery {
        code: None,
        state: None,
        error: Some("e".to_string()),
        error_description: Some("user said no".to_string()),
    };
    assert_eq!(
        begin_callback_at(&mut oauth, described, 0),
        Err(ApiError::Auth("e: user said no".to_string()))
    );
    assert_eq!(
        begin_callback_at(&mut oauth, query(None, Some("s")), 0),
        Err(ApiError::Auth("Missing authorization code".to_string()))
    );
    assert_eq!(
        begin_callback_at(&mut oauth, query(Some("c"), None), 0),
        Err(ApiError::Auth("Missing state parameter".to_string()))
    );
}

#[test]
fn expired_state_is_refused_at_callback() {
    let mut oauth = state(None);
    oauth.store_pending_at("s".to_string(), "v".to_string(), "n".to_string(), 0);
    assert_eq!(
        begin_callback_at(&mut oauth, query(Some("c"), Some("s")), 600_001),
        Err(ApiError::Auth("Unknown or expired state parameter".to_string()))
    );
}

#[test]
fn provider_failures_map_to_error_kinds() {
    let mut oauth = state(None);
    assert_eq!(
        finish_callback_at(&mut oauth, ProviderOutcome::ExchangeRejected("bad code".to_string()), "id".to_string(), 0),
        Err(ApiError::Auth("bad code".to_string()))
    );
    assert_eq!(
        finish_callback_at(&mut oauth, ProviderOutcome::UserinfoFailed("timeout".to_string()), "id".to_string(), 0),
        Err(ApiError::Http("timeout".to_string()))
    );
    assert_eq!(
        finish_callback_at(&mut oauth, ProviderOutcome::Profile(Json::Null), "id".to_string(), 0),
        Err(ApiError::Auth("Unable to determine user identity from profile".to_string()))
    );
    assert!(current_session(&oauth, Some(&"id".to_string())).is_err());
}

#[test]
fn session_lives_for_configured_ttl() {
    let mut oauth = state(None);
    let id = finish_callback_at(&mut oauth, ProviderOutcome::Profile(profile_sub("u")), "sid".to_string(), 1_000).unwrap();
    assert_eq!(id, "sid");
    let session = oauth.session_snapshot(&"sid".to_string()).unwrap();
    assert_eq!(session.expires_at, Some(1_000 + 7_200_000));
    assert_eq!(oauth.session_user_id_at(Some(&"sid".to_string()), 7_201_000), Some("u".to_string()));
    assert_eq!(oauth.session_user_id_at(Some(&"sid".to_string()), 7_201_001), None);
    assert_eq!(oauth.session_user_id_at(None, 0), None);
}

#[test]
fn logout_of_removed_session_still_succeeds() {
    let mut oauth = state(None);
    let id = oauth.create_session(
        order_wizard::identity::OAuthUser { id: "u".to_string(), name: None, email: None },
        None,
        Json::Null,
    );
    oauth.remove_session(&id);
    let cookie = logout(&mut oauth, Some(&id));
    assert_eq!(cookie.value, "");
    assert_eq!(cookie.max_age_secs, 0);
    let without_cookie = logout(&mut oauth, None);
    assert_eq!(without_cookie, oauth.build_logout_cookie());
    assert_eq!(without_cookie.name, "ow_session");
}

#[test]
fn logout_removes_live_session() {
    let mut oauth = state(None);
    let id = oauth.create_session(
        order_wizard::identity::OAuthUser { id: "u".to_string(), name: None, email: None },
        Some(3600),
        Json::Null,
    );
    assert!(current_session(&oauth, Some(&id)).is_ok());
    assert_eq!(logout(&mut oauth, Some(&id)).max_age_secs, 0);
    assert_eq!(current_session(&oauth, Some(&id)).err(), Some(ApiError::Unauthorized));
    assert_eq!(current_session(&oauth, None).err(), Some(ApiError::Unauthorized));
}

#[test]
fn cleanup_twice_removes_nothing_the_second_time() {
    let mut oauth = state(None);
    oauth.store_pending_at("old".to_string(), "v".to_string(), "n".to_string(), 0);
    oauth.store_pending_at("new".to_string(), "v".to_string(), "n".to_string(), 7_500_000);
    finish_callback_at(&mut oauth, ProviderOutcome::Profile(profile_sub("a")), "s1".to_string(), 0).unwrap();
    assert_eq!(oauth.cleanup_expired_at(8_000_000), (1, 1));
    assert_eq!(oauth.cleanup_expired_at(8_000_000), (0, 0));
    assert_eq!(oauth.cleanup_expired(), (1, 0));
    assert_eq!(oauth.cleanup_expired(), (0, 0));
}

#[test]
fn cookies_carry_configured_attributes() {
    let oauth = state(None);
    let cookie = oauth.build_cookie("abc");
    assert_eq!(cookie.name, "ow_session");
    assert_eq!(cookie.value, "abc");
    assert_eq!(cookie.path, "/");
    assert!(cookie.http_only);
    assert_eq!(cookie.same_site, SameSite::Lax);
    assert_eq!(cookie.max_age_secs, 7200);
    assert_eq!(cookie.domain, Some("app.example".to_string()));
    assert!(cookie.secure);
    let gone = oauth.build_logout_cookie();
    assert_eq!(gone.value, "");
    assert_eq!(gone.max_age_secs, 0);
    assert_eq!(gone.domain, Some("app.example".to_string()));
}

#[test]
fn invalid_ttl_falls_back_to_one_hour() {
    let oauth = OAuthState::new(&oauth_config(None, vec![]), &session_config(-5));
    assert_eq!(oauth.session_ttl_secs(), 3600);
    assert_eq!(oauth.build_cookie("x").max_age_secs, 3600);
    assert_eq!(oauth.scopes(), &vec!["openid".to_string()]);
    let zero = OAuthState::new(&oauth_config(None, vec!["profile"]), &session_config(0));
    assert_eq!(zero.session_ttl_secs(), 3600);
    assert_eq!(zero.scopes(), &vec!["profile".to_string()]);
}

#[test]
fn failure_redirect_clears_cookie_or_error_propagates() {
    let with_page = state(Some("https://app.example/auth/failed"));
    let r = auth_redirect(&with_page, Err(ApiError::Auth("x".to_string()))).unwrap();
    assert_eq!(r.location, "https://app.example/auth/failed");
    assert_eq!(r.cookie.value, "");
    assert_eq!(r.cookie.max_age_secs, 0);
    let without = state(None);
    assert_eq!(
        auth_redirect(&without, Err(ApiError::Auth("x".to_string()))),
        Err(ApiError::Auth("x".to_string()))
    );
    assert_eq!(without.failure_redirect(), None);
    assert_eq!(with_page.failure_redirect(), Some("https://app.example/auth/failed"));
    assert_eq!(without.success_redirect(), "https://app.example/auth/success");
    assert_eq!(without.cookie_name(), "ow_session");
}

#[test]
fn take_pending_hands_back_secrets_once() {
    let mut oauth = state(None);
    oauth.store_pending("st".to_string(), "ver".to_string(), "non".to_string());
    assert_eq!(oauth.take_pending(&"st".to_string()), Some(("ver".to_string(), "non".to_string())));
    assert_eq!(oauth.take_pending(&"st".to_string()), None);
}

#[test]
fn only_provider_reported_errors_reach_failure_page() {
    let with_page = state(Some("https://app.example/auth/failed"));
    let reported = answer_callback(&with_page, true, Err(ApiError::Auth("denied".to_string()))).unwrap();
    assert_eq!(reported.location, "https://app.example/auth/failed");
    assert_eq!(reported.cookie.max_age_secs, 0);
    assert_eq!(
        answer_callback(&with_page, false, Err(ApiError::Http("down".to_string()))),
        Err(ApiError::Http("down".to_string()))
    );
    let ok = answer_callback(&with_page, false, Ok("sid".to_string())).unwrap();
    assert_eq!(ok.location, "https://app.example/auth/success");
    assert_eq!(ok.cookie.value, "sid");
}

#[test]
fn unlimited_session_survives_cleanups() {
    let mut oauth = state(None);
    let id = oauth.create_session(
        order_wizard::identity::OAuthUser { id: "keep".to_string(), name: None, email: None },
        None,
        Json::Null,
    );
    for _ in 0..3 {
        oauth.cleanup_expired();
        assert_eq!(oauth.cleanup_expired_at(i64::MAX), (0, 0));
    }
    assert_eq!(oauth.session_user_id(Some(&id)), Some("keep".to_string()));
}

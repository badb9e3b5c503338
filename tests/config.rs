use order_wizard::config::{AppConfig, ConfigError};
use order_wizard::text::{blank, eq_ignore_ascii_case, nonblank_pieces, parse_number, trim_text};

fn vars(pairs: &[(&str, &str)]) -> Vec<(String, String)> {
    pairs.iter().map(|(k, v)| (k.to_string(), v.to_string())).collect()
}

const REQUIRED: [(&str, &str); 3] = [
    ("MONGODB_URI", "mongodb://db:27017"),
    ("OAUTH_CLIENT_ID", "client"),
    ("OIDC_ISSUER_URL", "https://issuer.example"),
];

#[test]
fn defaults_fill_everything_optional() {
    let c = AppConfig::from_vars(&vars(&REQUIRED)).unwrap();
    assert_eq!(c.host, "0.0.0.0");
    assert_eq!(c.port, 8080);
    assert_eq!(c.mongo.uri, "mongodb://db:27017");
    assert_eq!(c.mongo.database, "order-wizard");
    assert_eq!(c.oauth.client_id, "client");
    assert_eq!(c.oauth.client_secret, None);
    assert_eq!(c.oauth.redirect_url, "http://localhost:8080/auth/callback");
    assert_eq!(c.oauth.success_redirect, "http://localhost:5173/auth/success");
    assert_eq!(c.oauth.failure_redirect, None);
    assert_eq!(c.oauth.scopes, vec!["openid".to_string(), "email".to_string()]);
    assert_eq!(c.session.cookie_name, "ow_session");
    assert_eq!(c.session.cookie_domain, None);
    assert!(c.session.cookie_secure);
    assert_eq!(c.session.ttl_secs, 3600);
    assert_eq!(c.cors.allowed_origins, vec!["http://localhost:5173".to_string()]);
}

#[test]
fn required_variables_are_reported_in_order() {
    assert_eq!(AppConfig::from_vars(&vars(&[])).err(), Some(ConfigError::Missing("MONGODB_URI")));
    assert_eq!(
        AppConfig::from_vars(&vars(&[("MONGODB_URI", "x")])).err(),
        Some(ConfigError::Missing("OAUTH_CLIENT_ID"))
    );
    assert_eq!(
        AppConfig::from_vars(&vars(&[("MONGODB_URI", "x"), ("OAUTH_CLIENT_ID", "c")])).err(),
        Some(ConfigError::Missing("OIDC_ISSUER_URL"))
    );
}

#[test]
fn explicit_values_are_parsed() {
    let mut v = vars(&REQUIRED);
    v.extend(vars(&[
        ("PORT", "3000"),
        ("FRONTEND_ORIGIN", "https://front.example"),
        ("OAUTH_SCOPES", "openid,profile  email,,"),
        ("SESSION_COOKIE_SECURE", "No"),
        ("SESSION_TTL_SECONDS", "+120"),
        ("ALLOWED_ORIGINS", " https://a.example , ,https://b.example"),
        ("OAUTH_FAILURE_REDIRECT", "https://front.example/failed"),
    ]));
    let c = AppConfig::from_vars(&v).unwrap();
    assert_eq!(c.port, 3000);
    assert_eq!(c.oauth.redirect_url, "http://localhost:3000/auth/callback");
    assert_eq!(c.oauth.success_redirect, "https://front.example/auth/success");
    assert_eq!(
        c.oauth.scopes,
        vec!["openid".to_string(), "profile".to_string(), "email".to_string()]
    );
    assert!(!c.session.cookie_secure);
    assert_eq!(c.session.ttl_secs, 120);
    assert_eq!(
        c.cors.allowed_origins,
        vec!["https://a.example".to_string(), "https://b.example".to_string()]
    );
    assert_eq!(c.oauth.failure_redirect, Some("https://front.example/failed".to_string()));
}

#[test]
fn bad_numbers_fall_back_to_defaults() {
    let mut v = vars(&REQUIRED);
    v.extend(vars(&[("PORT", "70000"), ("SESSION_TTL_SECONDS", "-5"), ("SESSION_COOKIE_SECURE", "TRUE")]));
    let c = AppConfig::from_vars(&v).unwrap();
    assert_eq!(c.port, 8080);
    assert_eq!(c.session.ttl_secs, 3600);
    assert!(c.session.cookie_secure);
    let mut w = vars(&REQUIRED);
    w.extend(vars(&[("PORT", "80x"), ("SESSION_TTL_SECONDS", "99999999999999999999"), ("SESSION_COOKIE_SECURE", "Yes")]));
    let d = AppConfig::from_vars(&w).unwrap();
    assert_eq!(d.port, 8080);
    assert_eq!(d.session.ttl_secs, 3600);
    assert!(d.session.cookie_secure);
}

#[test]
fn text_helpers_behave_like_std() {
    assert_eq!(trim_text("  a b \t"), "a b");
    assert_eq!(trim_text(" \u{3000} "), "");
    assert!(blank(" \n"));
    assert!(!blank(" x "));
    assert_eq!(nonblank_pieces("a,,b c", false, false), vec!["a".to_string(), "b".to_string(), "c".to_string()]);
    assert_eq!(nonblank_pieces(" a , b ", true, true), vec!["a".to_string(), "b".to_string()]);
    assert_eq!(nonblank_pieces(" a , b ", true, false), vec![" a ".to_string(), " b ".to_string()]);
    assert_eq!(parse_number("-42", true, i64::MIN, i64::MAX), Some(-42));
    assert_eq!(parse_number("-42", false, 0, 65535), None);
    assert_eq!(parse_number("+", true, i64::MIN, i64::MAX), None);
    assert_eq!(parse_number("", true, i64::MIN, i64::MAX), None);
    assert_eq!(parse_number("9223372036854775807", true, i64::MIN, i64::MAX), Some(i64::MAX));
    assert_eq!(parse_number("-9223372036854775808", true, i64::MIN, i64::MAX), Some(i64::MIN));
    assert_eq!(parse_number("9223372036854775808", true, i64::MIN, i64::MAX), None);
    assert_eq!(parse_number("007", false, 0, 65535), Some(7));
    assert!(eq_ignore_ascii_case("TrUe", "true"));
    assert!(!eq_ignore_ascii_case("tru", "true"));
}

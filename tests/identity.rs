use order_wizard::identity::OAuthUser;
use order_wizard::json::{decimal_text, Json, JsonNumber};
use order_wizard::oauth::OAuthState;

fn obj(members: Vec<(&str, Json)>) -> Json {
    Json::Object(members.into_iter().map(|(k, v)| (k.to_string(), v)).collect())
}

fn text(t: &str) -> Json {
    Json::String(t.to_string())
}

#[test]
fn identity_from_sub_email_and_name() {
    let profile = obj(vec![("sub", text("abc123")), ("email", text("a@b.com")), ("name", text("A"))]);
    assert_eq!(
        OAuthState::extract_identity(&profile),
        Some(OAuthUser {
            id: "abc123".to_string(),
            email: Some("a@b.com".to_string()),
            name: Some("A".to_string()),
        })
    );
}

#[test]
fn identity_from_numeric_id() {
    let profile = obj(vec![("id", Json::Number(JsonNumber::PosInt(42)))]);
    assert_eq!(
        OAuthState::extract_identity(&profile),
        Some(OAuthUser { id: "42".to_string(), email: None, name: None })
    );
}

#[test]
fn no_identity_for_empty_or_null_profile() {
    assert_eq!(OAuthState::extract_identity(&obj(vec![])), None);
    assert_eq!(OAuthState::extract_identity(&Json::Null), None);
}

#[test]
fn identity_from_nested_user_id_and_login() {
    let profile = obj(vec![
        ("user", obj(vec![("id", Json::Number(JsonNumber::NegInt(-7)))])),
        ("login", text("octo")),
    ]);
    assert_eq!(
        OAuthState::extract_identity(&profile),
        Some(OAuthUser { id: "-7".to_string(), email: None, name: Some("octo".to_string()) })
    );
}

#[test]
fn sub_takes_precedence_over_id() {
    let profile = obj(vec![
        ("id", text("second")),
        ("sub", text("first")),
        ("preferred_username", text("pu")),
        ("login", text("lg")),
    ]);
    let user = OAuthState::extract_identity(&profile).unwrap();
    assert_eq!(user.id, "first");
    assert_eq!(user.name, Some("pu".to_string()));
}

#[test]
fn non_textual_subject_gives_no_identity() {
    let profile = obj(vec![("sub", Json::Bool(true)), ("id", text("x"))]);
    assert_eq!(OAuthState::extract_identity(&profile), None);
}

#[test]
fn non_string_email_and_name_are_dropped() {
    let profile = obj(vec![
        ("sub", text("u")),
        ("email", Json::Number(JsonNumber::PosInt(1))),
        ("name", Json::Null),
        ("login", text("ignored")),
    ]);
    assert_eq!(
        OAuthState::extract_identity(&profile),
        Some(OAuthUser { id: "u".to_string(), email: None, name: None })
    );
}

#[test]
fn float_subject_keeps_its_text() {
    let profile = obj(vec![("sub", Json::Number(JsonNumber::Float("1.5".to_string())))]);
    assert_eq!(OAuthState::extract_identity(&profile).unwrap().id, "1.5");
}

#[test]
fn decimal_text_of_integers() {
    assert_eq!(decimal_text(0), "0");
    assert_eq!(decimal_text(9), "9");
    assert_eq!(decimal_text(10), "10");
    assert_eq!(decimal_text(u64::MAX), "18446744073709551615");
    assert_eq!(JsonNumber::NegInt(i64::MIN).to_text(), "-9223372036854775808");
}

#[test]
fn get_finds_object_members_only() {
    let profile = obj(vec![("a", text("1"))]);
    assert_eq!(profile.get("a"), Some(&text("1")));
    assert_eq!(profile.get("b"), None);
    assert_eq!(text("a").get("a"), None);
    assert!(Json::Null.is_null());
    assert_eq!(text("x").as_str(), Some(&"x".to_string()));
}

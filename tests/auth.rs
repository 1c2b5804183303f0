use gitea_resource::auth::{Auth, AuthError};

#[test]
fn header_value_prefixes_token() {
    let auth = Auth { token: "abc123".to_string() };
    assert_eq!(auth.header_value().unwrap(), "token abc123");
}

#[test]
fn header_value_allows_tab_and_non_ascii() {
    let auth = Auth { token: "a\tb\u{e9}".to_string() };
    assert_eq!(auth.header_value().unwrap(), "token a\tb\u{e9}");
}

#[test]
fn header_value_rejects_control_characters() {
    for bad in ["a\nb", "a\rb", "x\u{7f}", "\u{0}"] {
        let auth = Auth { token: bad.to_string() };
        assert!(matches!(auth.header_value(), Err(AuthError::HeaderValue { .. })));
    }
}

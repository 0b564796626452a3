use obsidian_mcp::auth::{check_authorization, constant_time_eq, generate_key, ApiKey, AuthDecision, UNAUTHORIZED_STATUS};

fn key(k: &str) -> ApiKey {
    ApiKey(k.to_string())
}

fn is_generated(k: &str) -> bool {
    k.len() == 64 && k.chars().all(|c| c.is_ascii_hexdigit() && !c.is_ascii_uppercase())
}

#[test]
fn constant_time_eq_is_equality() {
    assert!(constant_time_eq(b"secret", b"secret"));
    assert!(!constant_time_eq(b"secret", b"secreT"));
    assert!(!constant_time_eq(b"secret", b"secret!"));
    assert!(constant_time_eq(b"", b""));
}

#[test]
fn bearer_with_the_key_is_allowed() {
    let k = key("abc123");
    assert!(matches!(check_authorization(Some("Bearer abc123"), &k), AuthDecision::Allow));
}

#[test]
fn other_tokens_are_invalid() {
    let k = key("abc123");
    assert!(matches!(check_authorization(Some("Bearer abc124"), &k), AuthDecision::InvalidKey));
    assert!(matches!(check_authorization(Some("Bearer "), &k), AuthDecision::InvalidKey));
    assert!(matches!(check_authorization(Some("Bearer  abc123"), &k), AuthDecision::InvalidKey));
}

#[test]
fn missing_or_malformed_headers_are_refused() {
    let k = key("abc123");
    assert!(matches!(check_authorization(None, &k), AuthDecision::MissingHeader));
    assert!(matches!(check_authorization(Some("bearer abc123"), &k), AuthDecision::MissingHeader));
    assert!(matches!(check_authorization(Some("Basic abc123"), &k), AuthDecision::MissingHeader));
    assert!(matches!(check_authorization(Some("Bearer"), &k), AuthDecision::MissingHeader));
}

#[test]
fn rejection_bodies() {
    assert_eq!(AuthDecision::InvalidKey.rejection_body(), "Invalid API key");
    assert_eq!(
        AuthDecision::MissingHeader.rejection_body(),
        "Missing Authorization header. Use: Authorization: Bearer <key>"
    );
    assert_eq!(UNAUTHORIZED_STATUS, 401);
}

#[test]
fn generated_keys_are_hex_and_fresh() {
    let a = generate_key();
    let b = generate_key();
    assert!(is_generated(&a));
    assert!(is_generated(&b));
    assert_ne!(a, b);
}

#[test]
fn resolve_prefers_the_command_line_then_the_environment() {
    assert_eq!(ApiKey::resolve(Some("cli"), Some("env".to_string())).0, "cli");
    assert_eq!(ApiKey::resolve(None, Some("env".to_string())).0, "env");
    assert!(is_generated(&ApiKey::resolve(None, Some(String::new())).0));
    assert!(is_generated(&ApiKey::resolve(None, None).0));
    assert_eq!(ApiKey::resolve(Some(""), None).0, "");
}

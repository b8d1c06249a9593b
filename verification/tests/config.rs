use collected_notes::config::{needs_token_file, resolve_base_url, resolve_token};
use collected_notes::error::ApiError;

#[test]
fn base_url_selection() {
    assert_eq!(resolve_base_url(false), "https://api.collectednotes.com");
    assert_eq!(resolve_base_url(true), "http://localhost:3000");
}

#[test]
fn explicit_token_wins_over_file() {
    let r = resolve_token(
        Some("explicit".to_string()),
        Some("file-token\n".to_string()),
    );
    assert_eq!(r.unwrap(), "explicit");
    // An explicit token is taken verbatim, untrimmed.
    let r2 = resolve_token(Some(" padded ".to_string()), None);
    assert_eq!(r2.unwrap(), " padded ");
    // With an explicit token the file need not be consulted at all.
    assert!(!needs_token_file(&Some("explicit".to_string())));
    assert!(needs_token_file(&None));
}

#[test]
fn file_token_is_trimmed() {
    let r = resolve_token(None, Some("abc123\n".to_string()));
    assert_eq!(r.unwrap(), "abc123");
    let r2 = resolve_token(None, Some(" \t abc123 \r\n".to_string()));
    assert_eq!(r2.unwrap(), "abc123");
    // Inner white space stays.
    let r3 = resolve_token(None, Some(" a b \n".to_string()));
    assert_eq!(r3.unwrap(), "a b");
}

#[test]
fn missing_token_fails_before_any_request() {
    let r = resolve_token(None, None);
    assert_eq!(r.unwrap_err(), ApiError::MissingToken);
    assert_eq!(
        ApiError::MissingToken.describe(),
        "Token not provided and could not read from ~/.collected-notes"
    );
}

#[test]
fn error_descriptions_carry_their_causes() {
    let t = ApiError::Transport { cause: "connection refused".to_string() };
    assert_eq!(t.describe(), "connection refused");
    let d = ApiError::Decode { cause: "expected value at line 1 column 1".to_string() };
    assert_eq!(d.describe(), "expected value at line 1 column 1");
    let i = ApiError::InvalidInput { cause: "key must be a string".to_string() };
    assert_eq!(i.describe(), "key must be a string");
}

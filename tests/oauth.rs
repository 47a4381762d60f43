use tdtk::oauth::authorization_code;

#[test]
fn code_is_read_from_redirect_target() {
    assert_eq!(
        authorization_code("GET /?code=abc123&state=xyz HTTP/1.1\r\n").as_deref(),
        Some("abc123")
    );
}

#[test]
fn code_is_percent_decoded_and_first_wins() {
    assert_eq!(
        authorization_code("GET /cb?state=s&code=a%20b&code=second HTTP/1.1").as_deref(),
        Some("a b")
    );
}

#[test]
fn leading_whitespace_is_skipped() {
    assert_eq!(authorization_code("  GET\t/?code=z HTTP/1.1").as_deref(), Some("z"));
}

#[test]
fn missing_code_gives_nothing() {
    assert_eq!(authorization_code("GET /?state=xyz HTTP/1.1"), None);
    assert_eq!(authorization_code("GET"), None);
    assert_eq!(authorization_code(""), None);
}

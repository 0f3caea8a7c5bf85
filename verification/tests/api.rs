use polyproto::api::normalize_url;

#[test]
fn route_is_resolved_against_the_address_of_the_server() {
    assert_eq!(
        normalize_url("https://example.com/", "/.p2/core/v1/challenge"),
        Ok("https://example.com/.p2/core/v1/challenge".to_string())
    );
    assert_eq!(
        normalize_url("https://example.com", "/.p2/core/v1/key/server"),
        Ok("https://example.com/.p2/core/v1/key/server".to_string())
    );
}

#[test]
fn address_is_given_in_its_normal_form() {
    assert_eq!(
        normalize_url("HTTPS://Example.COM:443/a/../b/", "c"),
        Ok("https://example.com/b/c".to_string())
    );
    assert_eq!(normalize_url("https://example.com/a/b", "c"), Ok("https://example.com/a/c".to_string()));
    assert_eq!(normalize_url("https://example.com/a/b", ""), Ok("https://example.com/a/b".to_string()));
}

#[test]
fn text_that_is_no_address_is_refused() {
    assert_eq!(
        normalize_url("example.com", "/.p2/core/v1/challenge"),
        Err(url::ParseError::RelativeUrlWithoutBase)
    );
    assert_eq!(normalize_url("", "/"), Err(url::ParseError::RelativeUrlWithoutBase));
    assert_eq!(normalize_url("https://", "/"), Err(url::ParseError::EmptyHost));
}

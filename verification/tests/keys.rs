use edge_router::keys::build_keys;
use edge_router::keys::make_keys;
use edge_router::keys::KeyError;

#[test]
fn path_key_gains_trailing_slash() {
    let k = build_keys("https://example.com/blog").unwrap();
    assert_eq!(k.path_key, "example.com/blog/");
    assert_eq!(k.domain_key, "example.com");
    assert_eq!(k.path, "/blog");
}

#[test]
fn trailing_slash_is_idempotent() {
    let k = build_keys("https://example.com/blog/").unwrap();
    assert_eq!(k.path_key, "example.com/blog/");
    assert_eq!(k.domain_key, "example.com");
    assert_eq!(k.path, "/blog/");
}

#[test]
fn root_path_yields_domain_slash() {
    let k = build_keys("https://example.com").unwrap();
    assert_eq!(k.path_key, "example.com/");
    assert_eq!(k.domain_key, "example.com");
    assert_eq!(k.path, "/");
}

#[test]
fn unparseable_url_is_invalid() {
    assert_eq!(build_keys("not a url"), Err(KeyError::InvalidUrl));
}

#[test]
fn ip_host_is_invalid() {
    assert_eq!(build_keys("https://127.0.0.1/x"), Err(KeyError::InvalidUrl));
}

#[test]
fn make_keys_appends_slash_to_empty_path() {
    let (path_key, domain_key) = make_keys("example.com", "");
    assert_eq!(path_key, "example.com/");
    assert_eq!(domain_key, "example.com");
}

#[test]
fn make_keys_keeps_existing_slash() {
    let (path_key, _) = make_keys("example.com", "/a/b/");
    assert_eq!(path_key, "example.com/a/b/");
}

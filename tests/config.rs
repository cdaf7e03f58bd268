use api_mock::{Config, Endpoint, MockError};

fn endpoint(uri: &str, file: &str) -> Endpoint {
    Endpoint { uri: uri.to_string(), file: file.to_string() }
}

#[test]
fn normalize_prepends_base_uri() {
    let mut e = endpoint("/a", "a.bin");
    e.normalize(&Some("http://x".to_string()), &None);
    assert_eq!(e.uri, "http://x/a");
    assert_eq!(e.file, "a.bin");
}

#[test]
fn normalize_concatenates_without_separator() {
    let mut e = endpoint("a", "a.bin");
    e.normalize(&Some("http://x/v1".to_string()), &None);
    assert_eq!(e.uri, "http://x/v1a");
}

#[test]
fn normalize_joins_directory_prefix() {
    let mut e = endpoint("http://x/a", "a.bin");
    e.normalize(&None, &Some("out".to_string()));
    assert_eq!(e.uri, "http://x/a");
    assert_eq!(e.file, "out/a.bin");
}

#[test]
fn normalize_without_prefixes_keeps_endpoint() {
    let mut e = endpoint("http://x/a", "a.bin");
    e.normalize(&None, &None);
    assert_eq!(e.uri, "http://x/a");
    assert_eq!(e.file, "a.bin");
}

#[test]
fn normalized_copy_leaves_original() {
    let e = endpoint("/b", "b.bin");
    let n = e.normalized(&Some("https://y".to_string()), &Some("dl".to_string()));
    assert_eq!(n.uri, "https://y/b");
    assert_eq!(n.file, "dl/b.bin");
    assert_eq!(e.uri, "/b");
}

#[test]
fn config_default_is_empty() {
    let c = Config::default();
    assert!(c.base_uri.is_none());
    assert!(c.file_path_prefix.is_none());
    assert!(c.endpoints.is_empty());
}

#[test]
fn config_normalize_uses_configured_prefixes() {
    let mut c = Config {
        base_uri: Some("http://x".to_string()),
        file_path_prefix: Some("out".to_string()),
        endpoints: vec![endpoint("/a", "a.bin"), endpoint("/b", "b.bin")],
    };
    let dir = c.normalize(None, None);
    assert_eq!(dir, Some("out".to_string()));
    assert_eq!(c.endpoints[0].uri, "http://x/a");
    assert_eq!(c.endpoints[0].file, "out/a.bin");
    assert_eq!(c.endpoints[1].uri, "http://x/b");
    assert_eq!(c.endpoints[1].file, "out/b.bin");
}

#[test]
fn config_normalize_overrides_win() {
    let mut c = Config {
        base_uri: Some("http://x".to_string()),
        file_path_prefix: Some("out".to_string()),
        endpoints: vec![endpoint("/a", "a.bin")],
    };
    let dir = c.normalize(Some("https://y".to_string()), Some("other".to_string()));
    assert_eq!(dir, Some("other".to_string()));
    assert_eq!(c.endpoints[0].uri, "https://y/a");
    assert_eq!(c.endpoints[0].file, "other/a.bin");
    assert_eq!(c.base_uri, Some("http://x".to_string()));
}

#[test]
fn config_normalize_without_prefixes() {
    let mut c = Config { base_uri: None, file_path_prefix: None, endpoints: vec![endpoint("http://x/a", "a.bin")] };
    assert_eq!(c.normalize(None, None), None);
    assert_eq!(c.endpoints[0].uri, "http://x/a");
    assert_eq!(c.endpoints[0].file, "a.bin");
}

#[test]
fn config_normalize_empty_batch() {
    let mut c = Config::default();
    assert_eq!(c.normalize(Some("http://x".to_string()), None), None);
    assert!(c.endpoints.is_empty());
}

#[test]
fn get_uri_parses_valid_uri() {
    let u = endpoint("http://x/a", "a.bin").get_uri().unwrap();
    assert_eq!(u.scheme_str(), Some("http"));
    assert_eq!(u.path(), "/a");
}

#[test]
fn get_uri_rejects_unparsable_uri() {
    let r = endpoint("http://exa mple/ a", "a.bin").get_uri();
    assert_eq!(r.unwrap_err(), MockError::UnparsableUri("http://exa mple/ a".to_string()));
}

#[test]
fn get_uri_rejects_empty_uri() {
    let r = endpoint("", "a.bin").get_uri();
    assert_eq!(r.unwrap_err(), MockError::UnparsableUri(String::new()));
}

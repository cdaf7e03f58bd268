use api_mock::MockError;

#[test]
fn message_unparsable_uri() {
    assert_eq!(MockError::UnparsableUri("x y".to_string()).message(), "unable to parse x y as a uri");
}

#[test]
fn message_scheme_errors() {
    assert_eq!(MockError::UnknownScheme("ftp://x/".to_string()).message(), "unknown scheme in ftp://x/");
    assert_eq!(MockError::NoScheme("/a".to_string()).message(), "no scheme in /a");
}

#[test]
fn message_transfer_errors() {
    assert_eq!(MockError::UnableToGet.message(), "unable to initiate get request");
    assert_eq!(MockError::NoChunk.message(), "no chunk");
    assert_eq!(MockError::UnableToCreateFile("a.bin".to_string()).message(), "unable to create file a.bin");
    assert_eq!(
        MockError::UnableToWriteToFile("a.bin".to_string()).message(),
        "unable to write to file a.bin"
    );
}

#[test]
fn message_request_failed() {
    let e = MockError::RequestFailed("http://x/a".to_string(), "404 Not Found".to_string());
    assert_eq!(e.message(), "request to http://x/a failed with 404 Not Found");
}

#[test]
fn message_config_errors() {
    assert_eq!(MockError::NoConfigFound("api.toml".to_string()).message(), "no config found at api.toml");
    assert_eq!(MockError::MalformedConfig("api.toml".to_string()).message(), "malformed config at api.toml");
    assert_eq!(MockError::CantCreatePaths("out".to_string()).message(), "can not create path for out");
}

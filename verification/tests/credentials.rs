use aws_lite::credentials::{find, Credentials, Expiry, MapError};
use aws_lite::imds::{credentials_from_document, Error, IoErrorKind};

fn pair(name: &str, value: &str) -> (String, String) {
    (name.to_string(), value.to_string())
}

#[test]
fn map_with_all_keys_gives_temporary_credentials() {
    let map = vec![
        pair("Code", "Success"),
        pair("AccessKeyId", "ASIAEXAMPLE"),
        pair("SecretAccessKey", "secret"),
        pair("Token", "token"),
        pair("Expiration", "2024-05-01T12:30:45Z"),
    ];
    let c = Credentials::from_map(&map).unwrap();
    assert_eq!(c.access_key_id, "ASIAEXAMPLE");
    assert_eq!(c.secret_access_key, "secret");
    assert_eq!(c.session_token.as_deref(), Some("token"));
    assert_eq!(c.expires_after, Some(Expiry { secs: 1_714_566_645, nanos: 0 }));
}

#[test]
fn map_without_token_and_expiration_gives_long_term_credentials() {
    let map = vec![pair("SecretAccessKey", "secret"), pair("AccessKeyId", "AKIA")];
    let c = Credentials::from_map(&map).unwrap();
    assert_eq!(c.access_key_id, "AKIA");
    assert_eq!(c.secret_access_key, "secret");
    assert_eq!(c.session_token, None);
    assert_eq!(c.expires_after, None);
}

#[test]
fn missing_access_key_is_not_found() {
    let map = vec![pair("SecretAccessKey", "secret"), pair("Token", "t")];
    match Credentials::from_map(&map) {
        Err(MapError::NotFound(what)) => assert_eq!(what, "AccessKeyId not found"),
        other => panic!("unexpected: {:?}", other),
    }
    match Credentials::from_map(&Vec::new()) {
        Err(MapError::NotFound(what)) => assert_eq!(what, "AccessKeyId not found"),
        other => panic!("unexpected: {:?}", other),
    }
}

#[test]
fn missing_secret_key_is_not_found() {
    let map = vec![pair("AccessKeyId", "AKIA"), pair("Expiration", "garbage")];
    match Credentials::from_map(&map) {
        Err(MapError::NotFound(what)) => assert_eq!(what, "SecretAccessKey not found"),
        other => panic!("unexpected: {:?}", other),
    }
}

#[test]
fn bad_expiration_is_invalid_input() {
    let map = vec![
        pair("AccessKeyId", "AKIA"),
        pair("SecretAccessKey", "secret"),
        pair("Expiration", "tomorrow"),
    ];
    match Credentials::from_map(&map) {
        Err(MapError::InvalidInput(what)) => {
            assert!(what.starts_with("Unable to parse expiration: "));
            assert!(what.len() > "Unable to parse expiration: ".len());
        }
        other => panic!("unexpected: {:?}", other),
    }
}

#[test]
fn expiration_keeps_offset_and_fraction() {
    let map = vec![
        pair("AccessKeyId", "AKIA"),
        pair("SecretAccessKey", "secret"),
        pair("Expiration", "1970-01-01T01:00:01.5+01:00"),
    ];
    let c = Credentials::from_map(&map).unwrap();
    assert_eq!(c.expires_after, Some(Expiry { secs: 1, nanos: 500_000_000 }));
    let map = vec![
        pair("AccessKeyId", "AKIA"),
        pair("SecretAccessKey", "secret"),
        pair("Expiration", "1969-12-31T23:59:59Z"),
    ];
    let c = Credentials::from_map(&map).unwrap();
    assert_eq!(c.expires_after, Some(Expiry { secs: -1, nanos: 0 }));
}

#[test]
fn find_returns_the_first_match() {
    let map = vec![pair("a", "1"), pair("b", "2"), pair("a", "3")];
    assert_eq!(find(&map, "a").map(|s| s.as_str()), Some("1"));
    assert_eq!(find(&map, "b").map(|s| s.as_str()), Some("2"));
    assert_eq!(find(&map, "c"), None);
    assert_eq!(find(&map, "A"), None);
}

#[test]
fn new_keeps_its_parts() {
    let at = Expiry { secs: 7, nanos: 8 };
    let c = Credentials::new("id", "key", Some("tok".to_string()), Some(at));
    assert_eq!(c.access_key_id, "id");
    assert_eq!(c.secret_access_key, "key");
    assert_eq!(c.session_token.as_deref(), Some("tok"));
    assert_eq!(c.expires_after, Some(at));
}

#[test]
fn document_is_parsed_into_credentials() {
    let text = r#"{"Code":"Success","AccessKeyId":"ASIA","SecretAccessKey":"s","Token":"t","Expiration":"2030-01-01T00:00:00Z"}"#;
    let c = credentials_from_document(text).unwrap();
    assert_eq!(c.access_key_id, "ASIA");
    assert_eq!(c.secret_access_key, "s");
    assert_eq!(c.session_token.as_deref(), Some("t"));
    assert_eq!(c.expires_after, Some(Expiry { secs: 1_893_456_000, nanos: 0 }));
}

#[test]
fn document_without_access_key_is_not_found() {
    match credentials_from_document(r#"{"SecretAccessKey":"s"}"#) {
        Err(Error::Io(IoErrorKind::NotFound, what)) => assert_eq!(what, "AccessKeyId not found"),
        other => panic!("unexpected: {:?}", other),
    }
}

#[test]
fn document_with_bad_expiration_is_invalid_input() {
    let text = r#"{"AccessKeyId":"a","SecretAccessKey":"s","Expiration":"x"}"#;
    assert!(matches!(
        credentials_from_document(text),
        Err(Error::Io(IoErrorKind::InvalidInput, _))
    ));
}

#[test]
fn document_that_is_no_string_map_is_a_json_error() {
    for text in ["", "[]", r#"{"AccessKeyId":1}"#, "{"] {
        assert!(matches!(credentials_from_document(text), Err(Error::SerdeJson(_))));
    }
}

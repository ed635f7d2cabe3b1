use aws_lite::imds::{join, Error, Imds, IoErrorKind};
use aws_lite::request::Request;
use std::cell::RefCell;

fn pair(name: &str, value: &str) -> (String, String) {
    (name.to_string(), value.to_string())
}

#[test]
fn default_endpoint_is_the_link_local_address() {
    assert_eq!(Imds::default().endpoint, "http://169.254.169.254");
}

#[test]
fn token_request_is_a_put_with_ttl() {
    let r = Imds::default().token_request();
    assert_eq!(r.method, "PUT");
    assert_eq!(r.url, "http://169.254.169.254/latest/api/token");
    assert_eq!(r.headers, vec![pair("X-aws-ec2-metadata-token-ttl-seconds", "21600")]);
}

#[test]
fn read_request_is_a_get_with_token() {
    let imds = Imds { endpoint: "http://localhost:8080".to_string() };
    let r = imds.read_request("latest/user-data", "tok");
    assert_eq!(r.method, "GET");
    assert_eq!(r.url, "http://localhost:8080/latest/user-data");
    assert_eq!(r.headers, vec![pair("X-aws-ec2-metadata-token", "tok")]);
}

#[test]
fn join_follows_path_rules() {
    assert_eq!(join("latest/meta-data", "placement/region"), "latest/meta-data/placement/region");
    assert_eq!(join("iam/security-credentials/", "role"), "iam/security-credentials/role");
    assert_eq!(join("a", "/b"), "/b");
    assert_eq!(join("", "b"), "b");
    assert_eq!(join("a", ""), "a/");
    assert_eq!(
        join("latest/meta-data", "iam/security-credentials/"),
        "latest/meta-data/iam/security-credentials/"
    );
}

#[test]
fn get_asks_for_the_token_then_reads() {
    let seen = RefCell::new(Vec::new());
    let imds = Imds::default();
    let token = |r: &Request| {
        seen.borrow_mut().push(format!("{} {}", r.method, r.url));
        Ok("tok".to_string())
    };
    let transport = |r: &Request| {
        seen.borrow_mut().push(format!("{} {} {}", r.method, r.url, r.headers[0].1));
        Ok("answer".to_string())
    };
    assert_eq!(imds.get("some/path", &token, &transport).unwrap(), "answer");
    assert_eq!(
        *seen.borrow(),
        vec![
            "PUT http://169.254.169.254/latest/api/token".to_string(),
            "GET http://169.254.169.254/some/path tok".to_string(),
        ]
    );
}

#[test]
fn token_failure_is_an_io_error_and_nothing_is_read() {
    let imds = Imds::default();
    let token = |_: &Request| Err("no route".to_string());
    let transport = |_: &Request| -> Result<String, Error> { panic!("nothing is read") };
    match imds.get("p", &token, &transport) {
        Err(Error::Io(IoErrorKind::Other, what)) => assert_eq!(what, "no route"),
        other => panic!("unexpected: {:?}", other),
    }
}

#[test]
fn transport_failure_is_handed_on() {
    let imds = Imds::default();
    let token = |_: &Request| Ok("t".to_string());
    let transport = |_: &Request| -> Result<String, Error> { Err(Error::Request("404".to_string())) };
    assert!(matches!(imds.get_user_data(&token, &transport), Err(Error::Request(m)) if m == "404"));
}

#[test]
fn user_data_region_and_metadata_read_their_paths() {
    let imds = Imds::default();
    let token = |_: &Request| Ok("t".to_string());
    let transport = |r: &Request| Ok(r.url.clone());
    assert_eq!(
        imds.get_user_data(&token, &transport).unwrap(),
        "http://169.254.169.254/latest/user-data"
    );
    assert_eq!(
        imds.get_region(&token, &transport).unwrap(),
        "http://169.254.169.254/latest/meta-data/placement/region"
    );
    assert_eq!(
        imds.get_metadata("instance-id", &token, &transport).unwrap(),
        "http://169.254.169.254/latest/meta-data/instance-id"
    );
}

#[test]
fn credentials_are_fetched_for_the_role() {
    let imds = Imds::default();
    let token = |_: &Request| Ok("t".to_string());
    let transport = |r: &Request| {
        if r.url == "http://169.254.169.254/latest/meta-data/iam/security-credentials/" {
            Ok("my-role".to_string())
        } else if r.url == "http://169.254.169.254/latest/meta-data/iam/security-credentials/my-role" {
            Ok(r#"{"AccessKeyId":"ASIA","SecretAccessKey":"s","Token":"tok"}"#.to_string())
        } else {
            Err(Error::Request(format!("unexpected {}", r.url)))
        }
    };
    let c = imds.get_credentials(&token, &transport).unwrap();
    assert_eq!(c.access_key_id, "ASIA");
    assert_eq!(c.secret_access_key, "s");
    assert_eq!(c.session_token.as_deref(), Some("tok"));
    assert_eq!(c.expires_after, None);
}

#[test]
fn credentials_without_access_key_are_not_found() {
    let imds = Imds::default();
    let token = |_: &Request| Ok("t".to_string());
    let transport = |r: &Request| {
        if r.url.ends_with('/') {
            Ok("role".to_string())
        } else {
            Ok(r#"{"SecretAccessKey":"s"}"#.to_string())
        }
    };
    match imds.get_credentials(&token, &transport) {
        Err(Error::Io(IoErrorKind::NotFound, what)) => assert_eq!(what, "AccessKeyId not found"),
        other => panic!("unexpected: {:?}", other),
    }
}

#[test]
fn role_lookup_failure_ends_the_fetch() {
    let imds = Imds::default();
    let calls = RefCell::new(0);
    let token = |_: &Request| Ok("t".to_string());
    let transport = |_: &Request| -> Result<String, Error> {
        *calls.borrow_mut() += 1;
        Err(Error::Request("down".to_string()))
    };
    assert!(matches!(imds.get_credentials(&token, &transport), Err(Error::Request(_))));
    assert_eq!(*calls.borrow(), 1);
}

#[test]
fn error_texts_name_their_kind() {
    assert_eq!(Error::Io(IoErrorKind::NotFound, "x not found".to_string()).message(), "IO error: x not found");
    assert_eq!(Error::SerdeJson("eof".to_string()).message(), "JSON error: eof");
    assert_eq!(Error::Request("503".to_string()).message(), "HTTP request error: 503");
}

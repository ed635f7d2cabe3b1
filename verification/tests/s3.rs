use aws_lite::credentials::Credentials;
use aws_lite::request::{Error as RequestError, Request};
use aws_lite::s3::{Api, CommonPrefix, Error, ErrorBody, GetObjectInput, ListObjectsV2Input};
use std::cell::RefCell;

fn api() -> Api {
    Api::new("eu-west-1", Credentials::new("AKIA", "secret", None, None))
}

fn no_decode(_: &Vec<u8>) -> Result<ErrorBody, String> {
    panic!("nothing to decode")
}

#[test]
fn s3_url_names_bucket_service_and_region() {
    assert_eq!(api().url("bucket"), "https://bucket.s3.eu-west-1.amazonaws.com");
}

#[test]
fn list_objects_v2_signs_the_query() {
    let seen = RefCell::new(Vec::new());
    let input = ListObjectsV2Input::default().bucket("b").continuation_token("t/1").prefix("logs/");
    let r = api().list_objects_v2(
        input,
        |request: &Request, body: &[u8]| {
            seen.borrow_mut().push((request.clone(), body.to_vec()));
            Ok::<(), RequestError>(())
        },
        |_| (),
        &no_decode,
    );
    assert!(r.is_ok());
    let seen = seen.borrow();
    let (request, body) = &seen[0];
    assert_eq!(request.method, "GET");
    assert_eq!(
        request.url,
        "https://b.s3.eu-west-1.amazonaws.com/?list-type=2&continuation-token=t%2F1&prefix=logs%2F"
    );
    assert!(body.is_empty());
    let names: Vec<&str> = request.headers.iter().map(|h| h.0.as_str()).collect();
    assert_eq!(names, vec!["x-amz-date", "authorization", "x-amz-content-sha256"]);
    assert_eq!(
        request.headers[2].1,
        "e3b0c44298fc1c149afbf4c8996fb92427ae41e4649b934ca495991b7852b855"
    );
}

#[test]
fn list_objects_v2_without_options_has_only_the_list_type() {
    let url = RefCell::new(String::new());
    let r = api().list_objects_v2(
        ListObjectsV2Input::default().bucket("b"),
        |request: &Request, _: &[u8]| {
            *url.borrow_mut() = request.url.clone();
            Ok::<(), RequestError>(())
        },
        |_| (),
        &no_decode,
    );
    assert!(r.is_ok());
    assert_eq!(*url.borrow(), "https://b.s3.eu-west-1.amazonaws.com/?list-type=2");
}

#[test]
fn get_object_hands_back_the_body() {
    let url = RefCell::new(String::new());
    let r = api().get_object(
        GetObjectInput::default().bucket("b").key("dir/file.txt"),
        |request: &Request, _: &[u8]| {
            *url.borrow_mut() = request.url.clone();
            Ok::<Vec<u8>, RequestError>(b"content".to_vec())
        },
        |_| (),
        &no_decode,
    );
    assert_eq!(r.ok().map(|o| o.body), Some(b"content".to_vec()));
    assert_eq!(*url.borrow(), "https://b.s3.eu-west-1.amazonaws.com/dir/file.txt");
}

#[test]
fn get_object_failure_is_classified() {
    let calls = RefCell::new(0);
    let r = api().get_object(
        GetObjectInput::default().bucket("b").key("k"),
        |_: &Request, _: &[u8]| {
            *calls.borrow_mut() += 1;
            Err::<(), RequestError>(RequestError::Api(404, b"<Error/>".to_vec()))
        },
        |_| (),
        &|_: &Vec<u8>| {
            Ok(ErrorBody {
                code: "NoSuchKey".to_string(),
                message: "The specified key does not exist.".to_string(),
                resource: Some("/b/k".to_string()),
                request_id: "1".to_string(),
            })
        },
    );
    assert_eq!(*calls.borrow(), 5);
    match r {
        Err(e @ Error::S3(_)) => assert_eq!(e.message(), "s3 error: The specified key does not exist."),
        _ => panic!("the service's error is surfaced"),
    }
}

#[test]
fn s3_undecodable_error_body_is_an_xml_error() {
    let e = Error::from_request_error(RequestError::Api(403, Vec::new()), &|_: &Vec<u8>| {
        Err("unexpected end".to_string())
    });
    assert!(matches!(&e, Error::Xml(why) if why == "unexpected end"));
    assert_eq!(e.message(), "xml error: unexpected end");
    assert_eq!(Error::Io("closed".to_string()).message(), "io error: closed");
    let e = Error::from_request_error(RequestError::Api(301, Vec::new()), &|_: &Vec<u8>| {
        Ok(ErrorBody::default())
    });
    assert_eq!(e.message(), "s3 error: ");
}

#[test]
fn s3_input_builders_set_one_field_each() {
    let g = GetObjectInput::default().key("k").bucket("b");
    assert_eq!((g.bucket.as_str(), g.key.as_str()), ("b", "k"));
    let l = ListObjectsV2Input::default().prefix("p").bucket("b");
    assert_eq!(l.bucket, "b");
    assert_eq!(l.prefix.as_deref(), Some("p"));
    assert_eq!(l.continuation_token, None);
    let l = l.continuation_token("c");
    assert_eq!(l.continuation_token.as_deref(), Some("c"));
    assert_eq!(l.prefix.as_deref(), Some("p"));
    assert_eq!(CommonPrefix::new("logs/").prefix(), "logs/");
}

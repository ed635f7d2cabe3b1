use aws_lite::credentials::Credentials;
use aws_lite::ec2::{
    describe_volumes_input_params, filters_to_params, join_messages, strings_to_params, Api,
    ApiError, AttachVolumeInput, DescribeVolumesInput, Error, ErrorBody, Errors, Filter, Status,
};
use aws_lite::request::{Error as RequestError, Request, SigningFailure};
use std::cell::RefCell;

fn pair(name: &str, value: &str) -> (String, String) {
    (name.to_string(), value.to_string())
}

fn api() -> Api {
    Api::new("us-east-1", Credentials::new("AKIA", "secret", None, None))
}

fn no_decode(_: &Vec<u8>) -> Result<ErrorBody, String> {
    panic!("nothing to decode")
}

#[test]
fn ec2_url_names_service_and_region() {
    assert_eq!(api().url(), "https://ec2.us-east-1.amazonaws.com");
}

#[test]
fn filter_params_are_numbered_from_one() {
    let f = Filter { name: "status".to_string(), values: vec!["available".to_string(), "in-use".to_string()] };
    assert_eq!(
        f.to_params("Filter.1"),
        vec![
            pair("Filter.1.Name", "status"),
            pair("Filter.1.Value.1", "available"),
            pair("Filter.1.Value.2", "in-use"),
        ]
    );
    let empty = Filter::default();
    assert_eq!(empty.to_params("F"), vec![pair("F.Name", "")]);
}

#[test]
fn filters_and_strings_are_numbered_from_one() {
    let filters = vec![
        Filter { name: "a".to_string(), values: vec!["x".to_string()] },
        Filter { name: "b".to_string(), values: vec![] },
    ];
    assert_eq!(
        filters_to_params(&filters, "Filter"),
        vec![pair("Filter.1.Name", "a"), pair("Filter.1.Value.1", "x"), pair("Filter.2.Name", "b")]
    );
    let ids: Vec<String> = (0..11).map(|i| format!("vol-{}", i)).collect();
    let params = strings_to_params(&ids, "VolumeId");
    assert_eq!(params.len(), 11);
    assert_eq!(params[0], pair("VolumeId.1", "vol-0"));
    assert_eq!(params[9], pair("VolumeId.10", "vol-9"));
    assert_eq!(params[10], pair("VolumeId.11", "vol-10"));
    assert_eq!(strings_to_params(&Vec::new(), "V"), Vec::new());
}

#[test]
fn describe_volumes_params_follow_the_input() {
    let input = DescribeVolumesInput::default();
    assert_eq!(
        describe_volumes_input_params(&input),
        vec![pair("Action", "DescribeVolumes"), pair("Version", "2016-11-15")]
    );
    let input = DescribeVolumesInput::default()
        .filters(vec![Filter { name: "tag:Name".to_string(), values: vec!["db".to_string()] }])
        .max_results(4294967295)
        .next_token("tok")
        .volume_ids(vec!["vol-1".to_string(), "vol-2".to_string()]);
    assert_eq!(
        describe_volumes_input_params(&input),
        vec![
            pair("Action", "DescribeVolumes"),
            pair("Version", "2016-11-15"),
            pair("Filter.1.Name", "tag:Name"),
            pair("Filter.1.Value.1", "db"),
            pair("MaxResults", "4294967295"),
            pair("NextToken", "tok"),
            pair("VolumeId.1", "vol-1"),
            pair("VolumeId.2", "vol-2"),
        ]
    );
}

#[test]
fn describe_volumes_builders_set_one_field_each() {
    let input = DescribeVolumesInput::default().max_results(0).next_token("t");
    assert_eq!(input.max_results, Some(0));
    assert_eq!(input.next_token.as_deref(), Some("t"));
    assert!(input.filters.is_none());
    assert!(input.volume_ids.is_none());
    let input = input.volume_ids(vec![]).filters(vec![]);
    assert_eq!(input.volume_ids, Some(vec![]));
    assert_eq!(input.filters.map(|f| f.len()), Some(0));
    assert_eq!(input.max_results, Some(0));
}

#[test]
fn attach_volume_posts_signed_form() {
    let seen = RefCell::new(Vec::new());
    let input = AttachVolumeInput {
        device: "/dev/sdf".to_string(),
        instance_id: "i-1".to_string(),
        volume_id: "vol-1".to_string(),
    };
    let r = api().attach_volume(
        input,
        |request: &Request, body: &[u8]| {
            seen.borrow_mut().push((request.clone(), body.to_vec()));
            Ok::<u8, RequestError>(7)
        },
        |_| panic!("no pause"),
        &no_decode,
    );
    assert_eq!(r.unwrap(), 7);
    let seen = seen.borrow();
    assert_eq!(seen.len(), 1);
    let (request, body) = &seen[0];
    assert_eq!(request.method, "POST");
    assert_eq!(request.url, "https://ec2.us-east-1.amazonaws.com");
    assert_eq!(
        String::from_utf8(body.clone()).unwrap(),
        "Action=AttachVolume&Version=2016-11-15&Device=%2Fdev%2Fsdf&InstanceId=i-1&VolumeId=vol-1"
    );
    let names: Vec<&str> = request.headers.iter().map(|h| h.0.as_str()).collect();
    assert_eq!(names, vec!["x-amz-date", "authorization"]);
    assert!(request.headers[1].1.contains("/us-east-1/ec2/aws4_request"));
}

#[test]
fn describe_volumes_retries_with_the_same_signed_request() {
    let seen = RefCell::new(Vec::new());
    let pauses = RefCell::new(Vec::new());
    let r = api().describe_volumes(
        DescribeVolumesInput::default().max_results(5),
        |request: &Request, body: &[u8]| {
            seen.borrow_mut().push((request.clone(), body.to_vec()));
            if seen.borrow().len() < 3 {
                Err(RequestError::Transport("reset".to_string()))
            } else {
                Ok("volumes")
            }
        },
        |ms| pauses.borrow_mut().push(ms),
        &no_decode,
    );
    assert_eq!(r.unwrap(), "volumes");
    let seen = seen.borrow();
    assert_eq!(seen.len(), 3);
    assert_eq!(seen[0].0.url, "https://ec2.us-east-1.amazonaws.com/");
    assert_eq!(seen[0].1, b"Action=DescribeVolumes&Version=2016-11-15&MaxResults=5".to_vec());
    for attempt in seen.iter() {
        assert_eq!(attempt.0.headers, seen[0].0.headers);
        assert_eq!(attempt.0.url, seen[0].0.url);
        assert_eq!(attempt.1, seen[0].1);
    }
    assert_eq!(*pauses.borrow(), vec![10, 20]);
}

#[test]
fn status_failure_is_decoded_after_five_attempts() {
    let calls = RefCell::new(0);
    let r: Result<(), Error> = api().describe_volumes(
        DescribeVolumesInput::default(),
        |_: &Request, _: &[u8]| {
            *calls.borrow_mut() += 1;
            Err(RequestError::Api(400, b"<Response/>".to_vec()))
        },
        |_| (),
        &|body: &Vec<u8>| {
            assert_eq!(body, b"<Response/>");
            Ok(ErrorBody {
                errors: Errors {
                    error: vec![
                        ApiError { code: "A".to_string(), message: "first".to_string() },
                        ApiError { code: "B".to_string(), message: "second".to_string() },
                    ],
                },
                request_id: "r".to_string(),
            })
        },
    );
    assert_eq!(*calls.borrow(), 5);
    match r {
        Err(e @ Error::EC2(_)) => assert_eq!(e.message(), "ec2 error(s): first, second"),
        other => panic!("unexpected: {:?}", other),
    }
}

#[test]
fn undecodable_error_body_is_an_xml_error() {
    let e = Error::from_request_error(RequestError::Api(500, vec![1, 2]), &|_: &Vec<u8>| {
        Err("bad xml".to_string())
    });
    assert!(matches!(&e, Error::Xml(why) if why == "bad xml"));
    assert_eq!(e.message(), "xml error: bad xml");
}

#[test]
fn transport_and_signing_failures_are_kept() {
    let e = Error::from_request_error(RequestError::Transport("t".to_string()), &no_decode);
    assert!(matches!(&e, Error::Request(RequestError::Transport(why)) if why == "t"));
    assert_eq!(e.message(), "http request error: Transport error: t");
    let e = Error::from_request_error(
        RequestError::SigningError(SigningFailure::RelativeUrl),
        &no_decode,
    );
    assert!(matches!(&e, Error::Request(RequestError::SigningError(SigningFailure::RelativeUrl))));
    assert_eq!(e.message(), "http request error: Signing error: the URL is not absolute");
}

#[test]
fn messages_are_joined_by_comma() {
    let e = |m: &str| ApiError { code: String::new(), message: m.to_string() };
    assert_eq!(join_messages(&vec![]), "");
    assert_eq!(join_messages(&vec![e("one")]), "one");
    assert_eq!(join_messages(&vec![e("one"), e(""), e("three")]), "one, , three");
    assert_eq!(Error::Io("eof".to_string()).message(), "io error: eof");
    assert_eq!(Error::EC2(ErrorBody::default()).message(), "ec2 error(s): ");
}

#[test]
fn status_defaults_to_unknown() {
    assert_eq!(Status::default(), Status::Unknown);
    assert_ne!(Status::Attached, Status::Attaching);
}

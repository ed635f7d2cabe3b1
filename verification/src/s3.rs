//! Object storage: listing and fetching objects.

use vstd::prelude::*;
use vstd::string::*;
use crate::credentials::{Credentials, CredentialsView};
use crate::request::{send_signed, signed_and_sent, with_query, Request, RequestView};
use crate::text::concat2;

verus! {

/// The name under which requests to this service are signed.
pub const SERVICE_NAME: &'static str = "s3";

/// How often a request is attempted.
pub const MAX_ATTEMPTS: u32 = 5;

/// Which object to fetch.
#[derive(Clone, Debug, Default)]
pub struct GetObjectInput {
    pub bucket: String,
    pub key: String,
}

impl GetObjectInput {
    /// Sets the bucket; the key is kept.
    pub fn bucket(self, bucket: &str) -> (r: GetObjectInput)
        ensures
            r.bucket@ == bucket@,
            r.key == self.key,
    {
        let mut r = self;
        r.bucket = bucket.to_owned();
        r
    }

    /// Sets the key; the bucket is kept.
    pub fn key(self, key: &str) -> (r: GetObjectInput)
        ensures
            r.bucket == self.bucket,
            r.key@ == key@,
    {
        let mut r = self;
        r.key = key.to_owned();
        r
    }
}

/// A fetched object: the handle on its content, as the transport gave it.
pub struct GetObjectOutput<B> {
    pub body: B,
}

/// Which objects to list.
#[derive(Clone, Debug, Default)]
pub struct ListObjectsV2Input {
    pub bucket: String,
    pub continuation_token: Option<String>,
    pub prefix: Option<String>,
}

impl ListObjectsV2Input {
    /// Sets the bucket; the other fields are kept.
    pub fn bucket(self, bucket: &str) -> (r: ListObjectsV2Input)
        ensures
            r.bucket@ == bucket@,
            r.continuation_token == self.continuation_token,
            r.prefix == self.prefix,
    {
        let mut r = self;
        r.bucket = bucket.to_owned();
        r
    }

    /// Sets the token of the page to fetch; the other fields are kept.
    pub fn continuation_token(self, continuation_token: &str) -> (r: ListObjectsV2Input)
        ensures
            r.bucket == self.bucket,
            r.continuation_token is Some && r.continuation_token->0@ == continuation_token@,
            r.prefix == self.prefix,
    {
        let mut r = self;
        r.continuation_token = Some(continuation_token.to_owned());
        r
    }

    /// Sets the prefix of the keys to list; the other fields are kept.
    pub fn prefix(self, prefix: &str) -> (r: ListObjectsV2Input)
        ensures
            r.bucket == self.bucket,
            r.continuation_token == self.continuation_token,
            r.prefix is Some && r.prefix->0@ == prefix@,
    {
        let mut r = self;
        r.prefix = Some(prefix.to_owned());
        r
    }
}

/// A prefix that stands for the keys below it.
#[derive(Clone, Debug, Default)]
pub struct CommonPrefix {
    prefix: String,
}

impl CommonPrefix {
    /// A common prefix.
    pub fn new(prefix: &str) -> (r: CommonPrefix)
        ensures
            r.text() == prefix@,
    {
        CommonPrefix { prefix: prefix.to_owned() }
    }

    /// The prefix.
    pub closed spec fn text(&self) -> Seq<char> {
        self.prefix@
    }

    /// The prefix.
    pub fn prefix(&self) -> (r: &str)
        ensures
            r@ == self.text(),
    {
        self.prefix.as_str()
    }
}

/// The body of an error response.
#[derive(Clone, Debug, Default)]
pub struct ErrorBody {
    pub code: String,
    pub message: String,
    pub resource: Option<String>,
    pub request_id: String,
}

/// Why an operation failed.
#[derive(Debug)]
pub enum Error {
    /// The response could not be read.
    Io(String),
    /// The request could not be signed or sent.
    Request(crate::request::Error),
    /// The service answered with an error.
    S3(ErrorBody),
    /// A response body could not be decoded; the text says why.
    Xml(String),
}

/// Whether `r` is what a failed request becomes: a status failure is what
/// decoding its body gives, the service's error or the decoding failure;
/// any other failure is kept as it is.
pub open spec fn classified<D: Fn(&Vec<u8>) -> Result<ErrorBody, String>>(
    decode: D,
    failure: crate::request::Error,
    r: Error,
) -> bool {
    match failure {
        crate::request::Error::Api(_, body) => exists|decoded: Result<ErrorBody, String>| #[trigger]
            decode.ensures((&body,), decoded) && r == (match decoded {
                Ok(shape) => Error::S3(shape),
                Err(why) => Error::Xml(why),
            }),
        _ => r == Error::Request(failure),
    }
}

/// Whether `text` is the text of `e`, as it is shown to users.
pub open spec fn error_text(e: Error, text: Seq<char>) -> bool {
    match e {
        Error::Io(why) => text == "io error: "@ + why@,
        Error::Request(inner) => exists|why: Seq<char>| #[trigger]
            crate::request::error_text(inner, why) && text == "http request error: "@ + why,
        Error::S3(body) => text == "s3 error: "@ + body.message@,
        Error::Xml(why) => text == "xml error: "@ + why@,
    }
}

impl Error {
    /// The text of the error, as it is shown to users.
    pub fn message(&self) -> (r: String)
        ensures
            error_text(*self, r@),
    {
        match self {
            Error::Io(why) => concat2("io error: ", why.as_str()),
            Error::Request(inner) => {
                let why = inner.message();
                assert(crate::request::error_text(*inner, why@));
                concat2("http request error: ", why.as_str())
            },
            Error::S3(body) => concat2("s3 error: ", body.message.as_str()),
            Error::Xml(why) => concat2("xml error: ", why.as_str()),
        }
    }

    /// Classifies a failed request. The body of a status failure is decoded
    /// with `decode`; where that fails, the decoding failure is the result.
    pub fn from_request_error<D>(failure: crate::request::Error, decode: &D) -> (r: Error) where
        D: Fn(&Vec<u8>) -> Result<ErrorBody, String>,

        requires
            forall|body: &Vec<u8>| decode.requires((body,)),
        ensures
            classified(*decode, failure, r),
    {
        match failure {
            crate::request::Error::Api(code, body) => {
                let decoded = decode(&body);
                assert(decode.ensures((&body,), decoded));
                match decoded {
                    Ok(shape) => Error::S3(shape),
                    Err(why) => Error::Xml(why),
                }
            },
            crate::request::Error::SigningError(e) => Error::Request(
                crate::request::Error::SigningError(e),
            ),
            crate::request::Error::Transport(e) => Error::Request(
                crate::request::Error::Transport(e),
            ),
        }
    }
}

/// The endpoint of a bucket in a region.
pub open spec fn endpoint(bucket: Seq<char>, region: Seq<char>) -> Seq<char> {
    "https://"@ + bucket + "."@ + SERVICE_NAME@ + "."@ + region + ".amazonaws.com"@
}

/// `url` with the parameter added where a value is set.
pub open spec fn with_optional_query(url: Seq<char>, name: Seq<char>, value: Option<String>) -> Seq<
    char,
> {
    match value {
        Some(v) => with_query(url, name, v@),
        None => url,
    }
}

/// The URL that lists a bucket: the root of the bucket's endpoint with the
/// parameters `list-type=2`, `continuation-token` and `prefix`, the last two
/// where they are set.
pub open spec fn list_url(input: ListObjectsV2Input, region: Seq<char>) -> Seq<char> {
    with_optional_query(
        with_optional_query(
            with_query(endpoint(input.bucket@, region) + "/"@, "list-type"@, "2"@),
            "continuation-token"@,
            input.continuation_token,
        ),
        "prefix"@,
        input.prefix,
    )
}

/// The URL of an object: its key below the root of the bucket's endpoint.
pub open spec fn object_url(input: GetObjectInput, region: Seq<char>) -> Seq<char> {
    endpoint(input.bucket@, region) + "/"@ + input.key@
}

/// Whether `r` can come of a call: the request is signed for this service
/// over an empty body and sent within the budget, and a failure is
/// classified.
pub open spec fn called<T, F, P, D>(
    transport: F,
    pause: P,
    decode: D,
    request: RequestView,
    credentials: CredentialsView,
    region: Seq<char>,
    r: Result<T, Error>,
) -> bool where
    F: Fn(&Request, &[u8]) -> Result<T, crate::request::Error>,
    P: Fn(u64) -> (),
    D: Fn(&Vec<u8>) -> Result<ErrorBody, String>,
 {
    exists|body: &[u8], outcome: Result<T, crate::request::Error>| #[trigger]
        signed_and_sent(
            transport,
            pause,
            request,
            body,
            credentials,
            region,
            SERVICE_NAME@,
            MAX_ATTEMPTS,
            outcome,
        ) && body@.len() == 0 && match outcome {
            Ok(response) => r == Ok::<T, Error>(response),
            Err(failure) => r is Err && classified(decode, failure, r->Err_0),
        }
}

/// A client of the service in one region.
#[derive(Clone, Debug)]
pub struct Api {
    pub credentials: Credentials,
    pub region: String,
}

impl Api {
    /// A client for `region` that signs with `credentials`.
    pub fn new(region: &str, credentials: Credentials) -> (r: Api)
        ensures
            r.region@ == region@,
            r.credentials == credentials,
    {
        Api { region: region.to_owned(), credentials }
    }

    /// The endpoint of `bucket` in the client's region.
    pub fn url(&self, bucket: &str) -> (r: String)
        ensures
            r@ == endpoint(bucket@, self.region@),
    {
        let mut out = concat2("https://", bucket);
        out.append(".");
        out.append(SERVICE_NAME);
        out.append(".");
        out.append(self.region.as_str());
        out.append(".amazonaws.com");
        out
    }

    /// Sends `request` without a body.
    pub fn send<T, F, P, D>(&self, request: Request, transport: F, pause: P, decode: &D) -> (r:
        Result<T, Error>) where
        F: Fn(&Request, &[u8]) -> Result<T, crate::request::Error>,
        P: Fn(u64) -> (),
        D: Fn(&Vec<u8>) -> Result<ErrorBody, String>,

        requires
            forall|signed: &Request, bytes: &[u8]| transport.requires((signed, bytes)),
            forall|ms: u64| pause.requires((ms,)),
            forall|body: &Vec<u8>| decode.requires((body,)),
        ensures
            called(transport, pause, *decode, request@, self.credentials@, self.region@, r),
    {
        let empty: Vec<u8> = Vec::new();
        let body = empty.as_slice();
        let outcome = send_signed(
            request,
            body,
            &self.credentials,
            self.region.as_str(),
            SERVICE_NAME,
            MAX_ATTEMPTS,
            transport,
            pause,
        );
        let ghost seen = outcome;
        match outcome {
            Ok(response) => {
                assert(seen == Ok::<T, crate::request::Error>(response));
                Ok(response)
            },
            Err(failure) => {
                assert(seen == Err::<T, crate::request::Error>(failure));
                Err(Error::from_request_error(failure, decode))
            },
        }
    }

    /// Lists the objects of a bucket: a `GET` on [`list_url`].
    pub fn list_objects_v2<T, F, P, D>(
        &self,
        input: ListObjectsV2Input,
        transport: F,
        pause: P,
        decode: &D,
    ) -> (r: Result<T, Error>) where
        F: Fn(&Request, &[u8]) -> Result<T, crate::request::Error>,
        P: Fn(u64) -> (),
        D: Fn(&Vec<u8>) -> Result<ErrorBody, String>,

        requires
            forall|signed: &Request, bytes: &[u8]| transport.requires((signed, bytes)),
            forall|ms: u64| pause.requires((ms,)),
            forall|body: &Vec<u8>| decode.requires((body,)),
        ensures
            called(
                transport,
                pause,
                *decode,
                RequestView {
                    method: "GET"@,
                    url: list_url(input, self.region@),
                    headers: Seq::empty(),
                },
                self.credentials@,
                self.region@,
                r,
            ),
    {
        let url = concat2(self.url(input.bucket.as_str()).as_str(), "/");
        let mut request = Request::new("GET", url.as_str());
        request = request.query("list-type", "2");
        match &input.continuation_token {
            Some(token) => {
                request = request.query("continuation-token", token.as_str());
            },
            None => {},
        }
        match &input.prefix {
            Some(prefix) => {
                request = request.query("prefix", prefix.as_str());
            },
            None => {},
        }
        self.send(request, transport, pause, decode)
    }

    /// Fetches an object: a `GET` on [`object_url`].
    pub fn get_object<T, F, P, D>(
        &self,
        input: GetObjectInput,
        transport: F,
        pause: P,
        decode: &D,
    ) -> (r: Result<GetObjectOutput<T>, Error>) where
        F: Fn(&Request, &[u8]) -> Result<T, crate::request::Error>,
        P: Fn(u64) -> (),
        D: Fn(&Vec<u8>) -> Result<ErrorBody, String>,

        requires
            forall|signed: &Request, bytes: &[u8]| transport.requires((signed, bytes)),
            forall|ms: u64| pause.requires((ms,)),
            forall|body: &Vec<u8>| decode.requires((body,)),
        ensures
            called(
                transport,
                pause,
                *decode,
                RequestView {
                    method: "GET"@,
                    url: object_url(input, self.region@),
                    headers: Seq::empty(),
                },
                self.credentials@,
                self.region@,
                match r {
                    Ok(output) => Ok::<T, Error>(output.body),
                    Err(e) => Err::<T, Error>(e),
                },
            ),
    {
        let mut url = concat2(self.url(input.bucket.as_str()).as_str(), "/");
        url.append(input.key.as_str());
        let request = Request::new("GET", url.as_str());
        match self.send(request, transport, pause, decode) {
            Ok(body) => Ok(GetObjectOutput { body }),
            Err(e) => Err(e),
        }
    }
}

} // verus!

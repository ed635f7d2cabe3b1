//! The parameter store: reading parameters by name and by path.

use vstd::prelude::*;
use vstd::string::*;
use crate::credentials::{Credentials, CredentialsView};
use crate::request::{json_post, json_request, send_signed, signed_and_sent, Request, RequestView};
use crate::text::concat2;

verus! {

/// The name under which requests to this service are signed.
pub const SERVICE_NAME: &'static str = "ssm";

/// How often a request is attempted.
pub const MAX_ATTEMPTS: u32 = 5;

/// The body of an error response.
#[derive(Clone, Debug, Default)]
pub struct ErrorBody {
    pub kind: String,
    pub message: Option<String>,
}

/// Why an operation failed.
#[derive(Debug)]
pub enum Error {
    /// A body could not be encoded or decoded; the text says why.
    Json(String),
    /// The request could not be signed or sent.
    Request(crate::request::Error),
    /// The service answered with an error.
    SSM(ErrorBody),
}

/// Whether `r` is what a failed request becomes: a status failure is what
/// decoding its body gives, the service's error or the decoding failure;
/// any other failure is kept as it is.
pub open spec fn classified<D: Fn(&Vec<u8>) -> Result<ErrorBody, String>>(
    decode: D,
    failure: crate::request::Error,
    r: Error,
) -> bool {
    match failure {
        crate::request::Error::Api(_, body) => exists|decoded: Result<ErrorBody, String>| #[trigger]
            decode.ensures((&body,), decoded) && r == (match decoded {
                Ok(shape) => Error::SSM(shape),
                Err(why) => Error::Json(why),
            }),
        _ => r == Error::Request(failure),
    }
}

/// Whether `text` is the text of `e`, as it is shown to users.
pub open spec fn error_text(e: Error, text: Seq<char>) -> bool {
    match e {
        Error::Json(why) => text == "json error: "@ + why@,
        Error::Request(inner) => exists|why: Seq<char>| #[trigger]
            crate::request::error_text(inner, why) && text == "http request error: "@ + why,
        Error::SSM(body) => text == "ssm error"@ + (match body.message {
            Some(message) => ": "@ + message@,
            None => Seq::empty(),
        }),
    }
}

impl Error {
    /// The text of the error, as it is shown to users.
    pub fn message(&self) -> (r: String)
        ensures
            error_text(*self, r@),
    {
        match self {
            Error::Json(why) => concat2("json error: ", why.as_str()),
            Error::Request(inner) => {
                let why = inner.message();
                assert(crate::request::error_text(*inner, why@));
                concat2("http request error: ", why.as_str())
            },
            Error::SSM(body) => match &body.message {
                Some(message) => {
                    let tail = concat2(": ", message.as_str());
                    concat2("ssm error", tail.as_str())
                },
                None => {
                    assert("ssm error"@ + Seq::<char>::empty() =~= "ssm error"@);
                    "ssm error".to_owned()
                },
            },
        }
    }

    /// Classifies a failed request. The body of a status failure is decoded
    /// with `decode`; where that fails, the decoding failure is the result.
    pub fn from_request_error<D>(failure: crate::request::Error, decode: &D) -> (r: Error) where
        D: Fn(&Vec<u8>) -> Result<ErrorBody, String>,

        requires
            forall|body: &Vec<u8>| decode.requires((body,)),
        ensures
            classified(*decode, failure, r),
    {
        match failure {
            crate::request::Error::Api(code, body) => {
                let decoded = decode(&body);
                assert(decode.ensures((&body,), decoded));
                match decoded {
                    Ok(shape) => Error::SSM(shape),
                    Err(why) => Error::Json(why),
                }
            },
            crate::request::Error::SigningError(e) => Error::Request(
                crate::request::Error::SigningError(e),
            ),
            crate::request::Error::Transport(e) => Error::Request(
                crate::request::Error::Transport(e),
            ),
        }
    }
}

/// Which parameter to read.
#[derive(Clone, Debug, Default)]
pub struct GetParameterInput {
    pub name: String,
    pub with_decryption: Option<bool>,
}

impl GetParameterInput {
    /// Sets the name; the other field is kept.
    pub fn name(self, name: &str) -> (r: GetParameterInput)
        ensures
            r.name@ == name@,
            r.with_decryption == self.with_decryption,
    {
        let mut r = self;
        r.name = name.to_owned();
        r
    }

    /// Sets whether secure values are decrypted; the name is kept.
    pub fn with_decryption(self, with_decryption: bool) -> (r: GetParameterInput)
        ensures
            r.name == self.name,
            r.with_decryption == Some(with_decryption),
    {
        let mut r = self;
        r.with_decryption = Some(with_decryption);
        r
    }
}

/// A filter on the parameters to read.
#[derive(Clone, Debug, Default)]
pub struct ParameterStringFilter {
    pub key: String,
    pub option: Option<String>,
    pub values: Option<Vec<String>>,
}

/// Which parameters to read below a path.
#[derive(Clone, Debug, Default)]
pub struct GetParametersByPathInput {
    pub max_results: Option<u32>,
    pub next_token: Option<String>,
    pub parameter_filters: Option<Vec<ParameterStringFilter>>,
    pub path: String,
    pub recursive: Option<bool>,
    pub with_decryption: Option<bool>,
}

impl GetParametersByPathInput {
    /// Sets the page size; the other fields are kept.
    pub fn max_results(self, max_results: u32) -> (r: GetParametersByPathInput)
        ensures
            r.max_results == Some(max_results),
            r.next_token == self.next_token,
            r.parameter_filters == self.parameter_filters,
            r.path == self.path,
            r.recursive == self.recursive,
            r.with_decryption == self.with_decryption,
    {
        let mut r = self;
        r.max_results = Some(max_results);
        r
    }

    /// Sets the token of the page to fetch; the other fields are kept.
    pub fn next_token(self, next_token: &str) -> (r: GetParametersByPathInput)
        ensures
            r.max_results == self.max_results,
            r.next_token is Some && r.next_token->0@ == next_token@,
            r.parameter_filters == self.parameter_filters,
            r.path == self.path,
            r.recursive == self.recursive,
            r.with_decryption == self.with_decryption,
    {
        let mut r = self;
        r.next_token = Some(next_token.to_owned());
        r
    }

    /// Sets the filters; the other fields are kept.
    pub fn parameter_filters(self, parameter_filters: Vec<ParameterStringFilter>) -> (r:
        GetParametersByPathInput)
        ensures
            r.max_results == self.max_results,
            r.next_token == self.next_token,
            r.parameter_filters == Some(parameter_filters),
            r.path == self.path,
            r.recursive == self.recursive,
            r.with_decryption == self.with_decryption,
    {
        let mut r = self;
        r.parameter_filters = Some(parameter_filters);
        r
    }

    /// Sets the path; the other fields are kept.
    pub fn path(self, path: &str) -> (r: GetParametersByPathInput)
        ensures
            r.max_results == self.max_results,
            r.next_token == self.next_token,
            r.parameter_filters == self.parameter_filters,
            r.path@ == path@,
            r.recursive == self.recursive,
            r.with_decryption == self.with_decryption,
    {
        let mut r = self;
        r.path = path.to_owned();
        r
    }

    /// Sets whether paths below the path are read too; the other fields
    /// are kept.
    pub fn recursive(self, recursive: bool) -> (r: GetParametersByPathInput)
        ensures
            r.max_results == self.max_results,
            r.next_token == self.next_token,
            r.parameter_filters == self.parameter_filters,
            r.path == self.path,
            r.recursive == Some(recursive),
            r.with_decryption == self.with_decryption,
    {
        let mut r = self;
        r.recursive = Some(recursive);
        r
    }

    /// Sets whether secure values are decrypted; the other fields are kept.
    pub fn with_decryption(self, with_decryption: bool) -> (r: GetParametersByPathInput)
        ensures
            r.max_results == self.max_results,
            r.next_token == self.next_token,
            r.parameter_filters == self.parameter_filters,
            r.path == self.path,
            r.recursive == self.recursive,
            r.with_decryption == Some(with_decryption),
    {
        let mut r = self;
        r.with_decryption = Some(with_decryption);
        r
    }
}

/// The endpoint of the service in a region.
pub open spec fn endpoint(region: Seq<char>) -> Seq<char> {
    "https://"@ + SERVICE_NAME@ + "."@ + region + ".amazonaws.com"@
}

/// Whether `r` can come of a call: the input is encoded into the body,
/// where a failure is a JSON error and nothing is sent; the request is
/// signed for this service over that body and sent within the budget; and a
/// failure is classified.
pub open spec fn called<I, T, E, F, P, D>(
    encode: E,
    transport: F,
    pause: P,
    decode: D,
    request: RequestView,
    input: I,
    credentials: CredentialsView,
    region: Seq<char>,
    r: Result<T, Error>,
) -> bool where
    E: Fn(&I) -> Result<Vec<u8>, String>,
    F: Fn(&Request, &[u8]) -> Result<T, crate::request::Error>,
    P: Fn(u64) -> (),
    D: Fn(&Vec<u8>) -> Result<ErrorBody, String>,
 {
    exists|encoded: Result<Vec<u8>, String>| #[trigger]
        encode.ensures((&input,), encoded) && match encoded {
            Err(why) => r == Err::<T, Error>(Error::Json(why)),
            Ok(bytes) => exists|body: &[u8], outcome: Result<T, crate::request::Error>| #[trigger]
                signed_and_sent(
                    transport,
                    pause,
                    request,
                    body,
                    credentials,
                    region,
                    SERVICE_NAME@,
                    MAX_ATTEMPTS,
                    outcome,
                ) && body@ == bytes@ && match outcome {
                    Ok(response) => r == Ok::<T, Error>(response),
                    Err(failure) => r is Err && classified(decode, failure, r->Err_0),
                },
        }
}

/// A client of the service in one region.
#[derive(Clone, Debug)]
pub struct Api {
    pub credentials: Credentials,
    pub region: String,
}

impl Api {
    /// A client for `region` that signs with `credentials`.
    pub fn new(region: &str, credentials: Credentials) -> (r: Api)
        ensures
            r.region@ == region@,
            r.credentials == credentials,
    {
        Api { region: region.to_owned(), credentials }
    }

    /// The endpoint of the service in the client's region.
    pub fn url(&self) -> (r: String)
        ensures
            r@ == endpoint(self.region@),
    {
        let mut out = concat2("https://", SERVICE_NAME);
        out.append(".");
        out.append(self.region.as_str());
        out.append(".amazonaws.com");
        out
    }

    /// Sends `request` with `input`, encoded by `encode`, as its body.
    pub fn send<I, T, E, F, P, D>(
        &self,
        request: Request,
        input: I,
        encode: &E,
        transport: F,
        pause: P,
        decode: &D,
    ) -> (r: Result<T, Error>) where
        E: Fn(&I) -> Result<Vec<u8>, String>,
        F: Fn(&Request, &[u8]) -> Result<T, crate::request::Error>,
        P: Fn(u64) -> (),
        D: Fn(&Vec<u8>) -> Result<ErrorBody, String>,

        requires
            forall|i: &I| encode.requires((i,)),
            forall|signed: &Request, bytes: &[u8]| transport.requires((signed, bytes)),
            forall|ms: u64| pause.requires((ms,)),
            forall|body: &Vec<u8>| decode.requires((body,)),
        ensures
            called(
                *encode,
                transport,
                pause,
                *decode,
                request@,
                input,
                self.credentials@,
                self.region@,
                r,
            ),
    {
        let encoded = encode(&input);
        assert(encode.ensures((&input,), encoded));
        let bytes = match encoded {
            Ok(bytes) => bytes,
            Err(why) => {
                return Err(Error::Json(why));
            },
        };
        let outcome = send_signed(
            request,
            bytes.as_slice(),
            &self.credentials,
            self.region.as_str(),
            SERVICE_NAME,
            MAX_ATTEMPTS,
            transport,
            pause,
        );
        let ghost seen = outcome;
        match outcome {
            Ok(response) => {
                assert(seen == Ok::<T, crate::request::Error>(response));
                Ok(response)
            },
            Err(failure) => {
                assert(seen == Err::<T, crate::request::Error>(failure));
                Err(Error::from_request_error(failure, decode))
            },
        }
    }

    /// Reads a parameter: a JSON `POST` of `AmazonSSM.GetParameter`.
    pub fn get_parameter<T, E, F, P, D>(
        &self,
        input: GetParameterInput,
        encode: &E,
        transport: F,
        pause: P,
        decode: &D,
    ) -> (r: Result<T, Error>) where
        E: Fn(&GetParameterInput) -> Result<Vec<u8>, String>,
        F: Fn(&Request, &[u8]) -> Result<T, crate::request::Error>,
        P: Fn(u64) -> (),
        D: Fn(&Vec<u8>) -> Result<ErrorBody, String>,

        requires
            forall|i: &GetParameterInput| encode.requires((i,)),
            forall|signed: &Request, bytes: &[u8]| transport.requires((signed, bytes)),
            forall|ms: u64| pause.requires((ms,)),
            forall|body: &Vec<u8>| decode.requires((body,)),
        ensures
            called(
                *encode,
                transport,
                pause,
                *decode,
                json_post(endpoint(self.region@), "AmazonSSM.GetParameter"@),
                input,
                self.credentials@,
                self.region@,
                r,
            ),
    {
        let request = json_request(self.url().as_str(), "AmazonSSM.GetParameter");
        self.send(request, input, encode, transport, pause, decode)
    }

    /// Reads the parameters below a path: a JSON `POST` of
    /// `AmazonSSM.GetParametersByPath`.
    pub fn get_parameters_by_path<T, E, F, P, D>(
        &self,
        input: GetParametersByPathInput,
        encode: &E,
        transport: F,
        pause: P,
        decode: &D,
    ) -> (r: Result<T, Error>) where
        E: Fn(&GetParametersByPathInput) -> Result<Vec<u8>, String>,
        F: Fn(&Request, &[u8]) -> Result<T, crate::request::Error>,
        P: Fn(u64) -> (),
        D: Fn(&Vec<u8>) -> Result<ErrorBody, String>,

        requires
            forall|i: &GetParametersByPathInput| encode.requires((i,)),
            forall|signed: &Request, bytes: &[u8]| transport.requires((signed, bytes)),
            forall|ms: u64| pause.requires((ms,)),
            forall|body: &Vec<u8>| decode.requires((body,)),
        ensures
            called(
                *encode,
                transport,
                pause,
                *decode,
                json_post(endpoint(self.region@), "AmazonSSM.GetParametersByPath"@),
                input,
                self.credentials@,
                self.region@,
                r,
            ),
    {
        let request = json_request(self.url().as_str(), "AmazonSSM.GetParametersByPath");
        self.send(request, input, encode, transport, pause, decode)
    }
}

} // verus!

//! The secret store: reading the value of a secret.

use vstd::prelude::*;
use vstd::string::*;
use crate::credentials::{Credentials, CredentialsView};
use crate::request::{json_post, json_request, send_signed, signed_and_sent, Request, RequestView};
use crate::text::concat2;

verus! {

/// The name under which requests to this service are signed.
pub const SERVICE_NAME: &'static str = "secretsmanager";

/// How often a request is attempted.
pub const MAX_ATTEMPTS: u32 = 5;

/// The body of an error response.
#[derive(Clone, Debug, Default)]
pub struct ErrorBody {
    pub kind: String,
    pub message: Option<String>,
}

/// Why an operation failed.
#[derive(Debug)]
pub enum Error {
    /// A response with a status outside 2xx, and its raw body.
    Api(u16, Vec<u8>),
    /// A body could not be encoded or decoded; the text says why.
    Json(String),
    /// The request could not be signed or sent.
    Request(crate::request::Error),
    /// The service answered with an error.
    SecretsManager(ErrorBody),
    /// No response arrived.
    Transport(String),
}

/// Whether `r` is what a failed request becomes: a status failure is what
/// decoding its body gives, the service's error or the decoding failure;
/// any other failure is kept as it is.
pub open spec fn classified<D: Fn(&Vec<u8>) -> Result<ErrorBody, String>>(
    decode: D,
    failure: crate::request::Error,
    r: Error,
) -> bool {
    match failure {
        crate::request::Error::Api(_, body) => exists|decoded: Result<ErrorBody, String>| #[trigger]
            decode.ensures((&body,), decoded) && r == (match decoded {
                Ok(shape) => Error::SecretsManager(shape),
                Err(why) => Error::Json(why),
            }),
        _ => r == Error::Request(failure),
    }
}

impl Error {
    /// Classifies a failed request. The body of a status failure is decoded
    /// with `decode`; where that fails, the decoding failure is the result.
    pub fn from_request_error<D>(failure: crate::request::Error, decode: &D) -> (r: Error) where
        D: Fn(&Vec<u8>) -> Result<ErrorBody, String>,

        requires
            forall|body: &Vec<u8>| decode.requires((body,)),
        ensures
            classified(*decode, failure, r),
    {
        match failure {
            crate::request::Error::Api(code, body) => {
                let decoded = decode(&body);
                assert(decode.ensures((&body,), decoded));
                match decoded {
                    Ok(shape) => Error::SecretsManager(shape),
                    Err(why) => Error::Json(why),
                }
            },
            crate::request::Error::SigningError(e) => Error::Request(
                crate::request::Error::SigningError(e),
            ),
            crate::request::Error::Transport(e) => Error::Request(
                crate::request::Error::Transport(e),
            ),
        }
    }
}

/// Which secret to read, and which version of it.
#[derive(Clone, Debug, Default)]
pub struct GetSecretValueInput {
    pub secret_id: String,
    pub version_id: Option<String>,
    pub version_stage: Option<String>,
}

impl GetSecretValueInput {
    /// Sets the secret; the other fields are kept.
    pub fn secret_id(self, secret_id: &str) -> (r: GetSecretValueInput)
        ensures
            r.secret_id@ == secret_id@,
            r.version_id == self.version_id,
            r.version_stage == self.version_stage,
    {
        let mut r = self;
        r.secret_id = secret_id.to_owned();
        r
    }

    /// Sets the version; the other fields are kept.
    pub fn version_id(self, version_id: &str) -> (r: GetSecretValueInput)
        ensures
            r.secret_id == self.secret_id,
            r.version_id is Some && r.version_id->0@ == version_id@,
            r.version_stage == self.version_stage,
    {
        let mut r = self;
        r.version_id = Some(version_id.to_owned());
        r
    }

    /// Sets the staging label; the other fields are kept.
    pub fn version_stage(self, version_stage: &str) -> (r: GetSecretValueInput)
        ensures
            r.secret_id == self.secret_id,
            r.version_id == self.version_id,
            r.version_stage is Some && r.version_stage->0@ == version_stage@,
    {
        let mut r = self;
        r.version_stage = Some(version_stage.to_owned());
        r
    }
}

/// The endpoint of the service in a region.
pub open spec fn endpoint(region: Seq<char>) -> Seq<char> {
    "https://"@ + SERVICE_NAME@ + "."@ + region + ".amazonaws.com"@
}

/// Whether `r` can come of a call: the input is encoded into the body,
/// where a failure is a JSON error and nothing is sent; the request is
/// signed for this service over that body and sent within the budget; and a
/// failure is classified.
pub open spec fn called<I, T, E, F, P, D>(
    encode: E,
    transport: F,
    pause: P,
    decode: D,
    request: RequestView,
    input: I,
    credentials: CredentialsView,
    region: Seq<char>,
    r: Result<T, Error>,
) -> bool where
    E: Fn(&I) -> Result<Vec<u8>, String>,
    F: Fn(&Request, &[u8]) -> Result<T, crate::request::Error>,
    P: Fn(u64) -> (),
    D: Fn(&Vec<u8>) -> Result<ErrorBody, String>,
 {
    exists|encoded: Result<Vec<u8>, String>| #[trigger]
        encode.ensures((&input,), encoded) && match encoded {
            Err(why) => r == Err::<T, Error>(Error::Json(why)),
            Ok(bytes) => exists|body: &[u8], outcome: Result<T, crate::request::Error>| #[trigger]
                signed_and_sent(
                    transport,
                    pause,
                    request,
                    body,
                    credentials,
                    region,
                    SERVICE_NAME@,
                    MAX_ATTEMPTS,
                    outcome,
                ) && body@ == bytes@ && match outcome {
                    Ok(response) => r == Ok::<T, Error>(response),
                    Err(failure) => r is Err && classified(decode, failure, r->Err_0),
                },
        }
}

/// A client of the service in one region.
#[derive(Clone, Debug)]
pub struct Api {
    pub credentials: Credentials,
    pub region: String,
}

impl Api {
    /// A client for `region` that signs with `credentials`.
    pub fn new(region: &str, credentials: Credentials) -> (r: Api)
        ensures
            r.region@ == region@,
            r.credentials == credentials,
    {
        Api { region: region.to_owned(), credentials }
    }

    /// The endpoint of the service in the client's region.
    pub fn url(&self) -> (r: String)
        ensures
            r@ == endpoint(self.region@),
    {
        let mut out = concat2("https://", SERVICE_NAME);
        out.append(".");
        out.append(self.region.as_str());
        out.append(".amazonaws.com");
        out
    }

    /// Sends `request` with `input`, encoded by `encode`, as its body.
    pub fn send<I, T, E, F, P, D>(
        &self,
        request: Request,
        input: I,
        encode: &E,
        transport: F,
        pause: P,
        decode: &D,
    ) -> (r: Result<T, Error>) where
        E: Fn(&I) -> Result<Vec<u8>, String>,
        F: Fn(&Request, &[u8]) -> Result<T, crate::request::Error>,
        P: Fn(u64) -> (),
        D: Fn(&Vec<u8>) -> Result<ErrorBody, String>,

        requires
            forall|i: &I| encode.requires((i,)),
            forall|signed: &Request, bytes: &[u8]| transport.requires((signed, bytes)),
            forall|ms: u64| pause.requires((ms,)),
            forall|body: &Vec<u8>| decode.requires((body,)),
        ensures
            called(
                *encode,
                transport,
                pause,
                *decode,
                request@,
                input,
                self.credentials@,
                self.region@,
                r,
            ),
    {
        let encoded = encode(&input);
        assert(encode.ensures((&input,), encoded));
        let bytes = match encoded {
            Ok(bytes) => bytes,
            Err(why) => {
                return Err(Error::Json(why));
            },
        };
        let outcome = send_signed(
            request,
            bytes.as_slice(),
            &self.credentials,
            self.region.as_str(),
            SERVICE_NAME,
            MAX_ATTEMPTS,
            transport,
            pause,
        );
        let ghost seen = outcome;
        match outcome {
            Ok(response) => {
                assert(seen == Ok::<T, crate::request::Error>(response));
                Ok(response)
            },
            Err(failure) => {
                assert(seen == Err::<T, crate::request::Error>(failure));
                Err(Error::from_request_error(failure, decode))
            },
        }
    }

    /// Reads a secret: a JSON `POST` of `secretsmanager.GetSecretValue`.
    pub fn get_secret_value<T, E, F, P, D>(
        &self,
        input: GetSecretValueInput,
        encode: &E,
        transport: F,
        pause: P,
        decode: &D,
    ) -> (r: Result<T, Error>) where
        E: Fn(&GetSecretValueInput) -> Result<Vec<u8>, String>,
        F: Fn(&Request, &[u8]) -> Result<T, crate::request::Error>,
        P: Fn(u64) -> (),
        D: Fn(&Vec<u8>) -> Result<ErrorBody, String>,

        requires
            forall|i: &GetSecretValueInput| encode.requires((i,)),
            forall|signed: &Request, bytes: &[u8]| transport.requires((signed, bytes)),
            forall|ms: u64| pause.requires((ms,)),
            forall|body: &Vec<u8>| decode.requires((body,)),
        ensures
            called(
                *encode,
                transport,
                pause,
                *decode,
                json_post(endpoint(self.region@), "secretsmanager.GetSecretValue"@),
                input,
                self.credentials@,
                self.region@,
                r,
            ),
    {
        let request = json_request(self.url().as_str(), "secretsmanager.GetSecretValue");
        self.send(request, input, encode, transport, pause, decode)
    }
}

} // verus!

//! The instance metadata service as a source of credentials: which requests
//! to make, in which order, and what to make of the answers.

use vstd::prelude::*;
use vstd::string::*;
use crate::credentials::{read_from_map, Credentials, MapError};
use crate::request::{Request, RequestView};
use crate::text::{concat2, pairs_view};
use std::collections::BTreeMap;

verus! {

/// The kind of an I/O failure.
#[derive(Clone, Copy, Debug, PartialEq, Eq)]
pub enum IoErrorKind {
    NotFound,
    InvalidInput,
    Other,
}

/// Why the metadata service gave no answer.
#[derive(Debug)]
pub enum Error {
    /// Reading failed, or a document lacks what it must hold.
    Io(IoErrorKind, String),
    /// A document is no JSON map of strings.
    SerdeJson(String),
    /// The HTTP request failed.
    Request(String),
}

/// The text of an error, as it is shown to users.
pub open spec fn error_text(e: Error) -> Seq<char> {
    match e {
        Error::Io(_, what) => "IO error: "@ + what@,
        Error::SerdeJson(what) => "JSON error: "@ + what@,
        Error::Request(what) => "HTTP request error: "@ + what@,
    }
}

impl Error {
    /// See [`error_text`].
    pub fn message(&self) -> (r: String)
        ensures
            r@ == error_text(*self),
    {
        match self {
            Error::Io(_, what) => concat2("IO error: ", what.as_str()),
            Error::SerdeJson(what) => concat2("JSON error: ", what.as_str()),
            Error::Request(what) => concat2("HTTP request error: ", what.as_str()),
        }
    }

    /// A failure to read credentials from a map, as an I/O failure of the
    /// matching kind with the same text.
    pub fn from_map_error(e: MapError) -> (r: Error)
        ensures
            r == (match e {
                MapError::NotFound(what) => Error::Io(IoErrorKind::NotFound, what),
                MapError::InvalidInput(what) => Error::Io(IoErrorKind::InvalidInput, what),
            }),
    {
        match e {
            MapError::NotFound(what) => Error::Io(IoErrorKind::NotFound, what),
            MapError::InvalidInput(what) => Error::Io(IoErrorKind::InvalidInput, what),
        }
    }
}

/// What `serde_json::from_str` makes of a text read as a map from strings
/// to strings: the entries in the order of their keys, or the text of the
/// error.
pub uninterp spec fn json_string_map(text: Seq<char>) -> Result<
    Seq<(Seq<char>, Seq<char>)>,
    Seq<char>,
>;

/// Parses a JSON object of strings with `serde_json::from_str` into a
/// `BTreeMap` and lists its entries; an error is handed back as its text.
/// The outcome depends on the text alone.
#[verifier::external_body]
fn parse_string_map(text: &str) -> (r: Result<Vec<(String, String)>, String>)
    ensures
        json_string_map(text@) == (match r {
            Ok(map) => Ok(pairs_view(map@)),
            Err(why) => Err(why@),
        }),
{
    serde_json::from_str::<BTreeMap<String, String>>(text)
        .map(|m| m.into_iter().collect())
        .map_err(|e| e.to_string())
}

/// `path` under `base`, as `std::path::Path::join` puts it on Unix: a path
/// that starts with `/` stands alone; otherwise it follows the base, after
/// a `/` unless the base is empty or ends in one.
pub open spec fn joined(base: Seq<char>, path: Seq<char>) -> Seq<char> {
    if path.len() > 0 && path[0] == '/' {
        path
    } else if base.len() == 0 || base.last() == '/' {
        base + path
    } else {
        base + seq!['/'] + path
    }
}

/// See [`joined`].
pub fn join(base: &str, path: &str) -> (r: String)
    ensures
        r@ == joined(base@, path@),
{
    let n: usize = base.unicode_len();
    if path.unicode_len() > 0 && path.get_char(0) == '/' {
        path.to_owned()
    } else if n == 0 || base.get_char(n - 1) == '/' {
        concat2(base, path)
    } else {
        proof {
            reveal_strlit("/");
            assert("/"@ =~= seq!['/']);
        }
        let mut out = concat2(base, "/");
        out.append(path);
        out
    }
}

/// Where the metadata service listens by default.
pub open spec fn default_endpoint() -> Seq<char> {
    "http://169.254.169.254"@
}

/// The path of metadata item `path`.
pub open spec fn metadata_path(path: Seq<char>) -> Seq<char> {
    joined("latest/meta-data"@, path)
}

/// The path under the metadata tree that lists the instance's role.
pub open spec fn role_path() -> Seq<char> {
    "iam/security-credentials/"@
}

/// The request that asks for a session token: `PUT` on the token path,
/// with a lifetime of six hours.
pub open spec fn token_request_view(endpoint: Seq<char>) -> RequestView {
    RequestView {
        method: "PUT"@,
        url: endpoint + "/latest/api/token"@,
        headers: seq![("X-aws-ec2-metadata-token-ttl-seconds"@, "21600"@)],
    }
}

/// The request that reads `path`: `GET` on the path below the endpoint,
/// with the session token.
pub open spec fn read_request_view(endpoint: Seq<char>, path: Seq<char>, token: Seq<char>) -> RequestView {
    RequestView {
        method: "GET"@,
        url: endpoint + "/"@ + path,
        headers: seq![("X-aws-ec2-metadata-token"@, token)],
    }
}

/// Whether `r` can come of reading `path`: the token is asked for first; a
/// failure there is an I/O failure with its text, and otherwise `r` is what
/// the transport gives for the read request with that token.
pub open spec fn read_of<K, F>(
    endpoint: Seq<char>,
    path: Seq<char>,
    token: K,
    transport: F,
    r: Result<String, Error>,
) -> bool where K: Fn(&Request) -> Result<String, String>, F: Fn(&Request) -> Result<String, Error> {
    exists|first: Request, session: Result<String, String>| #[trigger]
        token.ensures((&first,), session) && first@ == token_request_view(endpoint)
            && match session {
            Err(why) => r == Err::<String, Error>(Error::Io(IoErrorKind::Other, why)),
            Ok(t) => exists|second: Request| #[trigger]
                transport.ensures((&second,), r) && second@ == read_request_view(
                    endpoint,
                    path,
                    t@,
                ),
        }
}

/// Whether `r` is what a credentials document gives: a JSON error where
/// it is no map of strings, else what the map gives.
pub open spec fn read_document(text: Seq<char>, r: Result<Credentials, Error>) -> bool {
    match json_string_map(text) {
        Err(why) => r matches Err(Error::SerdeJson(what)) && what@ == why,
        Ok(map) => match r {
            Ok(c) => read_from_map(map, Ok(c)),
            Err(Error::Io(IoErrorKind::NotFound, what)) => read_from_map(
                map,
                Err(MapError::NotFound(what)),
            ),
            Err(Error::Io(IoErrorKind::InvalidInput, what)) => read_from_map(
                map,
                Err(MapError::InvalidInput(what)),
            ),
            Err(_) => false,
        },
    }
}

/// Whether `r` can come of fetching credentials: the role is read, then
/// the role's credentials document, then the document is parsed. The first
/// failure is the result.
pub open spec fn credentials_of<K, F>(
    endpoint: Seq<char>,
    token: K,
    transport: F,
    r: Result<Credentials, Error>,
) -> bool where K: Fn(&Request) -> Result<String, String>, F: Fn(&Request) -> Result<String, Error> {
    exists|role: Result<String, Error>| #[trigger]
        read_of(endpoint, metadata_path(role_path()), token, transport, role) && match role {
            Err(e) => r == Err::<Credentials, Error>(e),
            Ok(name) => exists|document: Result<String, Error>| #[trigger]
                read_of(
                    endpoint,
                    metadata_path(joined(role_path(), name@)),
                    token,
                    transport,
                    document,
                ) && match document {
                    Err(e) => r == Err::<Credentials, Error>(e),
                    Ok(text) => read_document(text@, r),
                },
        }
}

/// A client of the instance metadata service.
#[derive(Clone, Debug)]
pub struct Imds {
    pub endpoint: String,
}

impl Default for Imds {
    fn default() -> (r: Imds)
        ensures
            r.endpoint@ == default_endpoint(),
    {
        Imds { endpoint: "http://169.254.169.254".to_owned() }
    }
}

impl Imds {
    /// The request that asks for a session token.
    pub fn token_request(&self) -> (r: Request)
        ensures
            r@ == token_request_view(self.endpoint@),
    {
        let url = concat2(self.endpoint.as_str(), "/latest/api/token");
        let r = Request::new("PUT", url.as_str()).set(
            "X-aws-ec2-metadata-token-ttl-seconds",
            "21600",
        );
        assert(r@.headers =~= seq![("X-aws-ec2-metadata-token-ttl-seconds"@, "21600"@)]);
        r
    }

    /// The request that reads `path` with a session token.
    pub fn read_request(&self, path: &str, token: &str) -> (r: Request)
        ensures
            r@ == read_request_view(self.endpoint@, path@, token@),
    {
        let mut url = concat2(self.endpoint.as_str(), "/");
        url.append(path);
        let r = Request::new("GET", url.as_str()).set("X-aws-ec2-metadata-token", token);
        assert(r@.headers =~= seq![("X-aws-ec2-metadata-token"@, token@)]);
        r
    }

    /// Reads `path`: asks `token` for the session token, which the caller
    /// may fetch with the request it is handed or take from a cache, then
    /// sends the read request with `transport`.
    pub fn get<K, F>(&self, path: &str, token: &K, transport: &F) -> (r: Result<String, Error>) where
        K: Fn(&Request) -> Result<String, String>,
        F: Fn(&Request) -> Result<String, Error>,

        requires
            forall|q: &Request| token.requires((q,)),
            forall|q: &Request| transport.requires((q,)),
        ensures
            read_of(self.endpoint@, path@, *token, *transport, r),
    {
        let first = self.token_request();
        let session = token(&first);
        match session {
            Err(why) => {
                let r = Err(Error::Io(IoErrorKind::Other, why));
                assert(token.ensures((&first,), session));
                r
            },
            Ok(t) => {
                let second = self.read_request(path, t.as_str());
                let r = transport(&second);
                assert(transport.ensures((&second,), r));
                assert(token.ensures((&first,), session));
                r
            },
        }
    }

    /// Reads the user data of the instance.
    pub fn get_user_data<K, F>(&self, token: &K, transport: &F) -> (r: Result<String, Error>) where
        K: Fn(&Request) -> Result<String, String>,
        F: Fn(&Request) -> Result<String, Error>,

        requires
            forall|q: &Request| token.requires((q,)),
            forall|q: &Request| transport.requires((q,)),
        ensures
            read_of(self.endpoint@, "latest/user-data"@, *token, *transport, r),
    {
        self.get("latest/user-data", token, transport)
    }

    /// Reads the metadata item `path`.
    pub fn get_metadata<K, F>(&self, path: &str, token: &K, transport: &F) -> (r: Result<
        String,
        Error,
    >) where
        K: Fn(&Request) -> Result<String, String>,
        F: Fn(&Request) -> Result<String, Error>,

        requires
            forall|q: &Request| token.requires((q,)),
            forall|q: &Request| transport.requires((q,)),
        ensures
            read_of(self.endpoint@, metadata_path(path@), *token, *transport, r),
    {
        let full = join("latest/meta-data", path);
        self.get(full.as_str(), token, transport)
    }

    /// Reads the region of the instance.
    pub fn get_region<K, F>(&self, token: &K, transport: &F) -> (r: Result<String, Error>) where
        K: Fn(&Request) -> Result<String, String>,
        F: Fn(&Request) -> Result<String, Error>,

        requires
            forall|q: &Request| token.requires((q,)),
            forall|q: &Request| transport.requires((q,)),
        ensures
            read_of(self.endpoint@, metadata_path("placement/region"@), *token, *transport, r),
    {
        self.get_metadata("placement/region", token, transport)
    }

    /// Fetches the credentials of the instance's role.
    pub fn get_credentials<K, F>(&self, token: &K, transport: &F) -> (r: Result<
        Credentials,
        Error,
    >) where
        K: Fn(&Request) -> Result<String, String>,
        F: Fn(&Request) -> Result<String, Error>,

        requires
            forall|q: &Request| token.requires((q,)),
            forall|q: &Request| transport.requires((q,)),
        ensures
            credentials_of(self.endpoint@, *token, *transport, r),
    {
        let role = self.get_metadata("iam/security-credentials/", token, transport);
        let ghost role_seen = role;
        match role {
            Err(e) => {
                let r: Result<Credentials, Error> = Err(e);
                assert(role_seen is Err && role_seen->Err_0 == e);
                assert(read_of(
                    self.endpoint@,
                    metadata_path(role_path()),
                    *token,
                    *transport,
                    role_seen,
                ));
                r
            },
            Ok(name) => {
                assert(role_seen == Ok::<String, Error>(name));
                let path = join("iam/security-credentials/", name.as_str());
                let document = self.get_metadata(path.as_str(), token, transport);
                let ghost document_seen = document;
                match document {
                    Err(e) => {
                        assert(document_seen == Err::<String, Error>(e));
                        Err(e)
                    },
                    Ok(text) => {
                        assert(document_seen == Ok::<String, Error>(text));
                        credentials_from_document(text.as_str())
                    },
                }
            },
        }
    }
}

/// Reads credentials from the text of a credentials document.
pub fn credentials_from_document(text: &str) -> (r: Result<Credentials, Error>)
    ensures
        read_document(text@, r),
{
    match parse_string_map(text) {
        Err(why) => Err(Error::SerdeJson(why)),
        Ok(map) => match Credentials::from_map(&map) {
            Ok(c) => Ok(c),
            Err(e) => Err(Error::from_map_error(e)),
        },
    }
}

} // verus!

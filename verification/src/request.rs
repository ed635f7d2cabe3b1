//! The signed-request pipeline: the request model, Signature Version 4
//! signing, and the send-with-retry loop.

use vstd::prelude::*;
use vstd::string::*;
use crate::credentials::{opt_view, Credentials, CredentialsView};
use crate::text::{
    concat2, decimal, decimal_string, names_of, pairs_view, same_text, starts_with,
};
use aws_credential_types::Credentials as AwsCredentials;
use aws_sigv4::http_request::{
    sign, PayloadChecksumKind, SignableBody, SignableRequest, SigningError, SigningSettings,
};
use aws_sigv4::sign::v4::SigningParams;
use std::time::{Duration, SystemTime, UNIX_EPOCH};

verus! {

/// The error type of `aws_sigv4::http_request`, carried through unread.
#[verifier::external_type_specification]
#[verifier::external_body]
pub struct ExSigningError(SigningError);

/// Most headers a request may carry into signing. The signer collects the
/// headers in an `http::HeaderMap`, which panics where it is to hold more
/// than 24576.
pub const MAX_HEADERS: usize = 8192;

/// Most bytes of a URL that goes into signing. The signer writes the query
/// anew, at up to three bytes for one, into a path-and-query of at most
/// 65534 bytes, and panics beyond that.
pub const MAX_URL_BYTES: usize = 16_000;

/// The last second that the signer can format: 9999-12-31T23:59:59Z.
pub const MAX_SIGNING_TIME: u64 = 253_402_300_799;

/// Where the hash of the payload goes.
#[derive(Clone, Copy, Debug, PartialEq, Eq)]
pub enum PayloadChecksum {
    /// Also sent as the `x-amz-content-sha256` header.
    Header,
    /// Part of the signature only.
    NoHeader,
}

/// Why a request could not be signed. None of these is ever retried.
#[derive(Debug)]
pub enum SigningFailure {
    /// The URL does not start with `http://` or `https://`.
    RelativeUrl,
    /// The URL is longer than `MAX_URL_BYTES` bytes.
    UrlTooLong,
    /// The request carries more than `MAX_HEADERS` headers.
    TooManyHeaders,
    /// The system clock is past `MAX_SIGNING_TIME`.
    ClockOutOfRange,
    /// The signer refused the URL, a header or the session token.
    Rejected(SigningError),
}

/// Why an operation failed before a service-specific answer was decoded.
#[derive(Debug)]
pub enum Error {
    /// The request could not be signed.
    SigningError(SigningFailure),
    /// No response arrived: connection, DNS, TLS or timeout.
    Transport(String),
    /// A response with a status outside 2xx, and its raw body.
    Api(u16, Vec<u8>),
}

/// The text of a signing failure that the library itself found; `None` for
/// one that the signer reported, whose text is the signer's.
pub open spec fn failure_text(failure: SigningFailure) -> Option<Seq<char>> {
    match failure {
        SigningFailure::RelativeUrl => Some("the URL is not absolute"@),
        SigningFailure::UrlTooLong => Some("the URL is too long"@),
        SigningFailure::TooManyHeaders => Some("the request has too many headers"@),
        SigningFailure::ClockOutOfRange => Some("the clock is out of range"@),
        SigningFailure::Rejected(_) => None,
    }
}

/// Whether `text` is the text of `e`, as it is shown to users.
pub open spec fn error_text(e: Error, text: Seq<char>) -> bool {
    match e {
        Error::SigningError(failure) => match failure_text(failure) {
            Some(why) => text == "Signing error: "@ + why,
            None => "Signing error: "@.is_prefix_of(text),
        },
        Error::Transport(why) => text == "Transport error: "@ + why@,
        Error::Api(code, _) => text == "API error: status "@ + decimal(code as nat),
    }
}

/// The text of the signer's error, by its `Display`.
#[verifier::external_body]
fn signing_error_text(e: &SigningError) -> String {
    e.to_string()
}

impl Error {
    /// The text of the error, as it is shown to users.
    pub fn message(&self) -> (r: String)
        ensures
            error_text(*self, r@),
    {
        match self {
            Error::SigningError(SigningFailure::RelativeUrl) => concat2(
                "Signing error: ",
                "the URL is not absolute",
            ),
            Error::SigningError(SigningFailure::UrlTooLong) => concat2(
                "Signing error: ",
                "the URL is too long",
            ),
            Error::SigningError(SigningFailure::TooManyHeaders) => concat2(
                "Signing error: ",
                "the request has too many headers",
            ),
            Error::SigningError(SigningFailure::ClockOutOfRange) => concat2(
                "Signing error: ",
                "the clock is out of range",
            ),
            Error::SigningError(SigningFailure::Rejected(e)) => {
                let why = signing_error_text(e);
                let r = concat2("Signing error: ", why.as_str());
                assert(r@.subrange(0, "Signing error: "@.len() as int) =~= "Signing error: "@);
                r
            },
            Error::Transport(why) => concat2("Transport error: ", why.as_str()),
            Error::Api(code, _) => {
                let digits = decimal_string(*code as u64);
                concat2("API error: status ", digits.as_str())
            },
        }
    }

    /// Whether another attempt may succeed: true for transport and status
    /// failures, false for signing failures.
    pub open spec fn retryable(&self) -> bool {
        !(self is SigningError)
    }

    /// See [`Error::retryable`].
    pub fn is_retryable(&self) -> (r: bool)
        ensures
            r == self.retryable(),
    {
        match self {
            Error::SigningError(_) => false,
            Error::Transport(_) => true,
            Error::Api(_, _) => true,
        }
    }
}

/// A request before or after signing: method, absolute URL with its query
/// string, and headers in the order of transmission.
#[derive(Clone, Debug)]
pub struct Request {
    pub method: String,
    pub url: String,
    pub headers: Vec<(String, String)>,
}

/// What a `Request` holds, as plain sequences.
pub struct RequestView {
    pub method: Seq<char>,
    pub url: Seq<char>,
    pub headers: Seq<(Seq<char>, Seq<char>)>,
}

impl View for Request {
    type V = RequestView;

    open spec fn view(&self) -> RequestView {
        RequestView {
            method: self.method@,
            url: self.url@,
            headers: pairs_view(self.headers@),
        }
    }
}

/// Headers and query parameters that carry a signature.
#[derive(Clone, Debug)]
pub struct Instructions {
    pub headers: Vec<(String, String)>,
    pub params: Vec<(String, String)>,
}

/// The pairs of `pairs` whose name is not `name`, in order.
pub open spec fn without_name(pairs: Seq<(Seq<char>, Seq<char>)>, name: Seq<char>) -> Seq<
    (Seq<char>, Seq<char>),
>
    decreases pairs.len(),
{
    if pairs.len() == 0 {
        pairs
    } else if pairs.last().0 == name {
        without_name(pairs.drop_last(), name)
    } else {
        without_name(pairs.drop_last(), name).push(pairs.last())
    }
}

/// `pairs` with `name` set to `value`: earlier pairs of that name are
/// dropped and the new pair goes last.
pub open spec fn set_pair(
    pairs: Seq<(Seq<char>, Seq<char>)>,
    name: Seq<char>,
    value: Seq<char>,
) -> Seq<(Seq<char>, Seq<char>)> {
    without_name(pairs, name).push((name, value))
}

/// `pairs` after setting each pair of `added`, first to last.
pub open spec fn set_all(
    pairs: Seq<(Seq<char>, Seq<char>)>,
    added: Seq<(Seq<char>, Seq<char>)>,
) -> Seq<(Seq<char>, Seq<char>)>
    decreases added.len(),
{
    if added.len() == 0 {
        pairs
    } else {
        set_pair(set_all(pairs, added.drop_last()), added.last().0, added.last().1)
    }
}

/// Whether some pair of `pairs` is named `name`.
pub open spec fn has_name(pairs: Seq<(Seq<char>, Seq<char>)>, name: Seq<char>) -> bool {
    exists|i: int| 0 <= i < pairs.len() && (#[trigger] pairs[i]).0 == name
}

/// A list with one more pair holds a name if the list did or the pair has it.
pub proof fn lemma_has_name_push(
    pairs: Seq<(Seq<char>, Seq<char>)>,
    pair: (Seq<char>, Seq<char>),
    name: Seq<char>,
)
    ensures
        has_name(pairs.push(pair), name) <==> has_name(pairs, name) || pair.0 == name,
{
    let longer = pairs.push(pair);
    if has_name(pairs, name) {
        let i = choose|i: int| 0 <= i < pairs.len() && (#[trigger] pairs[i]).0 == name;
        assert(longer[i].0 == name);
    }
    if pair.0 == name {
        assert(longer[pairs.len() as int].0 == name);
    }
    if has_name(longer, name) {
        let i = choose|i: int| 0 <= i < longer.len() && (#[trigger] longer[i]).0 == name;
        if i < pairs.len() {
            assert(pairs[i].0 == name);
        }
    }
}

/// Dropping a name removes that name and no other.
pub proof fn lemma_without_name(
    pairs: Seq<(Seq<char>, Seq<char>)>,
    dropped: Seq<char>,
    name: Seq<char>,
)
    ensures
        has_name(without_name(pairs, dropped), name) <==> has_name(pairs, name) && name != dropped,
    decreases pairs.len(),
{
    if pairs.len() > 0 {
        let init = pairs.drop_last();
        let last = pairs.last();
        lemma_without_name(init, dropped, name);
        assert(pairs =~= init.push(last));
        lemma_has_name_push(init, last, name);
        if last.0 != dropped {
            lemma_has_name_push(without_name(init, dropped), last, name);
        }
    }
}

/// After setting pairs, a name is present if it was before or was set.
pub proof fn lemma_set_all_names(
    pairs: Seq<(Seq<char>, Seq<char>)>,
    added: Seq<(Seq<char>, Seq<char>)>,
    name: Seq<char>,
)
    ensures
        has_name(set_all(pairs, added), name) <==> has_name(pairs, name) || has_name(added, name),
    decreases added.len(),
{
    if added.len() > 0 {
        let init = added.drop_last();
        let last = added.last();
        lemma_set_all_names(pairs, init, name);
        lemma_without_name(set_all(pairs, init), last.0, name);
        lemma_has_name_push(without_name(set_all(pairs, init), last.0), last, name);
        assert(added =~= init.push(last));
        lemma_has_name_push(init, last, name);
    }
}

/// A copy of one name/value pair.
fn copy_pair(pair: &(String, String)) -> (r: (String, String))
    ensures
        r.0@ == pair.0@,
        r.1@ == pair.1@,
{
    (pair.0.clone(), pair.1.clone())
}

/// The pairs of `pairs` not named `name`.
fn remove_name(pairs: &Vec<(String, String)>, name: &str) -> (r: Vec<(String, String)>)
    ensures
        pairs_view(r@) == without_name(pairs_view(pairs@), name@),
{
    let mut out: Vec<(String, String)> = Vec::new();
    let mut i: usize = 0;
    assert(pairs_view(pairs@).take(0) =~= Seq::empty());
    assert(pairs_view(out@) =~= Seq::empty());
    while i < pairs.len()
        invariant
            i <= pairs.len(),
            pairs_view(out@) == without_name(pairs_view(pairs@).take(i as int), name@),
        decreases pairs.len() - i,
    {
        let ghost all = pairs_view(pairs@);
        let ghost before = pairs_view(out@);
        assert(all.take(i + 1).drop_last() =~= all.take(i as int));
        assert(all.take(i + 1).last() == (pairs@[i as int].0@, pairs@[i as int].1@));
        if !same_text(pairs[i].0.as_str(), name) {
            out.push(copy_pair(&pairs[i]));
            assert(pairs_view(out@) =~= before.push(all[i as int]));
        }
        i += 1;
    }
    assert(pairs_view(pairs@).take(i as int) =~= pairs_view(pairs@));
    out
}

/// What `form_urlencoded::Serializer` writes for a list of pairs: the
/// `application/x-www-form-urlencoded` text of the pairs, in order.
pub uninterp spec fn form_urlencoded(pairs: Seq<(Seq<char>, Seq<char>)>) -> Seq<char>;

/// Encodes pairs as `application/x-www-form-urlencoded` text, by
/// `form_urlencoded::Serializer::extend_pairs` on an empty target. The
/// text depends on the pairs alone; nothing more is claimed of it.
#[verifier::external_body]
pub(crate) fn form_encode(pairs: &Vec<(String, String)>) -> (r: String)
    ensures
        r@ == form_urlencoded(pairs_view(pairs@)),
{
    form_urlencoded::Serializer::new(String::new()).extend_pairs(pairs.iter()).finish()
}

/// What joins a URL and one more query parameter.
pub open spec fn query_separator(url: Seq<char>) -> Seq<char> {
    if !url.contains('?') {
        seq!['?']
    } else if url.last() == '?' {
        Seq::empty()
    } else {
        seq!['&']
    }
}

/// `url` with one more query parameter.
pub open spec fn with_query(url: Seq<char>, name: Seq<char>, value: Seq<char>) -> Seq<char> {
    url + query_separator(url) + form_urlencoded(seq![(name, value)])
}

/// `url` with each pair of `params` added as a query parameter, in order.
pub open spec fn with_queries(url: Seq<char>, params: Seq<(Seq<char>, Seq<char>)>) -> Seq<char>
    decreases params.len(),
{
    if params.len() == 0 {
        url
    } else {
        with_query(with_queries(url, params.drop_last()), params.last().0, params.last().1)
    }
}

/// Whether `text` holds the character `c`.
fn holds_char(text: &str, c: char) -> (r: bool)
    ensures
        r == text@.contains(c),
{
    let n: usize = text.unicode_len();
    let mut i: usize = 0;
    while i < n
        invariant
            n == text@.len(),
            i <= n,
            forall|k: int| 0 <= k < i ==> text@[k] != c,
        decreases n - i,
    {
        if text.get_char(i) == c {
            return true;
        }
        i += 1;
    }
    false
}

impl Request {
    /// A request with no headers.
    pub fn new(method: &str, url: &str) -> (r: Request)
        ensures
            r@.method == method@,
            r@.url == url@,
            r@.headers == Seq::<(Seq<char>, Seq<char>)>::empty(),
    {
        let r = Request { method: method.to_owned(), url: url.to_owned(), headers: Vec::new() };
        assert(pairs_view(r.headers@) =~= Seq::empty());
        r
    }

    /// Sets a header: headers of exactly that name are dropped and the new
    /// one is added last.
    pub fn set(self, name: &str, value: &str) -> (r: Request)
        ensures
            r@.method == self@.method,
            r@.url == self@.url,
            r@.headers == set_pair(self@.headers, name@, value@),
    {
        let mut headers = remove_name(&self.headers, name);
        let ghost before = pairs_view(headers@);
        headers.push((name.to_owned(), value.to_owned()));
        assert(pairs_view(headers@) =~= before.push((name@, value@)));
        Request { method: self.method, url: self.url, headers }
    }

    /// Appends a query parameter to the URL, form-encoded, after `?` if the
    /// URL has no query yet and after `&` otherwise.
    pub fn query(self, name: &str, value: &str) -> (r: Request)
        ensures
            r@.method == self@.method,
            r@.headers == self@.headers,
            r@.url == with_query(self@.url, name@, value@),
    {
        let mut pair: Vec<(String, String)> = Vec::new();
        pair.push((name.to_owned(), value.to_owned()));
        assert(pairs_view(pair@) =~= seq![(name@, value@)]);
        let encoded = form_encode(&pair);
        let mut url = self.url;
        let n: usize = url.as_str().unicode_len();
        if !holds_char(url.as_str(), '?') {
            url.append("?");
            proof {
                reveal_strlit("?");
                assert("?"@ =~= seq!['?']);
            }
        } else if url.as_str().get_char(n - 1) != '?' {
            url.append("&");
            proof {
                reveal_strlit("&");
                assert("&"@ =~= seq!['&']);
            }
        } else {
            assert(self@.url + Seq::<char>::empty() =~= self@.url);
        }
        url.append(encoded.as_str());
        Request { method: self.method, url, headers: self.headers }
    }
}

/// A `POST` of a JSON document in the `application/x-amz-json-1.1`
/// protocol: the content type, then the operation in `X-Amz-Target`.
pub open spec fn json_post(url: Seq<char>, target: Seq<char>) -> RequestView {
    RequestView {
        method: "POST"@,
        url,
        headers: seq![
            ("Content-Type"@, "application/x-amz-json-1.1"@),
            ("X-Amz-Target"@, target),
        ],
    }
}

/// See [`json_post`].
pub fn json_request(url: &str, target: &str) -> (r: Request)
    ensures
        r@ == json_post(url@, target@),
{
    let first = Request::new("POST", url).set("Content-Type", "application/x-amz-json-1.1");
    proof {
        reveal_strlit("Content-Type");
        reveal_strlit("X-Amz-Target");
        let one = seq![("Content-Type"@, "application/x-amz-json-1.1"@)];
        assert(first@.headers =~= one);
        assert(one.drop_last() =~= Seq::empty());
        assert("Content-Type"@[0] != "X-Amz-Target"@[0]);
        assert(one.last().0 == "Content-Type"@);
        assert(without_name(one.drop_last(), "X-Amz-Target"@) =~= Seq::empty());
        assert(without_name(one, "X-Amz-Target"@) =~= one);
    }
    let r = first.set("X-Amz-Target", target);
    assert(r@.headers =~= json_post(url@, target@).headers);
    r
}

/// The request after the instructions are merged in: each header is set,
/// first to last, then each parameter is appended to the URL's query.
pub open spec fn merged(
    request: RequestView,
    headers: Seq<(Seq<char>, Seq<char>)>,
    params: Seq<(Seq<char>, Seq<char>)>,
) -> RequestView {
    RequestView {
        method: request.method,
        url: with_queries(request.url, params),
        headers: set_all(request.headers, headers),
    }
}

/// Merges signing instructions into a request.
pub fn update_request(request: Request, instructions: Instructions) -> (r: Request)
    ensures
        r@ == merged(
            request@,
            pairs_view(instructions.headers@),
            pairs_view(instructions.params@),
        ),
{
    let ghost start = request@;
    let ghost hs = pairs_view(instructions.headers@);
    let ghost ps = pairs_view(instructions.params@);
    let mut out = request;
    let mut i: usize = 0;
    assert(hs.take(0) =~= Seq::empty());
    while i < instructions.headers.len()
        invariant
            i <= instructions.headers.len(),
            hs == pairs_view(instructions.headers@),
            out@.method == start.method,
            out@.url == start.url,
            out@.headers == set_all(start.headers, hs.take(i as int)),
        decreases instructions.headers.len() - i,
    {
        assert(hs.take(i + 1).drop_last() =~= hs.take(i as int));
        assert(hs.take(i + 1).last() == hs[i as int]);
        let header = &instructions.headers[i];
        out = out.set(header.0.as_str(), header.1.as_str());
        i += 1;
    }
    assert(hs.take(i as int) =~= hs);
    let mut j: usize = 0;
    assert(ps.take(0) =~= Seq::empty());
    while j < instructions.params.len()
        invariant
            j <= instructions.params.len(),
            ps == pairs_view(instructions.params@),
            out@.method == start.method,
            out@.headers == set_all(start.headers, hs),
            out@.url == with_queries(start.url, ps.take(j as int)),
        decreases instructions.params.len() - j,
    {
        assert(ps.take(j + 1).drop_last() =~= ps.take(j as int));
        assert(ps.take(j + 1).last() == ps[j as int]);
        let param = &instructions.params[j];
        out = out.query(param.0.as_str(), param.1.as_str());
        j += 1;
    }
    assert(ps.take(j as int) =~= ps);
    out
}

/// Whether `url` starts with `http://` or `https://`.
pub open spec fn absolute_url(url: Seq<char>) -> bool {
    "http://"@.is_prefix_of(url) || "https://"@.is_prefix_of(url)
}

/// See [`absolute_url`].
pub fn is_absolute_url(url: &str) -> (r: bool)
    ensures
        r == absolute_url(url@),
{
    starts_with(url, "http://") || starts_with(url, "https://")
}

/// Whether `service` names the object store, which wants the payload hash
/// in a header. The store is known as `s3` and as `storage`.
pub open spec fn object_storage(service: Seq<char>) -> bool {
    service == "s3"@ || service == "storage"@
}

/// The payload-checksum mode of a service: `Header` for the object store,
/// `NoHeader` for every other service.
pub open spec fn checksum_mode(service: Seq<char>) -> PayloadChecksum {
    if object_storage(service) {
        PayloadChecksum::Header
    } else {
        PayloadChecksum::NoHeader
    }
}

/// See [`checksum_mode`].
pub fn checksum_for(service: &str) -> (r: PayloadChecksum)
    ensures
        r == checksum_mode(service@),
{
    if same_text(service, "s3") || same_text(service, "storage") {
        PayloadChecksum::Header
    } else {
        PayloadChecksum::NoHeader
    }
}

/// The name of the header that carries the payload hash.
pub open spec fn content_hash_header() -> Seq<char> {
    "x-amz-content-sha256"@
}

/// The names of the headers that a signature adds, in order.
pub open spec fn signing_header_names(checksum: PayloadChecksum, with_token: bool) -> Seq<
    Seq<char>,
> {
    seq!["x-amz-date"@, "authorization"@] + (if checksum is Header {
        seq![content_hash_header()]
    } else {
        Seq::empty()
    }) + (if with_token {
        seq!["x-amz-security-token"@]
    } else {
        Seq::empty()
    })
}

/// The views of borrowed name/value pairs.
pub open spec fn borrowed_view(pairs: Seq<(&str, &str)>) -> Seq<(Seq<char>, Seq<char>)> {
    pairs.map_values(|p: (&str, &str)| (p.0@, p.1@))
}

/// The headers that `aws_sigv4::http_request::sign` returns for a request
/// signed with Signature Version 4, the signature placed in headers and
/// every other setting at its default; `None` where it refuses the request.
pub uninterp spec fn sigv4_headers(
    access_key_id: Seq<char>,
    secret_access_key: Seq<char>,
    session_token: Option<Seq<char>>,
    method: Seq<char>,
    url: Seq<char>,
    headers: Seq<(Seq<char>, Seq<char>)>,
    body: Seq<u8>,
    region: Seq<char>,
    service: Seq<char>,
    time_secs: u64,
    checksum: PayloadChecksum,
) -> Option<Seq<(Seq<char>, Seq<char>)>>;

/// Signs with `aws_sigv4::http_request::sign`, over a `SignableRequest` of
/// the given method, URL, headers and body bytes, and `SigningParams` of the
/// given keys, region, service name and time, with default settings but for
/// the payload-checksum kind.
///
/// The contract claims that the outcome depends on these arguments alone,
/// and that on success the header names are `x-amz-date`, `authorization`,
/// then `x-amz-content-sha256` in header mode, then `x-amz-security-token`
/// where there is a session token, whose value is the token. With the
/// signature in headers the signer returns no query parameters, so only
/// headers are handed back. The identity is built without an expiry, which
/// the signer does not read.
///
/// The signer panics on a URL without authority, on a query that outgrows
/// a path-and-query when written anew, on a header map past its capacity
/// and on a time that has no four-digit year: `requires` leaves these out.
#[verifier::external_body]
fn sigv4_sign(
    access_key_id: &str,
    secret_access_key: &str,
    session_token: Option<String>,
    method: &str,
    url: &str,
    headers: Vec<(&str, &str)>,
    body: &[u8],
    region: &str,
    service: &str,
    time_secs: u64,
    checksum: PayloadChecksum,
) -> (r: Result<Vec<(String, String)>, SigningError>)
    requires
        absolute_url(url@),
        url_bytes(url@) <= MAX_URL_BYTES,
        headers.len() <= MAX_HEADERS,
        time_secs <= MAX_SIGNING_TIME,
    ensures
        sigv4_headers(
            access_key_id@,
            secret_access_key@,
            opt_view(session_token),
            method@,
            url@,
            borrowed_view(headers@),
            body@,
            region@,
            service@,
            time_secs,
            checksum,
        ) == (match r {
            Ok(signed) => Some(pairs_view(signed@)),
            Err(_) => None,
        }),
        r matches Ok(signed) ==> names_of(pairs_view(signed@)) == signing_header_names(
            checksum,
            session_token is Some,
        ),
        r matches Ok(signed) ==> (session_token matches Some(token) ==> pairs_view(
            signed@,
        ).last().1 == token@),
{
    let identity = AwsCredentials::new(access_key_id, secret_access_key, session_token, None, "imds").into();
    let mut settings = SigningSettings::default();
    settings.payload_checksum_kind = match checksum {
        PayloadChecksum::Header => PayloadChecksumKind::XAmzSha256,
        PayloadChecksum::NoHeader => PayloadChecksumKind::NoHeader,
    };
    let time = UNIX_EPOCH + Duration::from_secs(time_secs);
    let params = SigningParams::builder().identity(&identity).region(region).name(service)
        .time(time).settings(settings).build().unwrap().into();
    let signable = SignableRequest::new(method, url, headers.into_iter(), SignableBody::Bytes(body))?;
    let output = sign(signable, &params)?.into_parts().0;
    Ok(output.headers().map(|h| (h.0.into(), h.1.into())).collect())
}

/// Reads the system clock with `SystemTime::now`, as whole seconds since the
/// Unix epoch; a clock set before the epoch reads as zero.
#[verifier::external_body]
fn unix_time_now() -> u64 {
    SystemTime::now().duration_since(UNIX_EPOCH).unwrap_or_default().as_secs()
}

/// The request's headers, borrowed.
fn borrow_pairs(pairs: &Vec<(String, String)>) -> (r: Vec<(&str, &str)>)
    ensures
        borrowed_view(r@) == pairs_view(pairs@),
        r.len() == pairs.len(),
{
    let mut out: Vec<(&str, &str)> = Vec::new();
    let mut i: usize = 0;
    while i < pairs.len()
        invariant
            i <= pairs.len(),
            out.len() == i,
            borrowed_view(out@) =~= pairs_view(pairs@).take(i as int),
        decreases pairs.len() - i,
    {
        out.push((pairs[i].0.as_str(), pairs[i].1.as_str()));
        i += 1;
    }
    assert(pairs_view(pairs@).take(i as int) =~= pairs_view(pairs@));
    out
}

/// The headers that signing adds to `request`, or `None` where the signer
/// refuses it.
pub open spec fn signature_headers(
    request: RequestView,
    body: Seq<u8>,
    credentials: CredentialsView,
    region: Seq<char>,
    service: Seq<char>,
    time_secs: u64,
) -> Option<Seq<(Seq<char>, Seq<char>)>> {
    sigv4_headers(
        credentials.access_key_id,
        credentials.secret_access_key,
        credentials.session_token,
        request.method,
        request.url,
        request.headers,
        body,
        region,
        service,
        time_secs,
        checksum_mode(service),
    )
}

/// The length of a URL in bytes.
pub open spec fn url_bytes(url: Seq<char>) -> nat {
    vstd::utf8::encode_utf8(url).len()
}

/// Whether a request can be handed to the signer at `time_secs`.
pub open spec fn signable(request: RequestView, time_secs: u64) -> bool {
    &&& absolute_url(request.url)
    &&& url_bytes(request.url) <= MAX_URL_BYTES
    &&& request.headers.len() <= MAX_HEADERS
    &&& time_secs <= MAX_SIGNING_TIME
}

/// Whether `r` is what signing `request` at `time_secs` gives: the request
/// with the signature's headers set, or the one failure that applies.
pub open spec fn signing_outcome(
    request: RequestView,
    body: Seq<u8>,
    credentials: CredentialsView,
    region: Seq<char>,
    service: Seq<char>,
    time_secs: u64,
    r: Result<Request, Error>,
) -> bool {
    let added = signature_headers(request, body, credentials, region, service, time_secs);
    match r {
        Ok(signed) => signable(request, time_secs) && added is Some && signed@ == merged(
            request,
            added->0,
            Seq::empty(),
        ),
        Err(Error::SigningError(SigningFailure::RelativeUrl)) => !absolute_url(request.url),
        Err(Error::SigningError(SigningFailure::UrlTooLong)) => absolute_url(request.url)
            && url_bytes(request.url) > MAX_URL_BYTES,
        Err(Error::SigningError(SigningFailure::TooManyHeaders)) => absolute_url(request.url)
            && url_bytes(request.url) <= MAX_URL_BYTES && request.headers.len() > MAX_HEADERS,
        Err(Error::SigningError(SigningFailure::ClockOutOfRange)) => absolute_url(request.url)
            && url_bytes(request.url) <= MAX_URL_BYTES && request.headers.len() <= MAX_HEADERS
            && time_secs > MAX_SIGNING_TIME,
        Err(Error::SigningError(SigningFailure::Rejected(_))) => signable(request, time_secs)
            && added is None,
        Err(_) => false,
    }
}

/// Whether a signed request carries the headers that every signature adds,
/// the payload-hash header exactly where the service is the object store or
/// the draft already had one, and the session token, where there is one, as
/// its last header.
pub open spec fn carries_signature(
    request: RequestView,
    session_token: Option<Seq<char>>,
    service: Seq<char>,
    signed: RequestView,
) -> bool {
    &&& has_name(signed.headers, "authorization"@)
    &&& has_name(signed.headers, "x-amz-date"@)
    &&& has_name(signed.headers, content_hash_header()) <==> object_storage(service) || has_name(
        request.headers,
        content_hash_header(),
    )
    &&& session_token matches Some(token) ==> signed.headers.len() > 0 && signed.headers.last()
        == ("x-amz-security-token"@, token)
}

/// What the names of a signature's headers say of three of them.
pub proof fn lemma_signing_names(
    checksum: PayloadChecksum,
    with_token: bool,
    added: Seq<(Seq<char>, Seq<char>)>,
)
    requires
        names_of(added) == signing_header_names(checksum, with_token),
    ensures
        has_name(added, "authorization"@),
        has_name(added, "x-amz-date"@),
        has_name(added, content_hash_header()) <==> checksum is Header,
        with_token ==> added.len() > 0 && added.last().0 == "x-amz-security-token"@,
{
    reveal_strlit("x-amz-date");
    reveal_strlit("authorization");
    reveal_strlit("x-amz-content-sha256");
    reveal_strlit("x-amz-security-token");
    let names = names_of(added);
    assert(names.len() == added.len());
    assert(forall|i: int| 0 <= i < added.len() ==> names[i] == (#[trigger] added[i]).0);
    assert(names[0] == "x-amz-date"@);
    assert(names[1] == "authorization"@);
    assert(added[0].0 == "x-amz-date"@);
    assert(added[1].0 == "authorization"@);
    assert("x-amz-security-token"@[6] != "x-amz-content-sha256"@[6]);
    if with_token {
        assert(names.last() == "x-amz-security-token"@);
        assert(added[added.len() - 1].0 == names[names.len() - 1]);
    }
    if checksum is Header {
        assert(names[2] == content_hash_header());
        assert(added[2].0 == content_hash_header());
    } else {
        if has_name(added, content_hash_header()) {
            let i = choose|i: int|
                0 <= i < added.len() && (#[trigger] added[i]).0 == content_hash_header();
            assert(names[i] == content_hash_header());
            assert(false);
        }
    }
}

/// Signs `request` for transmission with `body`, as of `time_secs` seconds
/// after the Unix epoch.
///
/// The result is fixed by the arguments. A request that carries no payload
/// hash header gets one exactly for the object store.
pub fn sign_request_at(
    request: Request,
    body: &[u8],
    credentials: &Credentials,
    region: &str,
    service: &str,
    time_secs: u64,
) -> (r: Result<Request, Error>)
    ensures
        signing_outcome(request@, body@, credentials@, region@, service@, time_secs, r),
        r matches Ok(signed) ==> carries_signature(
            request@,
            credentials@.session_token,
            service@,
            signed@,
        ),
{
    if !is_absolute_url(request.url.as_str()) {
        return Err(Error::SigningError(SigningFailure::RelativeUrl));
    }
    if request.url.as_str().as_bytes().len() > MAX_URL_BYTES {
        return Err(Error::SigningError(SigningFailure::UrlTooLong));
    }
    if request.headers.len() > MAX_HEADERS {
        return Err(Error::SigningError(SigningFailure::TooManyHeaders));
    }
    if time_secs > MAX_SIGNING_TIME {
        return Err(Error::SigningError(SigningFailure::ClockOutOfRange));
    }
    let checksum = checksum_for(service);
    let outcome = sigv4_sign(
        credentials.access_key_id.as_str(),
        credentials.secret_access_key.as_str(),
        credentials.session_token.clone(),
        request.method.as_str(),
        request.url.as_str(),
        borrow_pairs(&request.headers),
        body,
        region,
        service,
        time_secs,
        checksum,
    );
    match outcome {
        Err(e) => Err(Error::SigningError(SigningFailure::Rejected(e))),
        Ok(headers) => {
            let ghost added = pairs_view(headers@);
            let ghost before = request@;
            let instructions = Instructions { headers, params: Vec::new() };
            assert(pairs_view(instructions.params@) =~= Seq::empty());
            let signed = update_request(request, instructions);
            proof {
                lemma_signing_names(checksum, credentials.session_token is Some, added);
                lemma_set_all_names(before.headers, added, content_hash_header());
                lemma_set_all_names(before.headers, added, "authorization"@);
                lemma_set_all_names(before.headers, added, "x-amz-date"@);
            }
            Ok(signed)
        },
    }
}

/// Signs `request` as of now: reads the system clock once, then signs as
/// [`sign_request_at`] does for that second.
///
/// Whatever the clock says, the result is what signing at some second
/// gives, and a relative URL, an overlong URL or an oversized header list is
/// refused.
pub fn sign_request(
    request: Request,
    body: &[u8],
    credentials: &Credentials,
    region: &str,
    service: &str,
) -> (r: Result<Request, Error>)
    ensures
        exists|time_secs: u64| #[trigger]
            signing_outcome(request@, body@, credentials@, region@, service@, time_secs, r),
        r matches Ok(signed) ==> carries_signature(
            request@,
            credentials@.session_token,
            service@,
            signed@,
        ),
        !absolute_url(request@.url) ==> r matches Err(
            Error::SigningError(SigningFailure::RelativeUrl),
        ),
        absolute_url(request@.url) && url_bytes(request@.url) > MAX_URL_BYTES ==> r matches Err(
            Error::SigningError(SigningFailure::UrlTooLong),
        ),
        absolute_url(request@.url) && url_bytes(request@.url) <= MAX_URL_BYTES
            && request@.headers.len() > MAX_HEADERS ==> r matches Err(
            Error::SigningError(SigningFailure::TooManyHeaders),
        ),
{
    let now: u64 = unix_time_now();
    sign_request_at(request, body, credentials, region, service, now)
}

/// Signing at a fixed second is a function of its arguments: two results
/// for the same request, body, credentials, region, service and second
/// agree on success, on the signed request and on the kind of failure.
pub proof fn lemma_signing_is_deterministic(
    request: RequestView,
    body: Seq<u8>,
    credentials: CredentialsView,
    region: Seq<char>,
    service: Seq<char>,
    time_secs: u64,
    first: Result<Request, Error>,
    second: Result<Request, Error>,
)
    requires
        signing_outcome(request, body, credentials, region, service, time_secs, first),
        signing_outcome(request, body, credentials, region, service, time_secs, second),
    ensures
        match (first, second) {
            (Ok(a), Ok(b)) => a@ == b@,
            (Err(Error::SigningError(a)), Err(Error::SigningError(b))) => {
                &&& a is RelativeUrl <==> b is RelativeUrl
                &&& a is UrlTooLong <==> b is UrlTooLong
                &&& a is TooManyHeaders <==> b is TooManyHeaders
                &&& a is ClockOutOfRange <==> b is ClockOutOfRange
                &&& a is Rejected <==> b is Rejected
            },
            _ => false,
        },
{
}

/// Milliseconds of backoff per attempt already made.
pub const BACKOFF_STEP_MS: u64 = 10;

/// What follows an attempt.
#[derive(Clone, Copy, Debug, PartialEq, Eq)]
pub enum Step {
    /// Hand the outcome of the attempt to the caller.
    Return,
    /// Wait for so many milliseconds, then attempt again.
    RetryAfter(u64),
}

/// The most attempts made for a budget: the budget itself, and one attempt
/// where the budget is zero.
pub open spec fn attempt_limit(max_attempts: u32) -> nat {
    if max_attempts == 0 {
        1
    } else {
        max_attempts as nat
    }
}

/// The wait before the next attempt, in milliseconds, after
/// `attempts_so_far` attempts have failed: linear, ten milliseconds per
/// attempt made, so the first retry waits ten milliseconds.
pub open spec fn backoff_ms(attempts_so_far: u32) -> u64 {
    (attempts_so_far * BACKOFF_STEP_MS) as u64
}

/// The retry policy: stop on success, on a failure that is not retryable,
/// and when the budget is used up; otherwise back off and retry.
pub open spec fn next_step(
    succeeded: bool,
    retryable: bool,
    attempts_so_far: u32,
    max_attempts: u32,
) -> Step {
    if succeeded || !retryable || attempts_so_far >= max_attempts {
        Step::Return
    } else {
        Step::RetryAfter(backoff_ms(attempts_so_far))
    }
}

/// See [`backoff_ms`].
pub fn backoff_delay(attempts_so_far: u32) -> (ms: u64)
    ensures
        ms == backoff_ms(attempts_so_far),
        ms == attempts_so_far * 10,
{
    let n: u64 = attempts_so_far.into();
    n * BACKOFF_STEP_MS
}

/// Decides what follows an attempt with the given outcome, the
/// `attempts_so_far` counting that attempt.
pub fn after_attempt<T>(outcome: &Result<T, Error>, attempts_so_far: u32, max_attempts: u32) -> (s:
    Step)
    ensures
        s == next_step(
            outcome is Ok,
            outcome is Err && outcome->Err_0.retryable(),
            attempts_so_far,
            max_attempts,
        ),
{
    match outcome {
        Ok(_) => Step::Return,
        Err(e) => {
            if !e.is_retryable() || attempts_so_far >= max_attempts {
                Step::Return
            } else {
                Step::RetryAfter(backoff_delay(attempts_so_far))
            }
        },
    }
}

/// Whether `trace` can be the outcomes of the attempts of one run, in
/// order, and `r` its result: every attempt but the last failed retryably,
/// the run made no more attempts than the budget allows and stopped short
/// of it only on a success or on a failure that is not retryable, and `r` is
/// the last outcome.
pub open spec fn run_of<T>(max_attempts: u32, trace: Seq<Result<T, Error>>, r: Result<T, Error>) -> bool {
    &&& 1 <= trace.len() <= attempt_limit(max_attempts)
    &&& forall|i: int|
        0 <= i < trace.len() - 1 ==> (#[trigger] trace[i]) is Err && trace[i]->Err_0.retryable()
    &&& trace.last() == r
    &&& (r is Err && r->Err_0.retryable()) ==> trace.len() == attempt_limit(max_attempts)
}

/// Whether `pause` has returned for the backoff after each of the first
/// `attempts - 1` attempts: ten milliseconds after the first, twenty after
/// the second, and so on.
pub open spec fn paused<P: Fn(u64) -> ()>(pause: P, attempts: nat) -> bool {
    forall|k: u32| 1 <= k < attempts ==> pause.ensures((#[trigger] backoff_ms(k),), ())
}

/// Runs `produce_and_send` until it succeeds, fails in a way that is not
/// retryable, or has been attempted `max_attempts` times (once where the
/// budget is zero), and returns the last outcome. Between two attempts it
/// calls `pause` with the backoff in milliseconds: ten after the first
/// failure, twenty after the second, and so on; never after the last.
///
/// Transport and status failures are retried alike; a signing failure is
/// returned at once. The result is the last of a run of outcomes of the
/// closure, one for each call, and `pause` has returned once for each
/// attempt but the last, for the backoff after that attempt.
pub fn with_retry<T, F, P>(produce_and_send: F, max_attempts: u32, pause: P) -> (r: Result<
    T,
    Error,
>) where F: Fn() -> Result<T, Error>, P: Fn(u64) -> ()
    requires
        produce_and_send.requires(()),
        forall|ms: u64| pause.requires((ms,)),
    ensures
        exists|trace: Seq<Result<T, Error>>| #[trigger]
            run_of(max_attempts, trace, r) && (forall|i: int|
                0 <= i < trace.len() ==> produce_and_send.ensures((), #[trigger] trace[i]))
                && paused(pause, trace.len()),
{
    let mut attempts: u32 = 0;
    let ghost mut trace: Seq<Result<T, Error>> = Seq::empty();
    loop
        invariant
            produce_and_send.requires(()),
            forall|ms: u64| pause.requires((ms,)),
            attempts == trace.len(),
            attempts < attempt_limit(max_attempts),
            forall|i: int|
                0 <= i < trace.len() ==> produce_and_send.ensures((), #[trigger] trace[i]),
            forall|i: int|
                0 <= i < trace.len() ==> (#[trigger] trace[i]) is Err
                    && trace[i]->Err_0.retryable(),
            paused(pause, (attempts + 1) as nat),
        decreases attempt_limit(max_attempts) - attempts,
    {
        let outcome = produce_and_send();
        attempts += 1;
        proof {
            trace = trace.push(outcome);
        }
        match after_attempt(&outcome, attempts, max_attempts) {
            Step::Return => {
                assert(run_of(max_attempts, trace, outcome));
                return outcome;
            },
            Step::RetryAfter(ms) => {
                pause(ms);
                assert(pause.ensures((backoff_ms(attempts),), ()));
            },
        }
    }
}

/// Where every attempt fails retryably, the run makes as many attempts as
/// the budget allows and returns the last failure.
pub proof fn lemma_failing_run_uses_budget<T>(
    max_attempts: u32,
    trace: Seq<Result<T, Error>>,
    r: Result<T, Error>,
)
    requires
        run_of(max_attempts, trace, r),
        forall|i: int|
            0 <= i < trace.len() ==> (#[trigger] trace[i]) is Err && trace[i]->Err_0.retryable(),
    ensures
        trace.len() == attempt_limit(max_attempts),
        r is Err,
        r == trace.last(),
{
}

/// A run stops at its first success: no attempt follows one that
/// succeeded, and that success is the result.
pub proof fn lemma_run_stops_at_success<T>(
    max_attempts: u32,
    trace: Seq<Result<T, Error>>,
    r: Result<T, Error>,
    i: int,
)
    requires
        run_of(max_attempts, trace, r),
        0 <= i < trace.len(),
        trace[i] is Ok,
    ensures
        i == trace.len() - 1,
        r == trace[i],
{
}

/// A failure that is not retryable, such as a signing failure, ends the run
/// where it occurs: where the first attempt fails so, it is the only one.
pub proof fn lemma_terminal_failure_ends_run<T>(
    max_attempts: u32,
    trace: Seq<Result<T, Error>>,
    r: Result<T, Error>,
    i: int,
)
    requires
        run_of(max_attempts, trace, r),
        0 <= i < trace.len(),
        trace[i] is Err,
        !trace[i]->Err_0.retryable(),
    ensures
        i == trace.len() - 1,
        r == trace[i],
        i == 0 ==> trace.len() == 1,
{
}

/// Whether `r` can come of sending `signed` with `body` under a budget:
/// the last of a run of outcomes of the transport, one for each attempt,
/// with a pause after each attempt but the last.
pub open spec fn sent<T, F: Fn(&Request, &[u8]) -> Result<T, Error>, P: Fn(u64) -> ()>(
    transport: F,
    pause: P,
    signed: Request,
    body: &[u8],
    max_attempts: u32,
    r: Result<T, Error>,
) -> bool {
    exists|trace: Seq<Result<T, Error>>| #[trigger]
        run_of(max_attempts, trace, r) && (forall|i: int|
            0 <= i < trace.len() ==> transport.ensures((&signed, body), #[trigger] trace[i]))
            && paused(pause, trace.len())
}

/// Whether `r` can come of signing `request` and sending it: the signing
/// failure where signing fails, else what sending the signed request gives.
pub open spec fn signed_and_sent<
    T,
    F: Fn(&Request, &[u8]) -> Result<T, Error>,
    P: Fn(u64) -> (),
>(
    transport: F,
    pause: P,
    request: RequestView,
    body: &[u8],
    credentials: CredentialsView,
    region: Seq<char>,
    service: Seq<char>,
    max_attempts: u32,
    r: Result<T, Error>,
) -> bool {
    exists|time_secs: u64, signing: Result<Request, Error>| #[trigger]
        signing_outcome(request, body@, credentials, region, service, time_secs, signing)
            && match signing {
            Ok(signed) => carries_signature(request, credentials.session_token, service, signed@)
                && sent(
                transport,
                pause,
                signed,
                body,
                max_attempts,
                r,
            ),
            Err(e) => r == Err::<T, Error>(e),
        }
}

/// Signs `request` once, then sends the signed request with `transport`
/// under the retry policy of [`with_retry`]. The request is not signed
/// again between attempts: every attempt sends the same signed request
/// and the same body. A signing failure is returned without any attempt.
pub fn send_signed<T, F, P>(
    request: Request,
    body: &[u8],
    credentials: &Credentials,
    region: &str,
    service: &str,
    max_attempts: u32,
    transport: F,
    pause: P,
) -> (r: Result<T, Error>) where F: Fn(&Request, &[u8]) -> Result<T, Error>, P: Fn(u64) -> ()
    requires
        forall|signed: &Request, bytes: &[u8]| transport.requires((signed, bytes)),
        forall|ms: u64| pause.requires((ms,)),
    ensures
        signed_and_sent(
            transport,
            pause,
            request@,
            body,
            credentials@,
            region@,
            service@,
            max_attempts,
            r,
        ),
        !absolute_url(request@.url) ==> r matches Err(
            Error::SigningError(SigningFailure::RelativeUrl),
        ),
{
    let ghost draft = request@;
    let signing = sign_request(request, body, credentials, region, service);
    let ghost witness = signing;
    match signing {
        Err(e) => {
            assert(witness == Err::<Request, Error>(e));
            Err(e)
        },
        Ok(signed) => {
            let wire = &transport;
            let attempt = || -> (o: Result<T, Error>)
                requires
                    wire.requires((&signed, body)),
                ensures
                    wire.ensures((&signed, body), o),
                { wire(&signed, body) };
            let r = with_retry(attempt, max_attempts, pause);
            assert(sent(transport, pause, signed, body, max_attempts, r));
            r
        },
    }
}

} // verus!

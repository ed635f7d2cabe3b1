//! Block storage: attaching and describing volumes.

use vstd::prelude::*;
use vstd::string::*;
use vstd::utf8::encode_utf8;
use crate::credentials::{Credentials, CredentialsView};
use crate::request::{form_encode, form_urlencoded, send_signed, signed_and_sent, Request, RequestView};
use crate::text::{concat2, decimal, decimal_string, pairs_view};

verus! {

/// The name under which requests to this service are signed.
pub const SERVICE_NAME: &'static str = "ec2";

/// The version of the service's API that the requests name.
pub const API_VERSION: &'static str = "2016-11-15";

/// How often a request is attempted.
pub const MAX_ATTEMPTS: u32 = 5;

/// The views of a list of strings.
pub open spec fn strings_view(values: Seq<String>) -> Seq<Seq<char>> {
    values.map_values(|s: String| s@)
}

/// A filter on the volumes to describe.
#[derive(Clone, Debug, Default)]
pub struct Filter {
    pub name: String,
    pub values: Vec<String>,
}

/// What a `Filter` holds, as plain sequences.
pub struct FilterView {
    pub name: Seq<char>,
    pub values: Seq<Seq<char>>,
}

impl View for Filter {
    type V = FilterView;

    open spec fn view(&self) -> FilterView {
        FilterView { name: self.name@, values: strings_view(self.values@) }
    }
}

/// The views of a list of filters.
pub open spec fn filters_view(filters: Seq<Filter>) -> Seq<FilterView> {
    filters.map_values(|f: Filter| f@)
}

/// The parameters `<prefix>.1`, `<prefix>.2`, ... that list `values`.
pub open spec fn list_params(values: Seq<Seq<char>>, prefix: Seq<char>) -> Seq<
    (Seq<char>, Seq<char>),
> {
    Seq::new(values.len(), |i: int| (prefix + "."@ + decimal((i + 1) as nat), values[i]))
}

/// The parameters of one filter: `<prefix>.Name`, then `<prefix>.Value.1`,
/// `<prefix>.Value.2`, ... for its values.
pub open spec fn filter_params(filter: FilterView, prefix: Seq<char>) -> Seq<
    (Seq<char>, Seq<char>),
> {
    seq![(prefix + ".Name"@, filter.name)] + list_params(filter.values, prefix + ".Value"@)
}

/// The parameters of a list of filters: those of the first under
/// `<prefix>.1`, of the second under `<prefix>.2`, and so on.
pub open spec fn filters_params(filters: Seq<FilterView>, prefix: Seq<char>) -> Seq<
    (Seq<char>, Seq<char>),
>
    decreases filters.len(),
{
    if filters.len() == 0 {
        Seq::empty()
    } else {
        filters_params(filters.drop_last(), prefix) + filter_params(
            filters.last(),
            prefix + "."@ + decimal(filters.len()),
        )
    }
}

/// `<prefix>.<n>`, with `n` in decimal.
fn numbered(prefix: &str, n: usize) -> (r: String)
    ensures
        r@ == prefix@ + "."@ + decimal(n as nat),
{
    let mut out = concat2(prefix, ".");
    let digits = decimal_string(n as u64);
    out.append(digits.as_str());
    out
}

/// Appends the pairs of `more` to `params`.
fn extend(params: &mut Vec<(String, String)>, more: Vec<(String, String)>)
    ensures
        pairs_view(final(params)@) == pairs_view(old(params)@) + pairs_view(more@),
{
    let ghost start = pairs_view(params@);
    let ghost added = pairs_view(more@);
    let mut more = more;
    params.append(&mut more);
    assert(pairs_view(params@) =~= start + added);
}

/// See [`list_params`].
pub fn strings_to_params(values: &Vec<String>, prefix: &str) -> (r: Vec<(String, String)>)
    ensures
        pairs_view(r@) == list_params(strings_view(values@), prefix@),
{
    let mut params: Vec<(String, String)> = Vec::new();
    let mut i: usize = 0;
    while i < values.len()
        invariant
            i <= values.len(),
            params.len() == i,
            forall|k: int|
                0 <= k < i ==> (#[trigger] params@[k]).0@ == prefix@ + "."@ + decimal(
                    (k + 1) as nat,
                ) && params@[k].1@ == values@[k]@,
        decreases values.len() - i,
    {
        params.push((numbered(prefix, i + 1), values[i].clone()));
        i += 1;
    }
    assert(pairs_view(params@) =~= list_params(strings_view(values@), prefix@));
    params
}

impl Filter {
    /// See [`filter_params`].
    pub fn to_params(&self, prefix: &str) -> (r: Vec<(String, String)>)
        ensures
            pairs_view(r@) == filter_params(self@, prefix@),
    {
        let mut params: Vec<(String, String)> = Vec::new();
        params.push((concat2(prefix, ".Name"), self.name.clone()));
        assert(pairs_view(params@) =~= seq![(prefix@ + ".Name"@, self.name@)]);
        let value_prefix = concat2(prefix, ".Value");
        extend(&mut params, strings_to_params(&self.values, value_prefix.as_str()));
        params
    }
}

/// See [`filters_params`].
pub fn filters_to_params(filters: &Vec<Filter>, prefix: &str) -> (r: Vec<(String, String)>)
    ensures
        pairs_view(r@) == filters_params(filters_view(filters@), prefix@),
{
    let ghost all = filters_view(filters@);
    let mut params: Vec<(String, String)> = Vec::new();
    let mut i: usize = 0;
    assert(all.take(0) =~= Seq::empty());
    assert(pairs_view(params@) =~= Seq::empty());
    while i < filters.len()
        invariant
            i <= filters.len(),
            all == filters_view(filters@),
            pairs_view(params@) == filters_params(all.take(i as int), prefix@),
        decreases filters.len() - i,
    {
        assert(all.take(i + 1).drop_last() =~= all.take(i as int));
        assert(all.take(i + 1).last() == filters@[i as int]@);
        let filter_prefix = numbered(prefix, i + 1);
        extend(&mut params, filters[i].to_params(filter_prefix.as_str()));
        i += 1;
    }
    assert(all.take(i as int) =~= all);
    params
}

/// Which volume to attach to which instance, and as which device.
#[derive(Clone, Debug, Default)]
pub struct AttachVolumeInput {
    pub device: String,
    pub instance_id: String,
    pub volume_id: String,
}

/// Which volumes to describe.
#[derive(Clone, Debug, Default)]
pub struct DescribeVolumesInput {
    pub filters: Option<Vec<Filter>>,
    pub max_results: Option<u32>,
    pub next_token: Option<String>,
    pub volume_ids: Option<Vec<String>>,
}

impl DescribeVolumesInput {
    /// Sets the filters; the other fields are kept.
    pub fn filters(self, filters: Vec<Filter>) -> (r: DescribeVolumesInput)
        ensures
            r.filters == Some(filters),
            r.max_results == self.max_results,
            r.next_token == self.next_token,
            r.volume_ids == self.volume_ids,
    {
        let mut r = self;
        r.filters = Some(filters);
        r
    }

    /// Sets the page size; the other fields are kept.
    pub fn max_results(self, max_results: u32) -> (r: DescribeVolumesInput)
        ensures
            r.filters == self.filters,
            r.max_results == Some(max_results),
            r.next_token == self.next_token,
            r.volume_ids == self.volume_ids,
    {
        let mut r = self;
        r.max_results = Some(max_results);
        r
    }

    /// Sets the token of the page to fetch; the other fields are kept.
    pub fn next_token(self, next_token: &str) -> (r: DescribeVolumesInput)
        ensures
            r.filters == self.filters,
            r.max_results == self.max_results,
            r.next_token is Some && r.next_token->0@ == next_token@,
            r.volume_ids == self.volume_ids,
    {
        let mut r = self;
        r.next_token = Some(next_token.to_owned());
        r
    }

    /// Sets the volumes to describe; the other fields are kept.
    pub fn volume_ids(self, volume_ids: Vec<String>) -> (r: DescribeVolumesInput)
        ensures
            r.filters == self.filters,
            r.max_results == self.max_results,
            r.next_token == self.next_token,
            r.volume_ids == Some(volume_ids),
    {
        let mut r = self;
        r.volume_ids = Some(volume_ids);
        r
    }
}

/// The state of an attachment.
#[derive(Clone, Copy, Debug, Default, PartialEq, Eq)]
pub enum Status {
    Attaching,
    Attached,
    Detaching,
    Detached,
    Busy,
    #[default]
    Unknown,
}

/// One error of an error response.
#[derive(Clone, Debug, Default)]
pub struct ApiError {
    pub code: String,
    pub message: String,
}

/// The errors of an error response.
#[derive(Clone, Debug, Default)]
pub struct Errors {
    pub error: Vec<ApiError>,
}

/// The body of an error response.
#[derive(Clone, Debug, Default)]
pub struct ErrorBody {
    pub errors: Errors,
    pub request_id: String,
}

/// Why an operation failed.
#[derive(Debug)]
pub enum Error {
    /// The service answered with an error.
    EC2(ErrorBody),
    /// The response could not be read.
    Io(String),
    /// The request could not be signed or sent.
    Request(crate::request::Error),
    /// A response body could not be decoded; the text says why.
    Xml(String),
}

/// Whether `r` is what a failed request becomes: a status failure is what
/// decoding its body gives, the service's error or the decoding failure;
/// any other failure is kept as it is.
pub open spec fn classified<D: Fn(&Vec<u8>) -> Result<ErrorBody, String>>(
    decode: D,
    failure: crate::request::Error,
    r: Error,
) -> bool {
    match failure {
        crate::request::Error::Api(_, body) => exists|decoded: Result<ErrorBody, String>| #[trigger]
            decode.ensures((&body,), decoded) && r == (match decoded {
                Ok(shape) => Error::EC2(shape),
                Err(why) => Error::Xml(why),
            }),
        _ => r == Error::Request(failure),
    }
}

/// The messages of the errors, joined by a comma and a space.
pub open spec fn joined_messages(errors: Seq<ApiError>) -> Seq<char>
    decreases errors.len(),
{
    if errors.len() == 0 {
        Seq::empty()
    } else if errors.len() == 1 {
        errors[0].message@
    } else {
        joined_messages(errors.drop_last()) + ", "@ + errors.last().message@
    }
}

/// Whether `text` is the text of `e`, as it is shown to users.
pub open spec fn error_text(e: Error, text: Seq<char>) -> bool {
    match e {
        Error::EC2(body) => text == "ec2 error(s): "@ + joined_messages(body.errors.error@),
        Error::Io(why) => text == "io error: "@ + why@,
        Error::Request(inner) => exists|why: Seq<char>| #[trigger]
            crate::request::error_text(inner, why) && text == "http request error: "@ + why,
        Error::Xml(why) => text == "xml error: "@ + why@,
    }
}

/// See [`joined_messages`].
pub fn join_messages(errors: &Vec<ApiError>) -> (r: String)
    ensures
        r@ == joined_messages(errors@),
{
    let mut out = String::new();
    let mut i: usize = 0;
    assert(errors@.take(0) =~= Seq::empty());
    while i < errors.len()
        invariant
            i <= errors.len(),
            out@ == joined_messages(errors@.take(i as int)),
        decreases errors.len() - i,
    {
        assert(errors@.take(i + 1).drop_last() =~= errors@.take(i as int));
        assert(errors@.take(i + 1).last() == errors@[i as int]);
        if i > 0 {
            out.append(", ");
        } else {
            assert(out@ + errors@[0].message@ =~= errors@[0].message@);
        }
        out.append(errors[i].message.as_str());
        i += 1;
    }
    assert(errors@.take(i as int) =~= errors@);
    out
}

impl Error {
    /// The text of the error, as it is shown to users.
    pub fn message(&self) -> (r: String)
        ensures
            error_text(*self, r@),
    {
        match self {
            Error::EC2(body) => {
                let all = join_messages(&body.errors.error);
                concat2("ec2 error(s): ", all.as_str())
            },
            Error::Io(why) => concat2("io error: ", why.as_str()),
            Error::Request(inner) => {
                let why = inner.message();
                assert(crate::request::error_text(*inner, why@));
                concat2("http request error: ", why.as_str())
            },
            Error::Xml(why) => concat2("xml error: ", why.as_str()),
        }
    }

    /// Classifies a failed request. The body of a status failure is decoded
    /// with `decode`; where that fails, the decoding failure is the result.
    pub fn from_request_error<D>(failure: crate::request::Error, decode: &D) -> (r: Error) where
        D: Fn(&Vec<u8>) -> Result<ErrorBody, String>,

        requires
            forall|body: &Vec<u8>| decode.requires((body,)),
        ensures
            classified(*decode, failure, r),
    {
        match failure {
            crate::request::Error::Api(code, body) => {
                let decoded = decode(&body);
                assert(decode.ensures((&body,), decoded));
                match decoded {
                    Ok(shape) => Error::EC2(shape),
                    Err(why) => Error::Xml(why),
                }
            },
            crate::request::Error::SigningError(e) => Error::Request(
                crate::request::Error::SigningError(e),
            ),
            crate::request::Error::Transport(e) => Error::Request(
                crate::request::Error::Transport(e),
            ),
        }
    }
}

/// The endpoint of the service in a region.
pub open spec fn endpoint(region: Seq<char>) -> Seq<char> {
    "https://"@ + SERVICE_NAME@ + "."@ + region + ".amazonaws.com"@
}

/// The parameters of an `AttachVolume` call.
pub open spec fn attach_volume_params(input: AttachVolumeInput) -> Seq<(Seq<char>, Seq<char>)> {
    seq![
        ("Action"@, "AttachVolume"@),
        ("Version"@, API_VERSION@),
        ("Device"@, input.device@),
        ("InstanceId"@, input.instance_id@),
        ("VolumeId"@, input.volume_id@),
    ]
}

/// The parameters of a `DescribeVolumes` call: action and version, then
/// the filters, the page size, the page token and the volumes, each where
/// it is set.
pub open spec fn describe_volumes_params(input: DescribeVolumesInput) -> Seq<
    (Seq<char>, Seq<char>),
> {
    seq![("Action"@, "DescribeVolumes"@), ("Version"@, API_VERSION@)] + (match input.filters {
        Some(filters) => filters_params(filters_view(filters@), "Filter"@),
        None => Seq::empty(),
    }) + (match input.max_results {
        Some(n) => seq![("MaxResults"@, decimal(n as nat))],
        None => Seq::empty(),
    }) + (match input.next_token {
        Some(token) => seq![("NextToken"@, token@)],
        None => Seq::empty(),
    }) + (match input.volume_ids {
        Some(ids) => list_params(strings_view(ids@), "VolumeId"@),
        None => Seq::empty(),
    })
}

/// Whether `r` can come of a call: the parameters are form-encoded into the
/// body, the request is signed for this service and sent within the budget,
/// and a failure is classified.
pub open spec fn called<T, F, P, D>(
    transport: F,
    pause: P,
    decode: D,
    request: RequestView,
    params: Seq<(Seq<char>, Seq<char>)>,
    credentials: CredentialsView,
    region: Seq<char>,
    r: Result<T, Error>,
) -> bool where
    F: Fn(&Request, &[u8]) -> Result<T, crate::request::Error>,
    P: Fn(u64) -> (),
    D: Fn(&Vec<u8>) -> Result<ErrorBody, String>,
 {
    exists|body: &[u8], outcome: Result<T, crate::request::Error>| #[trigger]
        signed_and_sent(
            transport,
            pause,
            request,
            body,
            credentials,
            region,
            SERVICE_NAME@,
            MAX_ATTEMPTS,
            outcome,
        ) && body@ == encode_utf8(form_urlencoded(params)) && match outcome {
            Ok(response) => r == Ok::<T, Error>(response),
            Err(failure) => r is Err && classified(decode, failure, r->Err_0),
        }
}

/// A client of the service in one region.
#[derive(Clone, Debug)]
pub struct Api {
    pub credentials: Credentials,
    pub region: String,
}

impl Api {
    /// A client for `region` that signs with `credentials`.
    pub fn new(region: &str, credentials: Credentials) -> (r: Api)
        ensures
            r.region@ == region@,
            r.credentials == credentials,
    {
        Api { region: region.to_owned(), credentials }
    }

    /// The endpoint of the service in the client's region.
    pub fn url(&self) -> (r: String)
        ensures
            r@ == endpoint(self.region@),
    {
        let mut out = concat2("https://", SERVICE_NAME);
        out.append(".");
        out.append(self.region.as_str());
        out.append(".amazonaws.com");
        out
    }

    /// Sends `request` with `params` as its form-encoded body.
    pub fn send<T, F, P, D>(
        &self,
        request: Request,
        params: Vec<(String, String)>,
        transport: F,
        pause: P,
        decode: &D,
    ) -> (r: Result<T, Error>) where
        F: Fn(&Request, &[u8]) -> Result<T, crate::request::Error>,
        P: Fn(u64) -> (),
        D: Fn(&Vec<u8>) -> Result<ErrorBody, String>,

        requires
            forall|signed: &Request, bytes: &[u8]| transport.requires((signed, bytes)),
            forall|ms: u64| pause.requires((ms,)),
            forall|body: &Vec<u8>| decode.requires((body,)),
        ensures
            called(
                transport,
                pause,
                *decode,
                request@,
                pairs_view(params@),
                self.credentials@,
                self.region@,
                r,
            ),
    {
        let encoded = form_encode(&params);
        let body = encoded.as_str().as_bytes();
        let outcome = send_signed(
            request,
            body,
            &self.credentials,
            self.region.as_str(),
            SERVICE_NAME,
            MAX_ATTEMPTS,
            transport,
            pause,
        );
        let ghost seen = outcome;
        match outcome {
            Ok(response) => {
                assert(seen == Ok::<T, crate::request::Error>(response));
                Ok(response)
            },
            Err(failure) => {
                assert(seen == Err::<T, crate::request::Error>(failure));
                Err(Error::from_request_error(failure, decode))
            },
        }
    }

    /// Attaches a volume to an instance: a `POST` to the endpoint.
    pub fn attach_volume<T, F, P, D>(
        &self,
        input: AttachVolumeInput,
        transport: F,
        pause: P,
        decode: &D,
    ) -> (r: Result<T, Error>) where
        F: Fn(&Request, &[u8]) -> Result<T, crate::request::Error>,
        P: Fn(u64) -> (),
        D: Fn(&Vec<u8>) -> Result<ErrorBody, String>,

        requires
            forall|signed: &Request, bytes: &[u8]| transport.requires((signed, bytes)),
            forall|ms: u64| pause.requires((ms,)),
            forall|body: &Vec<u8>| decode.requires((body,)),
        ensures
            called(
                transport,
                pause,
                *decode,
                RequestView {
                    method: "POST"@,
                    url: endpoint(self.region@),
                    headers: Seq::empty(),
                },
                attach_volume_params(input),
                self.credentials@,
                self.region@,
                r,
            ),
    {
        let request = Request::new("POST", self.url().as_str());
        let mut params: Vec<(String, String)> = Vec::new();
        params.push(("Action".to_owned(), "AttachVolume".to_owned()));
        params.push(("Version".to_owned(), API_VERSION.to_owned()));
        params.push(("Device".to_owned(), input.device));
        params.push(("InstanceId".to_owned(), input.instance_id));
        params.push(("VolumeId".to_owned(), input.volume_id));
        assert(pairs_view(params@) =~= attach_volume_params(input));
        self.send(request, params, transport, pause, decode)
    }

    /// Describes volumes: a `POST` to the endpoint's root path.
    pub fn describe_volumes<T, F, P, D>(
        &self,
        input: DescribeVolumesInput,
        transport: F,
        pause: P,
        decode: &D,
    ) -> (r: Result<T, Error>) where
        F: Fn(&Request, &[u8]) -> Result<T, crate::request::Error>,
        P: Fn(u64) -> (),
        D: Fn(&Vec<u8>) -> Result<ErrorBody, String>,

        requires
            forall|signed: &Request, bytes: &[u8]| transport.requires((signed, bytes)),
            forall|ms: u64| pause.requires((ms,)),
            forall|body: &Vec<u8>| decode.requires((body,)),
        ensures
            called(
                transport,
                pause,
                *decode,
                RequestView {
                    method: "POST"@,
                    url: endpoint(self.region@) + "/"@,
                    headers: Seq::empty(),
                },
                describe_volumes_params(input),
                self.credentials@,
                self.region@,
                r,
            ),
    {
        let url = concat2(self.url().as_str(), "/");
        let request = Request::new("POST", url.as_str());
        let params = describe_volumes_input_params(&input);
        self.send(request, params, transport, pause, decode)
    }
}

/// See [`describe_volumes_params`].
pub fn describe_volumes_input_params(input: &DescribeVolumesInput) -> (r: Vec<(String, String)>)
    ensures
        pairs_view(r@) == describe_volumes_params(*input),
{
    let mut params: Vec<(String, String)> = Vec::new();
    params.push(("Action".to_owned(), "DescribeVolumes".to_owned()));
    params.push(("Version".to_owned(), API_VERSION.to_owned()));
    assert(pairs_view(params@) =~= seq![
        ("Action"@, "DescribeVolumes"@),
        ("Version"@, API_VERSION@),
    ]);
    match &input.filters {
        Some(filters) => {
            extend(&mut params, filters_to_params(filters, "Filter"));
        },
        None => {
            assert(pairs_view(params@) + Seq::empty() =~= pairs_view(params@));
        },
    }
    match input.max_results {
        Some(n) => {
            let ghost before = pairs_view(params@);
            params.push(("MaxResults".to_owned(), decimal_string(n as u64)));
            assert(pairs_view(params@) =~= before + seq![("MaxResults"@, decimal(n as nat))]);
        },
        None => {
            assert(pairs_view(params@) + Seq::empty() =~= pairs_view(params@));
        },
    }
    match &input.next_token {
        Some(token) => {
            let ghost before = pairs_view(params@);
            params.push(("NextToken".to_owned(), token.clone()));
            assert(pairs_view(params@) =~= before + seq![("NextToken"@, token@)]);
        },
        None => {
            assert(pairs_view(params@) + Seq::empty() =~= pairs_view(params@));
        },
    }
    match &input.volume_ids {
        Some(ids) => {
            extend(&mut params, strings_to_params(ids, "VolumeId"));
        },
        None => {
            assert(pairs_view(params@) + Seq::empty() =~= pairs_view(params@));
        },
    }
    params
}

} // verus!

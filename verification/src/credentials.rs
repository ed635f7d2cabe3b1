//! The signing identity: long-term or temporary access keys.

use vstd::prelude::*;
use vstd::string::*;
use crate::text::{concat2, pairs_view, same_text};

verus! {

/// Why credentials could not be read from a map.
#[derive(Debug)]
pub enum MapError {
    /// A mandatory key is missing; the text is `<key> not found`.
    NotFound(String),
    /// The expiration is no RFC 3339 time; the text says why.
    InvalidInput(String),
}

/// What `chrono::DateTime::parse_from_rfc3339` makes of a text: the
/// instant as seconds since the Unix epoch and nanoseconds past that second,
/// or the text of the parse error.
pub uninterp spec fn rfc3339_instant(text: Seq<char>) -> Result<(i64, u32), Seq<char>>;

/// Parses an RFC 3339 time with `chrono::DateTime::parse_from_rfc3339` and
/// reads the instant with `timestamp` and `timestamp_subsec_nanos`; a parse
/// error is handed back as its text. The outcome depends on the text alone.
#[verifier::external_body]
fn parse_rfc3339(text: &str) -> (r: Result<Expiry, String>)
    ensures
        rfc3339_instant(text@) == (match r {
            Ok(at) => Ok((at.secs, at.nanos)),
            Err(why) => Err(why@),
        }),
{
    chrono::DateTime::parse_from_rfc3339(text)
        .map(|t| Expiry { secs: t.timestamp(), nanos: t.timestamp_subsec_nanos() })
        .map_err(|e| e.to_string())
}

/// The value of the first pair of `map` whose key is `key`.
pub open spec fn lookup(map: Seq<(Seq<char>, Seq<char>)>, key: Seq<char>) -> Option<Seq<char>>
    decreases map.len(),
{
    if map.len() == 0 {
        None
    } else if map[0].0 == key {
        Some(map[0].1)
    } else {
        lookup(map.drop_first(), key)
    }
}

/// See [`lookup`].
pub fn find<'a>(map: &'a Vec<(String, String)>, key: &str) -> (r: Option<&'a String>)
    ensures
        lookup(pairs_view(map@), key@) == (match r {
            Some(value) => Some(value@),
            None => None,
        }),
{
    let ghost all = pairs_view(map@);
    let mut i: usize = 0;
    assert(all.skip(0) =~= all);
    while i < map.len()
        invariant
            i <= map.len(),
            all == pairs_view(map@),
            lookup(all, key@) == lookup(all.skip(i as int), key@),
        decreases map.len() - i,
    {
        assert(all.skip(i as int).drop_first() =~= all.skip(i + 1));
        assert(all.skip(i as int)[0] == all[i as int]);
        if same_text(map[i].0.as_str(), key) {
            return Some(&map[i].1);
        }
        i += 1;
    }
    None
}

/// Whether `r` is what the map gives: credentials from the keys
/// `AccessKeyId`, `SecretAccessKey`, `Token` and `Expiration`, the last two
/// optional, or the first failure among a missing access key, a missing
/// secret key and an expiration that does not parse.
pub open spec fn read_from_map(map: Seq<(Seq<char>, Seq<char>)>, r: Result<Credentials, MapError>) -> bool {
    let access = lookup(map, "AccessKeyId"@);
    let secret = lookup(map, "SecretAccessKey"@);
    let expiration = lookup(map, "Expiration"@);
    match r {
        Ok(c) => {
            &&& access == Some(c@.access_key_id)
            &&& secret == Some(c@.secret_access_key)
            &&& c@.session_token == lookup(map, "Token"@)
            &&& match expiration {
                None => c@.expires_after is None,
                Some(text) => c@.expires_after is Some && rfc3339_instant(text) == Ok::<
                    (i64, u32),
                    Seq<char>,
                >((c@.expires_after->0.secs, c@.expires_after->0.nanos)),
            }
        },
        Err(MapError::NotFound(what)) => if access is None {
            what@ == "AccessKeyId not found"@
        } else {
            secret is None && what@ == "SecretAccessKey not found"@
        },
        Err(MapError::InvalidInput(what)) => {
            &&& access is Some
            &&& secret is Some
            &&& expiration is Some
            &&& rfc3339_instant(expiration->0) is Err
            &&& what@ == "Unable to parse expiration: "@ + rfc3339_instant(expiration->0)->Err_0
        },
    }
}

/// A point in time, as whole seconds since the Unix epoch (negative before
/// it) and the nanoseconds past that second.
#[derive(Clone, Copy, Debug, PartialEq, Eq)]
pub struct Expiry {
    pub secs: i64,
    pub nanos: u32,
}

/// Access keys with an optional session token and an optional expiry.
///
/// Long-term keys carry neither token nor expiry; temporary keys usually
/// carry both, but every combination is accepted.
#[derive(Clone, Debug)]
pub struct Credentials {
    pub access_key_id: String,
    pub secret_access_key: String,
    pub session_token: Option<String>,
    pub expires_after: Option<Expiry>,
}

/// What a `Credentials` value holds, as plain sequences.
pub struct CredentialsView {
    pub access_key_id: Seq<char>,
    pub secret_access_key: Seq<char>,
    pub session_token: Option<Seq<char>>,
    pub expires_after: Option<Expiry>,
}

/// The view of an optional string.
pub open spec fn opt_view(s: Option<String>) -> Option<Seq<char>> {
    match s {
        Some(t) => Some(t@),
        None => None,
    }
}

impl View for Credentials {
    type V = CredentialsView;

    open spec fn view(&self) -> CredentialsView {
        CredentialsView {
            access_key_id: self.access_key_id@,
            secret_access_key: self.secret_access_key@,
            session_token: opt_view(self.session_token),
            expires_after: self.expires_after,
        }
    }
}

impl Credentials {
    /// Reads credentials from the key/value pairs of a credentials document.
    /// A missing `AccessKeyId` or `SecretAccessKey` is an error, never a
    /// default.
    pub fn from_map(map: &Vec<(String, String)>) -> (r: Result<Credentials, MapError>)
        ensures
            read_from_map(pairs_view(map@), r),
    {
        let access_key_id = match find(map, "AccessKeyId") {
            Some(v) => v.clone(),
            None => {
                return Err(MapError::NotFound("AccessKeyId not found".to_owned()));
            },
        };
        let secret_access_key = match find(map, "SecretAccessKey") {
            Some(v) => v.clone(),
            None => {
                return Err(MapError::NotFound("SecretAccessKey not found".to_owned()));
            },
        };
        let session_token = match find(map, "Token") {
            Some(v) => Some(v.clone()),
            None => None,
        };
        let expires_after = match find(map, "Expiration") {
            Some(text) => match parse_rfc3339(text.as_str()) {
                Ok(at) => Some(at),
                Err(why) => {
                    return Err(
                        MapError::InvalidInput(
                            concat2("Unable to parse expiration: ", why.as_str()),
                        ),
                    );
                },
            },
            None => None,
        };
        Ok(Credentials { access_key_id, secret_access_key, session_token, expires_after })
    }

    /// Builds credentials from their parts.
    pub fn new(
        access_key_id: &str,
        secret_access_key: &str,
        session_token: Option<String>,
        expires_after: Option<Expiry>,
    ) -> (r: Credentials)
        ensures
            r@.access_key_id == access_key_id@,
            r@.secret_access_key == secret_access_key@,
            r@.session_token == opt_view(session_token),
            r@.expires_after == expires_after,
    {
        Credentials {
            access_key_id: access_key_id.to_owned(),
            secret_access_key: secret_access_key.to_owned(),
            session_token,
            expires_after,
        }
    }
}

} // verus!

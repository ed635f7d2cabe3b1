//! A small client for a handful of AWS REST APIs: requests are signed with
//! Signature Version 4 and sent with a bounded, linear-backoff retry loop.
//!
//! The library holds the request model, the signing step, the retry loop and
//! the per-service request builders and error mapping. Sockets, the sleep
//! between attempts and the body codecs are supplied by the caller, as
//! closures.
//!
//! - `credentials`: access keys, and reading them from a credentials map.
//! - `request`: requests, signing, the retry policy and the retry loop.
//! - `imds`: the instance metadata service as a source of credentials.
//! - `ec2`, `s3`, `ssm`, `secretsmanager`: one client for each service.
//! - `text`: string helpers.

pub mod text;
pub mod credentials;
pub mod request;
pub mod imds;
pub mod ec2;
pub mod s3;
pub mod ssm;
pub mod secretsmanager;

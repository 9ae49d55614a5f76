//! The client's error taxonomy: flat, nothing caught or retried, every
//! failure surfaces to the caller.
use serde_json::Error as SerdeJsonError;
use vstd::prelude::*;

verus! {

/// One error per failure source.  `ClientError` reports a misuse of the
/// client itself (an OAuth2 call without OAuth2 configured); `ReqwestError`
/// and `Oauth2ExecuteError` carry the rendered message of a transport or
/// token-exchange failure, which arises outside this crate; `UrlError` and
/// `JsonError` carry the parse error of the `url` and `serde_json` crates.
#[derive(Debug)]
pub enum Error {
    ClientError(String),
    ReqwestError(String),
    UrlError(url::ParseError),
    JsonError(SerdeJsonError),
    Oauth2ExecuteError(String),
}

} // verus!

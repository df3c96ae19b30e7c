//! Core of a client for a crypto exchange's spot and futures REST APIs:
//! request signing (HMAC-SHA256 query signing for spot, HMAC-SHA256 header
//! signing for futures, and a two-stage MD5 scheme for the futures web
//! session endpoint), response-envelope resolution, and defensive decoding
//! of the exchange's string-or-number JSON fields into typed records.
//!
//! The HTTP transport itself is outside this crate: callers hand in response
//! status codes and bodies and send the signed requests built here.
use vstd::prelude::*;

pub mod account;
pub mod crypto;
pub mod futures;
pub mod json;
pub mod market;
pub mod numeric;
pub mod orders;
pub mod utils;

verus! {

/// A required credential was not configured for the requested operation.
#[derive(Debug, Clone, Copy, PartialEq, Eq, Structural)]
pub enum AuthError {
    MissingKey,
    MissingSecret,
    MissingSessionToken,
}

impl AuthError {
    /// The human-readable message the error carries.
    pub fn message(&self) -> (r: &'static str)
        ensures
            r@ == self.spec_message(),
    {
        match self {
            AuthError::MissingKey => "Missing api key",
            AuthError::MissingSecret => "Missing secret key",
            AuthError::MissingSessionToken => "Missing web user token",
        }
    }

    pub open spec fn spec_message(self) -> Seq<char> {
        match self {
            AuthError::MissingKey => "Missing api key"@,
            AuthError::MissingSecret => "Missing secret key"@,
            AuthError::MissingSessionToken => "Missing web user token"@,
        }
    }
}

/// A JSON payload did not have the shape a decoder expected.
#[derive(Debug, Clone, Copy, PartialEq, Eq, Structural)]
pub enum DecodeError {
    /// A numeric field held a string that is not a decimal number,
    /// or an integer field held something that is not one.
    InvalidNumber,
    /// A field held a JSON value of the wrong type.
    InvalidType,
    /// A required field is absent.
    MissingField,
    /// The response body is not well-formed JSON.
    InvalidJson,
}

/// The exchange reported a failure, or a success envelope was malformed.
#[derive(Debug, Clone, PartialEq, Eq)]
pub enum ApiError {
    /// The exchange rejected the call; carries the reported message verbatim.
    Rejected(String),
    /// A success envelope arrived without its payload.
    MissingPayload,
}

/// Credentials for the spot API. The HTTP client that executes the signed
/// requests lives outside this crate.
pub struct Mexc {
    pub api_key: Option<String>,
    pub api_secret: Option<String>,
}

impl Mexc {
    pub fn new(api_key: Option<String>, api_secret: Option<String>) -> (r: Mexc)
        ensures
            r.api_key == api_key,
            r.api_secret == api_secret,
    {
        Mexc { api_key, api_secret }
    }
}

/// The spot API's server-time response.
#[derive(Debug, Clone)]
pub struct ServerTime {
    pub timestamp: u128,
}

pub open spec fn server_time_matches(v: json::JsonValue, t: ServerTime) -> bool {
    json::spec_u128_field(v, "serverTime"@) == Ok::<u128, DecodeError>(t.timestamp)
}

pub open spec fn server_time_err(v: json::JsonValue) -> Option<DecodeError> {
    let ts = json::spec_u128_field(v, "serverTime"@);
    if ts is Err {
        Some(ts->Err_0)
    } else {
        None
    }
}

/// Decodes the server-time response.
pub fn decode_server_time(v: &json::JsonValue) -> (r: Result<ServerTime, DecodeError>)
    ensures
        match r {
            Ok(t) => server_time_matches(*v, t) && server_time_err(*v) is None,
            Err(e) => server_time_err(*v) == Some(e),
        },
{
    let timestamp = json::get_u128_field(v, "serverTime")?;
    Ok(ServerTime { timestamp })
}

/// Resolves a spot response: for spot, the HTTP status is authoritative.
/// A 200 hands the body on as the payload to decode; anything else is
/// the exchange's rejection, carrying the body text verbatim.
pub fn resolve_spot(status: u16, body: String) -> (r: Result<String, ApiError>)
    ensures
        status == 200 ==> r == Ok::<String, ApiError>(body),
        status != 200 ==> r == Err::<String, ApiError>(ApiError::Rejected(body)),
{
    if status == 200 {
        Ok(body)
    } else {
        Err(ApiError::Rejected(body))
    }
}

} // verus!

//! Error taxonomy of the two clients.
//!
//! Transport-level failures (connection refused, timeout, DNS) happen outside
//! the library and are carried in as a plain message; every other variant is
//! produced by verified code with an exact contract saying when.

use vstd::prelude::*;

verus! {

/// Everything that can go wrong talking to the device service.
#[derive(Debug, PartialEq, Eq)]
pub enum GrainfatherError {
    /// A network-level failure, or a response body that could not be decoded
    /// where a decode failure is not reported more precisely.
    Transport { message: String },
    /// The login page answered without any cookie.
    NoSetCookieHeader,
    /// The login page answered with a cookie that cannot be carried in a
    /// request header.
    InvalidSetCookieHeader,
    /// A response had a status other than 200 where 200 was required.
    UnexpectedStatusCode { status_code: u16, payload: String },
    /// A response body did not have the expected JSON shape.
    ResponseParsing { payload: String },
    /// A returned timestamp is out of the representable range.
    ResponseTimestamp { unix_seconds: i64 },
    /// The anti-forgery token could not be scraped from the login page.
    UnableToFindCSRFToken,
    /// The login response carried no recognizable authentication cookie.
    UnableToFindAuthCookie,
}

/// Everything that can go wrong submitting a reading to the log sink.
#[derive(Debug, PartialEq, Eq)]
pub enum BrewfatherError {
    /// A network-level failure, or an acknowledgement body that could not be
    /// decoded.
    Transport { message: String },
    /// A response had a status other than 200.
    UnexpectedStatusCode { status_code: u16, payload: String },
    /// The sink acknowledged with a `result` marker other than `OK` or
    /// `success`.
    UnexpectedResult { result: String },
    /// The sink acknowledged without a `result` marker.
    NoResult,
}

} // verus!

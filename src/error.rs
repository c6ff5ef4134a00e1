//! The errors of an API call.

use vstd::prelude::*;

use crate::json::DecodeError;

verus! {

/// What went wrong in an API call; `E` is the transport's own error.
#[derive(Debug)]
pub enum Error<E> {
    /// The request URL could not be formed from the base URL and the path.
    UrlParse(url::ParseError),
    /// The transport failed; its error is passed on as it came.
    HttpRequest(E),
    /// The response body is not JSON; the JSON parser's message.
    Json(String),
    /// The response body is JSON, but not of the expected shape.
    Decode(DecodeError),
    /// The server answered with a client or server error status, and this body.
    Api(u16, Vec<u8>),
}

/// Whether an HTTP status is a client error (4xx) or a server error (5xx).
pub open spec fn is_error_status(status: u16) -> bool {
    400 <= status <= 599
}

/// Passes a response body on when its status is not an error; otherwise gives the
/// API error with the status and the body as they came, before any decoding.
pub fn error_for_status<E>(status: u16, body: Vec<u8>) -> (r: Result<Vec<u8>, Error<E>>)
    ensures
        !is_error_status(status) ==> r is Ok && r->Ok_0@ == body@,
        is_error_status(status) ==> r is Err && r->Err_0 is Api && r->Err_0->Api_0 == status
            && r->Err_0->Api_1@ == body@,
{
    if status >= 400 && status <= 599 {
        Err(Error::Api(status, body))
    } else {
        Ok(body)
    }
}

} // verus!

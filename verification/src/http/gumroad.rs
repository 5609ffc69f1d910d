//! Verification of Gumroad licenses

use vstd::prelude::*;

verus! {

/// The URL to ask whether a license is valid. By default, the API would count that as a use of the license, so we
/// opt out of that.
pub fn verify_url(product_id: &str, license_key: &str) -> (r: String)
    ensures
        r@ == "https://api.gumroad.com/v2/licenses/verify?product_id="@ + product_id@ + "&license_key="@ + license_key@
            + "&increment_uses_count=false"@,
{
    "https://api.gumroad.com/v2/licenses/verify?product_id=".to_owned().concat(product_id).concat(
        "&license_key=",
    ).concat(license_key).concat("&increment_uses_count=false")
}

/// What the status of a response says of a license
#[derive(Debug, Copy, Clone, PartialEq, Eq, Structural)]
pub enum VerificationStatus {
    /// The body says whether the license is valid
    ReadBody,
    /// There is no such license
    NotValid,
    /// Something went wrong
    Error,
}

/// What the status of a response says of a license
pub fn verification_status(status_code: u16) -> (r: VerificationStatus)
    ensures
        r is ReadBody <==> 200 <= status_code < 300,
        r is NotValid <==> status_code == 404,
{
    if 200 <= status_code && status_code < 300 {
        VerificationStatus::ReadBody
    } else if status_code == 404 {
        VerificationStatus::NotValid
    } else {
        VerificationStatus::Error
    }
}

pub type GumroadResult<T> = Result<T, GumroadError>;

/// What can go wrong with the verification of a license
#[derive(Debug)]
pub enum GumroadError {
    /// Any error for which we got an HTTP response from Gumroad. Happens when we detect non-200 status codes.
    HttpResponse(HttpResponse),
    /// Any error for which we did not get an HTTP response, with what went wrong.
    HttpRequest(String),
    /// An error occurred reading response body, with what went wrong.
    HttpRead(String),
    /// We received a successful response from Gumroad which we could not deserialize, with what went wrong
    JsonDeserialize(String),
}

#[derive(Debug)]
pub struct HttpResponse {
    pub status_code: u16,
    pub headers: String,
    pub body: HttpBody,
}

#[derive(Debug)]
pub enum HttpBody {
    /// We received an error response from Gumroad
    UnknownErrorResponse(Vec<u8>),
    /// An error occurred reading the response body.
    ReadError(String),
}

impl GumroadError {
    /// Create a GumroadError from a response, with its body or what went wrong reading it
    pub fn from_response(status_code: u16, headers: String, body: Result<Vec<u8>, String>) -> (r: GumroadError)
        ensures
            r == GumroadError::HttpResponse(
                HttpResponse {
                    status_code,
                    headers,
                    body: match body {
                        Ok(bytes) => HttpBody::UnknownErrorResponse(bytes),
                        Err(error) => HttpBody::ReadError(error),
                    },
                },
            ),
    {
        let body = match body {
            Ok(bytes) => HttpBody::UnknownErrorResponse(bytes),
            Err(error) => HttpBody::ReadError(error),
        };
        GumroadError::HttpResponse(HttpResponse { status_code, headers, body })
    }

    /// Create a GumroadError from what went wrong with a request
    pub fn from_request(error: String) -> (r: GumroadError)
        ensures
            r == GumroadError::HttpRequest(error),
    {
        GumroadError::HttpRequest(error)
    }

    /// Create a GumroadError from what went wrong reading the body of a response
    pub fn from_read(error: String) -> (r: GumroadError)
        ensures
            r == GumroadError::HttpRead(error),
    {
        GumroadError::HttpRead(error)
    }

    /// Create a GumroadError from what is wrong with some JSON
    pub fn from_json(error: String) -> (r: GumroadError)
        ensures
            r == GumroadError::JsonDeserialize(error),
    {
        GumroadError::JsonDeserialize(error)
    }
}

} // verus!

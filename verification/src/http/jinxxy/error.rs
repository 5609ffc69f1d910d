//! Errors of the Jinxxy API

use crate::text::{decimal, str_equals, u64_to_string};
use vstd::prelude::*;

verus! {

pub type JinxxyResult<T> = Result<T, JinxxyError>;

#[derive(Debug)]
pub enum JinxxyError {
    /// Any error for which we got an HTTP response from Jinxxy. Happens when we detect non-200 status codes.
    HttpResponse(HttpResponse),
    /// Any error for which we did not get an HTTP response, with what went wrong.
    HttpRequest { endpoint: String, error: String },
    /// An error occurred reading response body, with what went wrong.
    HttpRead { endpoint: String, error: String },
    /// We received a successful response from Jinxxy which we could not deserialize, with what went wrong
    JsonDeserialize(String),
    /// Some parallel task join failed, with what went wrong.
    Join(String),
    /// Impossible 304 response: we got a 304 without Etag set
    Impossible304,
    /// A list was as long as a page may be, so there may be more of it. Holds a nonce to find the log entry by.
    UnsupportedPagination(u64),
}

#[derive(Debug)]
pub struct HttpResponse {
    pub endpoint: String,
    pub status_code: u16,
    pub headers: String,
    pub body: HttpBody,
}

#[derive(Debug)]
pub enum HttpBody {
    /// We received an error response from Jinxxy which was successfully deserialized
    JsonErrorResponse(JinxxyErrorResponse),
    /// We received an error response from Jinxxy which we could not deserialize
    UnknownErrorResponse(Vec<u8>),
    /// An error occurred reading the response body.
    ReadError(String),
}

/// What an error is called in a message to a user.
pub open spec fn jinxxy_error_text(error: JinxxyError) -> Seq<char> {
    match error {
        JinxxyError::HttpResponse(_) => "Jinxxy API error"@,
        JinxxyError::HttpRequest { .. } => "HTTP general failure"@,
        JinxxyError::HttpRead { .. } => "HTTP body read failed"@,
        JinxxyError::JsonDeserialize(_) => "JSON deserialization failed"@,
        JinxxyError::Join(e) => "parallel task join failed: "@ + e@,
        JinxxyError::Impossible304 => "got 304 response from Jinxxy API without having set If-None-Match header"@,
        JinxxyError::UnsupportedPagination(nonce) => "unsupported pagination: "@ + decimal(nonce as nat),
    }
}

/// What is kept of the body of a response, given what Jinxxy explained with it if that could be read.
pub open spec fn error_body(body: Result<Vec<u8>, String>, explanation: Option<JinxxyErrorResponse>) -> HttpBody {
    match body {
        Ok(bytes) => match explanation {
            Some(explanation) => HttpBody::JsonErrorResponse(explanation),
            None => HttpBody::UnknownErrorResponse(bytes),
        },
        Err(error) => HttpBody::ReadError(error),
    }
}

impl JinxxyError {
    /// Create a JinxxyError from a response, with its body or what went wrong reading it, and with what the body
    /// explains if it is an explanation
    pub fn from_response(
        endpoint: &str,
        status_code: u16,
        headers: String,
        body: Result<Vec<u8>, String>,
        explanation: Option<JinxxyErrorResponse>,
    ) -> (r: JinxxyError)
        ensures
            r matches JinxxyError::HttpResponse(response) && response.endpoint@ == endpoint@ && response.status_code
                == status_code && response.headers == headers && response.body == error_body(body, explanation),
    {
        let body = match body {
            Ok(bytes) => match explanation {
                Some(explanation) => HttpBody::JsonErrorResponse(explanation),
                None => HttpBody::UnknownErrorResponse(bytes),
            },
            Err(error) => HttpBody::ReadError(error),
        };
        JinxxyError::HttpResponse(HttpResponse { endpoint: endpoint.to_owned(), status_code, headers, body })
    }

    /// Create a JinxxyError from what went wrong with a request
    pub fn from_request(endpoint: &str, error: String) -> (r: JinxxyError)
        ensures
            r matches JinxxyError::HttpRequest { endpoint: e, error: what } && e@ == endpoint@ && what == error,
    {
        JinxxyError::HttpRequest { endpoint: endpoint.to_owned(), error }
    }

    /// Create a JinxxyError from what went wrong reading the body of a response
    pub fn from_read(endpoint: &str, error: String) -> (r: JinxxyError)
        ensures
            r matches JinxxyError::HttpRead { endpoint: e, error: what } && e@ == endpoint@ && what == error,
    {
        JinxxyError::HttpRead { endpoint: endpoint.to_owned(), error }
    }

    /// Create a JinxxyError from what is wrong with some JSON
    pub fn from_json(error: String) -> (r: JinxxyError)
        ensures
            r == JinxxyError::JsonDeserialize(error),
    {
        JinxxyError::JsonDeserialize(error)
    }

    /// Create a JinxxyError from what went wrong with a parallel task
    pub fn from_join(error: String) -> (r: JinxxyError)
        ensures
            r == JinxxyError::Join(error),
    {
        JinxxyError::Join(error)
    }

    /// Check if this error was caused by an invalid API key: Jinxxy answers with a 401 or a 403 then.
    pub fn is_api_key_invalid(&self) -> (r: bool)
        ensures
            r <==> (*self matches JinxxyError::HttpResponse(response) && (response.status_code == 401
                || response.status_code == 403)),
    {
        match self {
            JinxxyError::HttpResponse(response) => response.status_code == 401 || response.status_code == 403,
            _ => false,
        }
    }

    /// The text of this error. It is safe to show to a user.
    pub fn describe(&self) -> (r: String)
        ensures
            r@ == jinxxy_error_text(*self),
    {
        match self {
            JinxxyError::HttpResponse(_) => "Jinxxy API error".to_owned(),
            JinxxyError::HttpRequest { .. } => "HTTP general failure".to_owned(),
            JinxxyError::HttpRead { .. } => "HTTP body read failed".to_owned(),
            JinxxyError::JsonDeserialize(_) => "JSON deserialization failed".to_owned(),
            JinxxyError::Join(e) => "parallel task join failed: ".to_owned().concat(e.as_str()),
            JinxxyError::Impossible304 =>
                "got 304 response from Jinxxy API without having set If-None-Match header".to_owned(),
            JinxxyError::UnsupportedPagination(nonce) =>
                "unsupported pagination: ".to_owned().concat(u64_to_string(*nonce).as_str()),
        }
    }

    /// The response that Jinxxy explained an error with, if it did.
    pub open spec fn error_response(self) -> Option<JinxxyErrorResponse> {
        match self {
            JinxxyError::HttpResponse(HttpResponse { body: HttpBody::JsonErrorResponse(response), .. }) => Some(
                response,
            ),
            _ => None,
        }
    }

    /// Check if an error looks like a 403.
    pub fn looks_like_403(&self) -> (r: bool)
        ensures
            r <==> (self.error_response() matches Some(response) && response.is_403()),
    {
        match self {
            JinxxyError::HttpResponse(response) => match &response.body {
                HttpBody::JsonErrorResponse(response) => response.looks_like_403(),
                _ => false,
            },
            _ => false,
        }
    }

    /// Check if an error looks like a 404.
    pub fn looks_like_404(&self) -> (r: bool)
        ensures
            r <==> (self.error_response() matches Some(response) && response.is_404()),
    {
        match self {
            JinxxyError::HttpResponse(response) => match &response.body {
                HttpBody::JsonErrorResponse(response) => response.looks_like_404(),
                _ => false,
            },
            _ => false,
        }
    }
}

/// Undocumented part of the Jinxxy API. JSON looks like this:
/// ```json
/// {
///   "status_code": 500,
///   "error": "Bad Request",
///   "message": "You are not authorized.",
///   "code": "GRAPHQL_ERROR"
/// }
/// ```
///
/// However, in some cases it also looks like this:
/// ```json
/// {
///   "status_code": 400,
///   "error": "Bad Request",
///   "message": [
///     {
///       "message": "an unknown value was passed to the validate function",
///       "code": "validation_error"
///     }
///   ],
///   "code": "internal_server_error"
/// }
/// ```
#[derive(Debug)]
pub struct JinxxyErrorResponse {
    pub status_code: u16,
    pub error: String,
    pub message: JinxxyErrorMessage,
    /// Of no use to the bot, but might be helpful for the Jinxxy devs if an error report is forwarded to them.
    pub code: String,
}

impl JinxxyErrorResponse {
    /// A 403, or a bad request with the message that stands in for one.
    pub open spec fn is_403(self) -> bool {
        self.status_code == 403 || (self.error@ == "Bad Request"@ && self.message.says("You are not authorized."@))
    }

    /// A 404, or a bad request with the message that stands in for one.
    pub open spec fn is_404(self) -> bool {
        self.status_code == 404 || (self.error@ == "Bad Request"@ && self.message.says("Resource not found."@))
    }

    /// Check if an error looks like a 403.
    ///
    /// Jinxxy does not always answer with a reasonable status code, so its 500 response JSON has to be looked into.
    pub fn looks_like_403(&self) -> (r: bool)
        ensures
            r == self.is_403(),
    {
        self.status_code == 403 || (str_equals(self.error.as_str(), "Bad Request") && self.message.matches(
            "You are not authorized.",
        ))
    }

    /// Check if an error looks like a 404.
    ///
    /// Jinxxy does not always answer with a reasonable status code, so its 500 response JSON has to be looked into.
    pub fn looks_like_404(&self) -> (r: bool)
        ensures
            r == self.is_404(),
    {
        self.status_code == 404 || (str_equals(self.error.as_str(), "Bad Request") && self.message.matches(
            "Resource not found.",
        ))
    }
}

#[derive(Debug)]
pub enum JinxxyErrorMessage {
    SingleMessage(String),
    MultiMessage(Vec<JinxxyErrorMultiMessagePart>),
}

impl JinxxyErrorMessage {
    /// Whether this is the given message, or has it as one of its parts.
    pub open spec fn says(self, message: Seq<char>) -> bool {
        match self {
            JinxxyErrorMessage::SingleMessage(single) => single@ == message,
            JinxxyErrorMessage::MultiMessage(parts) => some_part_says(parts@, message),
        }
    }

    /// Whether this is the given message, or has it as one of its parts.
    pub fn matches(&self, string: &str) -> (r: bool)
        ensures
            r == self.says(string@),
    {
        match self {
            // For single messages, do an exact string match.
            JinxxyErrorMessage::SingleMessage(message) => str_equals(message.as_str(), string),
            // For multi-messages, match each message.
            JinxxyErrorMessage::MultiMessage(messages) => any_part_says(messages.as_slice(), string),
        }
    }
}

/// Whether one of the parts of a message is the given one.
pub open spec fn some_part_says(parts: Seq<JinxxyErrorMultiMessagePart>, message: Seq<char>) -> bool {
    exists|i: int| 0 <= i < parts.len() && #[trigger] parts[i].message@ == message
}

fn any_part_says(parts: &[JinxxyErrorMultiMessagePart], string: &str) -> (r: bool)
    ensures
        r == some_part_says(parts@, string@),
{
    for i in 0..parts.len()
        invariant
            forall|j: int| 0 <= j < i ==> #[trigger] parts@[j].message@ != string@,
    {
        if str_equals(parts[i].message.as_str(), string) {
            return true;
        }
    }
    false
}

#[derive(Debug)]
pub struct JinxxyErrorMultiMessagePart {
    pub message: String,
    pub code: String,
}

} // verus!

//! What can go wrong

use crate::http::jinxxy::{jinxxy_error_text, JinxxyError};
use vstd::prelude::*;

verus! {

/// High level error type that can contain anything that goes wrong with Jinx.
#[derive(Debug)]
pub enum JinxError {
    /// A message that is safe to display to a user
    Message(String),
    /// A message that is safe to display to a user, and one that may contain sensitive information
    Sensitive { public: String, private: String },
    Jinxxy(JinxxyError),
    /// What the database says is wrong
    Sqlite(String),
    /// What Discord says is wrong
    Serenity(String),
}

/// The full text of an error.
pub open spec fn error_text(error: JinxError) -> Seq<char> {
    match error {
        JinxError::Message(message) => message@,
        JinxError::Sensitive { public, private } => public@ + ": "@ + private@,
        JinxError::Jinxxy(e) => jinxxy_error_text(e),
        JinxError::Sqlite(e) => "DB error: "@ + e@,
        JinxError::Serenity(e) => "Discord API error: "@ + e@,
    }
}

/// What a user may see of an error.
pub open spec fn redacted_text(error: JinxError) -> Seq<char> {
    match error {
        JinxError::Message(message) => message@,
        JinxError::Sensitive { public, .. } => public@,
        JinxError::Jinxxy(e) => jinxxy_error_text(e),
        JinxError::Sqlite(_) => "DB error"@,
        JinxError::Serenity(_) => "Discord API error"@,
    }
}

impl JinxError {
    /// `message` is a message that is safe to display to a user
    pub fn new(message: &str) -> (r: JinxError)
        ensures
            r matches JinxError::Message(m) && m@ == message@,
    {
        JinxError::Message(message.to_owned())
    }

    /// `public` is a message that is safe to display to a user.
    /// `private` is a message that may contain sensitive information.
    pub fn sensitive(public: &str, private: &str) -> (r: JinxError)
        ensures
            r matches JinxError::Sensitive { public: p, private: q } && p@ == public@ && q@ == private@,
    {
        JinxError::Sensitive { public: public.to_owned(), private: private.to_owned() }
    }

    /// Check if this error was caused by an invalid Jinxxy API key
    pub fn is_api_key_invalid(&self) -> (r: bool)
        ensures
            r <==> (*self matches JinxError::Jinxxy(JinxxyError::HttpResponse(response)) && (response.status_code == 401
                || response.status_code == 403)),
    {
        match self {
            JinxError::Jinxxy(e) => e.is_api_key_invalid(),
            _ => false,
        }
    }

    /// The full text of this error
    pub fn describe(&self) -> (r: String)
        ensures
            r@ == error_text(*self),
    {
        match self {
            JinxError::Message(message) => message.clone(),
            JinxError::Sensitive { public, private } => public.clone().concat(": ").concat(private.as_str()),
            JinxError::Jinxxy(e) => e.describe(),
            JinxError::Sqlite(e) => "DB error: ".to_owned().concat(e.as_str()),
            JinxError::Serenity(e) => "Discord API error: ".to_owned().concat(e.as_str()),
        }
    }

    /// What a user may see of this error
    pub fn safe_display(&self) -> (r: String)
        ensures
            r@ == redacted_text(*self),
    {
        match self {
            JinxError::Message(message) => message.clone(),
            JinxError::Sensitive { public, .. } => public.clone(),
            JinxError::Jinxxy(e) => e.describe(),
            JinxError::Sqlite(_) => "DB error".to_owned(),
            JinxError::Serenity(_) => "Discord API error".to_owned(),
        }
    }
}

/// What a user may see of an error gives nothing away of its private part, nor of what the database or Discord said.
pub proof fn private_text_stays_private(public: String, private_a: String, private_b: String)
    ensures
        redacted_text(JinxError::Sensitive { public, private: private_a }) == redacted_text(
            JinxError::Sensitive { public, private: private_b },
        ),
        redacted_text(JinxError::Sqlite(private_a)) == redacted_text(JinxError::Sqlite(private_b)),
        redacted_text(JinxError::Serenity(private_a)) == redacted_text(JinxError::Serenity(private_b)),
{
}

} // verus!

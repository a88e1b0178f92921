//! The envelope in which the service reports that it refused a request.

use crate::errors::ApiError;
use crate::fields::{
    expected_object, failed_with, not_an_object, read_text_field, text_field,
};
use crate::json::{json_model, Json};
use serde_json::Value;
use vstd::prelude::*;

verus! {

/// The body of a reply that reports a failure: `{"error": "<message>"}`.
#[derive(Debug, PartialEq, Eq)]
pub struct SarufiApiError {
    error: String,
}

impl View for SarufiApiError {
    type V = Seq<char>;

    closed spec fn view(&self) -> Seq<char> {
        self.error@
    }
}

/// The message that a document carries as a failure envelope, or the
/// message that reports why it is no envelope.
pub open spec fn error_of(document: Json) -> Result<Seq<char>, Seq<char>> {
    match document {
        Json::Object(members) => text_field(members, "error"@),
        _ => Err(expected_object()),
    }
}

impl SarufiApiError {
    /// The message that the service gave.
    pub fn message(&self) -> (message: String)
        ensures
            message@ == self@,
    {
        self.error.clone()
    }

    /// Reads the envelope from a document.
    pub fn from_json(document: &Value) -> (outcome: Result<SarufiApiError, ApiError>)
        ensures
            match error_of(json_model(*document)) {
                Ok(message) => outcome matches Ok(envelope) && envelope@ == message,
                Err(message) => failed_with(outcome, message),
            },
    {
        match document.as_object() {
            Some(members) => Ok(SarufiApiError { error: read_text_field(members, "error")? }),
            None => Err(not_an_object()),
        }
    }
}

} // verus!

//! Requests and replies as plain values, for a caller that moves them over
//! the network.

use crate::json::{json_model, Json};
use serde_json::Value;
use vstd::prelude::*;

verus! {

/// The HTTP methods that the service is called with.
#[derive(Debug, Clone, Copy, PartialEq, Eq)]
pub enum Method {
    Get,
    Post,
    Put,
    Delete,
}

/// One request to the service, complete but for its transmission.
#[derive(Debug, PartialEq)]
pub struct Request {
    pub method: Method,
    /// The full address of the endpoint.
    pub url: String,
    /// The header fields to send, each as a name and a value.
    pub headers: Vec<(String, String)>,
    /// The document to send as the body, if the request has one.
    pub body: Option<Value>,
}

/// What a [`Request`] holds.
pub struct RequestView {
    pub method: Method,
    pub url: Seq<char>,
    pub headers: Seq<(Seq<char>, Seq<char>)>,
    pub body: Option<Json>,
}

/// The views of a list of header fields.
pub open spec fn header_views(headers: Seq<(String, String)>) -> Seq<(Seq<char>, Seq<char>)> {
    headers.map_values(|field: (String, String)| (field.0@, field.1@))
}

impl View for Request {
    type V = RequestView;

    open spec fn view(&self) -> RequestView {
        RequestView {
            method: self.method,
            url: self.url@,
            headers: header_views(self.headers@),
            body: match self.body {
                Some(document) => Some(json_model(document)),
                None => None,
            },
        }
    }
}

/// What came back for a request: the status code and the body as text.
#[derive(Debug, PartialEq, Eq)]
pub struct Response {
    pub status: u16,
    pub body: String,
}

/// Whether a status code reports success: the codes from 200 to 299.
pub open spec fn is_success_status(status: u16) -> bool {
    200 <= status < 300
}

impl Response {
    /// Whether the service reports that the request succeeded.
    pub fn is_success(&self) -> (success: bool)
        ensures
            success == is_success_status(self.status),
    {
        200 <= self.status && self.status < 300
    }
}

} // verus!

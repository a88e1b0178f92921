//! The one error type that every failure of the client is reported in.

use vstd::prelude::*;

verus! {

/// A failure of the transport layer, carried through unread.
#[verifier::external_type_specification]
#[verifier::external_body]
pub struct ExTransportError(reqwest::Error);

/// A failure of the JSON parser, carried through unread.
#[verifier::external_type_specification]
#[verifier::external_body]
pub struct ExJsonError(serde_json::Error);

/// A failure of local file input, carried through unread.
#[verifier::external_type_specification]
#[verifier::external_body]
pub struct ExIoError(std::io::Error);

/// A failure of a directory walk, carried through unread.
#[verifier::external_type_specification]
#[verifier::external_body]
pub struct ExWalkError(walkdir::Error);

/// All failures this client reports.
#[derive(Debug, PartialEq, Eq)]
pub enum ApiError {
    /// The credential handed to the client was empty.
    InvalidApiKey(),
    /// Any other failure, with a message fit for a human reader.
    GenericError(String),
}

/// What an [`ApiError`] says, with its message as a sequence of characters.
pub enum ApiErrorView {
    InvalidApiKey,
    GenericError(Seq<char>),
}

impl View for ApiError {
    type V = ApiErrorView;

    open spec fn view(&self) -> ApiErrorView {
        match self {
            ApiError::InvalidApiKey() => ApiErrorView::InvalidApiKey,
            ApiError::GenericError(message) => ApiErrorView::GenericError(message@),
        }
    }
}

impl Clone for ApiError {
    fn clone(&self) -> (copy: Self)
        ensures
            copy@ == self@,
    {
        match self {
            ApiError::InvalidApiKey() => ApiError::InvalidApiKey(),
            ApiError::GenericError(message) => ApiError::GenericError(message.clone()),
        }
    }
}

impl ApiError {
    /// The text shown for this error.
    pub open spec fn shown_text(self) -> Seq<char> {
        match self {
            ApiError::InvalidApiKey() => "Invalid api_key"@,
            ApiError::GenericError(message) => "Error: "@ + message@,
        }
    }

    /// Renders the error the way it is shown to a user.
    pub fn to_text(&self) -> (text: String)
        ensures
            text@ == self.shown_text(),
    {
        match self {
            ApiError::InvalidApiKey() => "Invalid api_key".to_owned(),
            ApiError::GenericError(message) => {
                let prefix = "Error: ".to_owned();
                prefix.concat(message.as_str())
            },
        }
    }
}

/// A failure of the transport becomes a generic error that carries the text
/// the transport shows for it.
impl From<reqwest::Error> for ApiError {
    fn from(req_err: reqwest::Error) -> (error: ApiError)
        ensures
            error matches ApiError::GenericError(message)
                && vstd::string::to_string_from_display_ensures::<reqwest::Error>(&req_err, message),
    {
        ApiError::GenericError(req_err.to_string())
    }
}

/// The message of the error is the text that the outside failure shows for
/// itself, which is no function that this crate can write down.
impl vstd::std_specs::convert::FromSpecImpl<reqwest::Error> for ApiError {
    open spec fn obeys_from_spec() -> bool {
        false
    }

    open spec fn from_spec(req_err: reqwest::Error) -> ApiError {
        arbitrary()
    }
}

/// A failure to read a file becomes a generic error that carries the text the
/// system shows for it.
impl From<std::io::Error> for ApiError {
    fn from(io_err: std::io::Error) -> (error: ApiError)
        ensures
            error matches ApiError::GenericError(message)
                && vstd::string::to_string_from_display_ensures::<std::io::Error>(&io_err, message),
    {
        ApiError::GenericError(io_err.to_string())
    }
}

/// The message of the error is the text that the outside failure shows for
/// itself, which is no function that this crate can write down.
impl vstd::std_specs::convert::FromSpecImpl<std::io::Error> for ApiError {
    open spec fn obeys_from_spec() -> bool {
        false
    }

    open spec fn from_spec(io_err: std::io::Error) -> ApiError {
        arbitrary()
    }
}

/// A failure of a directory walk becomes a generic error that carries the
/// text the walker shows for it.
impl From<walkdir::Error> for ApiError {
    fn from(walk_err: walkdir::Error) -> (error: ApiError)
        ensures
            error matches ApiError::GenericError(message)
                && vstd::string::to_string_from_display_ensures::<walkdir::Error>(&walk_err, message),
    {
        ApiError::GenericError(walk_err.to_string())
    }
}

/// The message of the error is the text that the outside failure shows for
/// itself, which is no function that this crate can write down.
impl vstd::std_specs::convert::FromSpecImpl<walkdir::Error> for ApiError {
    open spec fn obeys_from_spec() -> bool {
        false
    }

    open spec fn from_spec(walk_err: walkdir::Error) -> ApiError {
        arbitrary()
    }
}

/// A failure of the JSON parser becomes a generic error that carries the
/// parser's own message.
impl From<serde_json::Error> for ApiError {
    fn from(json_err: serde_json::Error) -> (error: ApiError)
        ensures
            error matches ApiError::GenericError(message)
                && vstd::string::to_string_from_display_ensures::<serde_json::Error>(&json_err, message),
    {
        ApiError::GenericError(json_err.to_string())
    }
}

/// The message of the error is the text that the outside failure shows for
/// itself, which is no function that this crate can write down.
impl vstd::std_specs::convert::FromSpecImpl<serde_json::Error> for ApiError {
    open spec fn obeys_from_spec() -> bool {
        false
    }

    open spec fn from_spec(json_err: serde_json::Error) -> ApiError {
        arbitrary()
    }
}

} // verus!

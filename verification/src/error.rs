use vstd::prelude::*;
use vstd::string::StringExecFns;

verus! {

/// A failure reported by the transport or by payload handling.
///
/// The payload of each variant is the human-readable detail text; outside
/// error values are carried as their rendered message.
pub enum APIRequestError {
    RequestFailed(String),
    InvalidJson(String),
    HttpError(String),
    SerializationError(String),
}

impl APIRequestError {
    /// Renders the error as one line, with the same prefixes the error's
    /// display form uses.
    pub fn message(&self) -> (r: String)
        ensures
            match self {
                APIRequestError::RequestFailed(s) => r@ == "API request failed: "@ + s@,
                APIRequestError::InvalidJson(s) => r@ == "Invalid JSON response: "@ + s@,
                APIRequestError::HttpError(s) => r@ == "HTTP error: "@ + s@,
                APIRequestError::SerializationError(s) => r@ == "Serialization error: "@ + s@,
            },
    {
        match self {
            APIRequestError::RequestFailed(s) => String::from_str("API request failed: ").concat(s.as_str()),
            APIRequestError::InvalidJson(s) => String::from_str("Invalid JSON response: ").concat(s.as_str()),
            APIRequestError::HttpError(s) => String::from_str("HTTP error: ").concat(s.as_str()),
            APIRequestError::SerializationError(s) => String::from_str("Serialization error: ").concat(s.as_str()),
        }
    }
}

} // verus!

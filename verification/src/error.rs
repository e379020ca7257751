//! Error classification for a finished request.

use vstd::prelude::*;

verus! {

use vstd::string::StringExecFns;

/// Why a request failed.
///
/// `IOError` says the response body could not be decoded as text.
/// `TransportError` says the native transport layer itself failed
/// (connection refused, TLS failure, ...); it carries the transport
/// library's description of the failure, for diagnostics only. The
/// sandboxed backend never produces it: there the host owns the transport.
#[derive(Debug)]
pub enum HttpError {
    IOError,
    TransportError(String),
}

/// The one terminal result a request yields: the response body as text,
/// or a classified error.
pub type RequestResult = Result<String, HttpError>;

impl HttpError {
    /// A human-readable description of the error, one line.
    pub fn describe(&self) -> (text: String)
        ensures
            match self {
                HttpError::IOError => text@ == "IOError"@,
                HttpError::TransportError(detail) => text@ == "Ureq error: "@ + detail@,
            },
    {
        match self {
            HttpError::IOError => "IOError".to_owned(),
            HttpError::TransportError(detail) => {
                let mut text = "Ureq error: ".to_owned();
                text.append(detail.as_str());
                text
            },
        }
    }
}

} // verus!

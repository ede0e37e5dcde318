use vstd::prelude::*;
use vstd::string::StringExecFns;

verus! {

/// The error taxonomy of the pipeline. Every variant carries its context as
/// a plain string; the HTTP layer maps a variant to a status code through
/// [`AppError::status_code`].
#[derive(Debug, Clone, PartialEq, Eq)]
pub enum AppError {
    /// Signature or token mismatch, or a missing authentication header.
    Unauthorized,
    /// Malformed or incomplete payload; a client error, never retried.
    BadRequest(String),
    /// Missing secret or unparsable per-repository configuration.
    ConfigError(String),
    /// An unexpected internal failure.
    Internal(String),
    /// An I/O failure.
    Io(String),
    /// The event queue rejected a send (the consumer is gone).
    Channel(String),
    /// An HTTP-server-side failure.
    Http(String),
    /// An outbound HTTP client failure.
    HttpClient(String),
    /// A generic request failure.
    RequestError(String),
}

impl AppError {
    /// The HTTP status code a webhook caller sees for this error.
    pub open spec fn spec_status_code(&self) -> u16 {
        match self {
            AppError::Unauthorized => 401,
            AppError::BadRequest(_) => 400,
            AppError::ConfigError(_) => 500,
            AppError::Internal(_) => 500,
            AppError::Io(_) => 500,
            AppError::Channel(_) => 500,
            AppError::Http(_) => 500,
            AppError::HttpClient(_) => 502,
            AppError::RequestError(_) => 400,
        }
    }

    pub fn status_code(&self) -> (code: u16)
        ensures
            code == self.spec_status_code(),
    {
        match self {
            AppError::Unauthorized => 401,
            AppError::BadRequest(_) => 400,
            AppError::ConfigError(_) => 500,
            AppError::Internal(_) => 500,
            AppError::Io(_) => 500,
            AppError::Channel(_) => 500,
            AppError::Http(_) => 500,
            AppError::HttpClient(_) => 502,
            AppError::RequestError(_) => 400,
        }
    }

    /// A human-readable rendering: a fixed phrase for the variant, followed
    /// by the carried context.
    pub open spec fn spec_message(&self) -> Seq<char> {
        match self {
            AppError::Unauthorized => "Authentication failed"@,
            AppError::BadRequest(s) => "Bad request: "@ + s@,
            AppError::ConfigError(s) => "Configuration error: "@ + s@,
            AppError::Internal(s) => "Internal server error: "@ + s@,
            AppError::Io(s) => "I/O error: "@ + s@,
            AppError::Channel(s) => "Channel error: "@ + s@,
            AppError::Http(s) => "HTTP error: "@ + s@,
            AppError::HttpClient(s) => "HTTP client error: "@ + s@,
            AppError::RequestError(s) => "Request error: "@ + s@,
        }
    }

    pub fn message(&self) -> (m: String)
        ensures
            m@ == self.spec_message(),
    {
        match self {
            AppError::Unauthorized => String::from_str("Authentication failed"),
            AppError::BadRequest(s) => {
                let mut m = String::from_str("Bad request: ");
                m.append(s.as_str());
                m
            },
            AppError::ConfigError(s) => {
                let mut m = String::from_str("Configuration error: ");
                m.append(s.as_str());
                m
            },
            AppError::Internal(s) => {
                let mut m = String::from_str("Internal server error: ");
                m.append(s.as_str());
                m
            },
            AppError::Io(s) => {
                let mut m = String::from_str("I/O error: ");
                m.append(s.as_str());
                m
            },
            AppError::Channel(s) => {
                let mut m = String::from_str("Channel error: ");
                m.append(s.as_str());
                m
            },
            AppError::Http(s) => {
                let mut m = String::from_str("HTTP error: ");
                m.append(s.as_str());
                m
            },
            AppError::HttpClient(s) => {
                let mut m = String::from_str("HTTP client error: ");
                m.append(s.as_str());
                m
            },
            AppError::RequestError(s) => {
                let mut m = String::from_str("Request error: ");
                m.append(s.as_str());
                m
            },
        }
    }
}

} // verus!

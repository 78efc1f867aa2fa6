use vstd::prelude::*;

verus! {

/// The error of the HTTP transport: opaque here, carried through unchanged.
#[verifier::external_type_specification]
#[verifier::external_body]
pub struct ExReqwestError(reqwest::Error);

/// The ways a lookup can fail.
#[derive(Debug)]
pub enum OdesliError {
    /// A string that names no entity type ("song" and "album" are accepted).
    UnknownEntityType(String),
    /// A string that names no platform.
    UnknownPlatform(String),
    /// A string that names no API provider.
    UnknownAPIProvider(String),
    /// A success response whose body is not a well-formed links result.
    ParseError {
        /// Why the body could not be read.
        error: String,
        /// The response body, kept for diagnostics.
        body: String,
    },
    /// A response whose status code is not a success code.
    Non200StatusCode {
        /// The status code that came back.
        status_code: u16,
        /// The response body, kept for diagnostics.
        body: String,
    },
    /// The request could not be sent or its response could not be read.
    ReqwestError(reqwest::Error),
}

pub uninterp spec fn status_line_of(code: u16) -> Seq<char>;

/// Relies on `reqwest::StatusCode::from_u16`, which accepts 100..=999, and on
/// the `Display` of the status code (from the `http` crate): the code, a space
/// and its canonical reason phrase, or "<unknown status code>" where it has
/// none. A number outside that range is written alone.
#[verifier::external_body]
fn status_line(code: u16) -> (r: String)
    ensures
        r@ == status_line_of(code),
{
    match reqwest::StatusCode::from_u16(code) {
        Ok(status) => status.to_string(),
        Err(_) => code.to_string(),
    }
}

/// Relies on the `Display` of `reqwest::Error`: a description of the failure.
#[verifier::external_body]
fn transport_error_text(e: &reqwest::Error) -> (r: String) {
    e.to_string()
}

pub open spec fn unknown_entity_type_prefix() -> Seq<char> {
    "Unknown EntityType: "@
}

pub open spec fn unknown_platform_prefix() -> Seq<char> {
    "Unknown Platform: "@
}

pub open spec fn unknown_api_provider_prefix() -> Seq<char> {
    "Unknown APIProvider: "@
}

pub open spec fn parse_error_prefix() -> Seq<char> {
    "Failed to JSON parse the response body: "@
}

pub open spec fn status_error_prefix() -> Seq<char> {
    "Received non-200 status code by Odesli: "@
}

pub open spec fn transport_error_prefix() -> Seq<char> {
    "Failed to make HTTP request: "@
}

impl OdesliError {
    /// The one-line summary of an error that the message starts with: the
    /// kind and its key detail. Response bodies are left out.
    pub open spec fn message_spec(&self) -> Seq<char> {
        match self {
            OdesliError::UnknownEntityType(s) => unknown_entity_type_prefix() + s@,
            OdesliError::UnknownPlatform(s) => unknown_platform_prefix() + s@,
            OdesliError::UnknownAPIProvider(s) => unknown_api_provider_prefix() + s@,
            OdesliError::ParseError { error, .. } => parse_error_prefix() + error@,
            OdesliError::Non200StatusCode { status_code, .. } => status_error_prefix()
                + status_line_of(*status_code),
            OdesliError::ReqwestError(_) => transport_error_prefix(),
        }
    }

    /// A one-line, human-readable rendering of the error. It never holds a
    /// response body; for a transport error the transport's own description
    /// follows the fixed prefix.
    pub fn message(&self) -> (r: String)
        ensures
            match self {
                OdesliError::ReqwestError(_) => r@.len() >= transport_error_prefix().len()
                    && r@.subrange(0, transport_error_prefix().len() as int)
                    == transport_error_prefix(),
                _ => r@ == self.message_spec(),
            },
    {
        match self {
            OdesliError::UnknownEntityType(s) => {
                String::from_str("Unknown EntityType: ").concat(s.as_str())
            },
            OdesliError::UnknownPlatform(s) => {
                String::from_str("Unknown Platform: ").concat(s.as_str())
            },
            OdesliError::UnknownAPIProvider(s) => {
                String::from_str("Unknown APIProvider: ").concat(s.as_str())
            },
            OdesliError::ParseError { error, .. } => {
                String::from_str("Failed to JSON parse the response body: ").concat(error.as_str())
            },
            OdesliError::Non200StatusCode { status_code, .. } => {
                let line = status_line(*status_code);
                String::from_str("Received non-200 status code by Odesli: ").concat(line.as_str())
            },
            OdesliError::ReqwestError(e) => {
                let text = transport_error_text(e);
                let r = String::from_str("Failed to make HTTP request: ").concat(text.as_str());
                assert(r@.subrange(0, transport_error_prefix().len() as int)
                    =~= transport_error_prefix());
                r
            },
        }
    }
}

} // verus!

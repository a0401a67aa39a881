//! The unified error taxonomy every operation of this library reports.

use vstd::prelude::*;

verus! {

/// Error type for operations in this crate.
///
/// Represents the failure modes encountered when talking to DNS provider
/// APIs or performing local operations. Every variant carries a free-form
/// description of what went wrong.
#[derive(Debug, Clone)]
pub enum Error {
    /// The upstream returned an unexpected shape or a non-2xx body.
    ApiError(String),
    /// Credential or signing failure.
    AuthError(String),
    /// Transport or status failure.
    HttpError(String),
    /// Malformed endpoint construction.
    UrlError(String),
    /// More than one record matched a query expected to be singular.
    UnexpectedRecord(String),
    /// An update/delete target does not exist, where the adapter chooses
    /// not to treat that as a soft no-op.
    RecordNotFound(String),
    /// A textual address could not be parsed.
    AddrParseError(String),
    /// The identifier-cache lock was poisoned by a prior panic.
    LockingError(String),
    /// A response body could not be decoded as the expected JSON shape.
    JsonError(String),
    /// A local I/O failure reported by the transport.
    IoError(String),
}

impl Error {
    /// The description carried by this error, whatever its variant.
    pub fn message(&self) -> (r: &str)
        ensures
            r@ == self.spec_message(),
    {
        match self {
            Error::ApiError(m) => m.as_str(),
            Error::AuthError(m) => m.as_str(),
            Error::HttpError(m) => m.as_str(),
            Error::UrlError(m) => m.as_str(),
            Error::UnexpectedRecord(m) => m.as_str(),
            Error::RecordNotFound(m) => m.as_str(),
            Error::AddrParseError(m) => m.as_str(),
            Error::LockingError(m) => m.as_str(),
            Error::JsonError(m) => m.as_str(),
            Error::IoError(m) => m.as_str(),
        }
    }

    /// The description carried by this error, spec side.
    pub open spec fn spec_message(&self) -> Seq<char> {
        match self {
            Error::ApiError(m) => m@,
            Error::AuthError(m) => m@,
            Error::HttpError(m) => m@,
            Error::UrlError(m) => m@,
            Error::UnexpectedRecord(m) => m@,
            Error::RecordNotFound(m) => m@,
            Error::AddrParseError(m) => m@,
            Error::LockingError(m) => m@,
            Error::JsonError(m) => m@,
            Error::IoError(m) => m@,
        }
    }
}

} // verus!

//! Failure taxonomy and its mapping onto client-visible responses.

use vstd::prelude::*;

verus! {

/// Why an operation could not be completed.
#[derive(Clone, Copy, Debug, PartialEq, Eq, Structural)]
pub enum Failure {
    /// The key is unknown to the blob store or to the metadata store.
    NotFound,
    /// No unused key was found within the allowed number of attempts.
    KeyExhausted,
    /// The blob store did not accept the object.
    BlobWriteFailed,
    /// The metadata store did not accept the record.
    MetadataWriteFailed,
    /// The multipart body could not be read.
    MalformedMultipart,
    /// A store did not answer, or answered out of turn.
    StoreUnavailable,
    /// The request carried the reserved `expires` field.
    UnsupportedField,
}

/// HTTP status of a successful response.
pub const STATUS_OK: u16 = 200;

/// HTTP status for an unknown or expired key.
pub const STATUS_NOT_FOUND: u16 = 404;

/// HTTP status for every other failure.
pub const STATUS_INTERNAL_ERROR: u16 = 500;

/// The error a handler hands to the HTTP boundary.
#[derive(Clone, Copy, Debug, PartialEq, Eq, Structural)]
pub struct AppError {
    pub inner: Failure,
}

impl AppError {
    /// The status a failure is reported with: not-found for `NotFound`, a
    /// generic internal error for everything else.
    pub open spec fn spec_status(self) -> u16 {
        if self.inner == Failure::NotFound {
            STATUS_NOT_FOUND
        } else {
            STATUS_INTERNAL_ERROR
        }
    }

    /// The response body that goes with `spec_status`.
    pub open spec fn spec_message(self) -> Seq<char> {
        if self.inner == Failure::NotFound {
            "Resource not found"@
        } else {
            "Internal server error"@
        }
    }

    #[verifier::when_used_as_spec(spec_status)]
    pub fn status(self) -> (code: u16)
        ensures
            code == self.spec_status(),
    {
        match self.inner {
            Failure::NotFound => STATUS_NOT_FOUND,
            _ => STATUS_INTERNAL_ERROR,
        }
    }

    /// The plain-text body sent with the status. It never names the cause.
    pub fn message(self) -> (text: &'static str)
        ensures
            text@ == self.spec_message(),
    {
        match self.inner {
            Failure::NotFound => "Resource not found",
            _ => "Internal server error",
        }
    }
}

/// The status an outcome is reported with: success for `Ok`, the error's own
/// status otherwise.
pub open spec fn status_of<T>(outcome: Result<T, AppError>) -> u16 {
    match outcome {
        Ok(_) => STATUS_OK,
        Err(e) => e.spec_status(),
    }
}

/// The status to answer the client with.
pub fn response_status<T>(outcome: &Result<T, AppError>) -> (code: u16)
    ensures
        code == status_of(*outcome),
{
    match outcome {
        Ok(_) => STATUS_OK,
        Err(e) => e.status(),
    }
}

/// Wraps a failure for the HTTP boundary.
pub fn any_error(failure: Failure) -> (err: AppError)
    ensures
        err.inner == failure,
{
    AppError { inner: failure }
}

} // verus!

//! The errors a signer reports.

use vstd::prelude::*;

verus! {

/// What went wrong, and for whom.
///
/// Every variant carries a detail text meant for the person in front of the
/// device. The type has neither `Debug` nor `Display`: a detail leaves it only
/// through [`SignerError::detail_string`].
pub enum SignerError {
    /// The caller asked for something that can never work.
    ConfigError(String),
    /// The device, or the thread that serves it, cannot answer right now.
    NotAvailable(String),
    /// The user declined on the device.
    UserRejected(String),
    /// The device answered, but no usable signature came of it.
    SigningFailed(String),
    /// Anything else.
    Other(String),
}

/// The variants of [`SignerError`], without their details.
pub enum ErrorKind {
    ConfigError,
    NotAvailable,
    UserRejected,
    SigningFailed,
    Other,
}

/// The mathematical value of a [`SignerError`].
#[verifier::ext_equal]
pub struct ErrorView {
    pub kind: ErrorKind,
    pub detail: Seq<char>,
}

/// The error of kind `kind` that says `detail`.
pub open spec fn failure(kind: ErrorKind, detail: Seq<char>) -> ErrorView {
    ErrorView { kind, detail }
}

impl View for SignerError {
    type V = ErrorView;

    open spec fn view(&self) -> ErrorView {
        match self {
            SignerError::ConfigError(d) => failure(ErrorKind::ConfigError, d@),
            SignerError::NotAvailable(d) => failure(ErrorKind::NotAvailable, d@),
            SignerError::UserRejected(d) => failure(ErrorKind::UserRejected, d@),
            SignerError::SigningFailed(d) => failure(ErrorKind::SigningFailed, d@),
            SignerError::Other(d) => failure(ErrorKind::Other, d@),
        }
    }
}

impl SignerError {
    /// The detail text of this error.
    pub fn detail_string(&self) -> (detail: String)
        ensures
            detail@ == self@.detail,
            self matches SignerError::ConfigError(d) ==> detail@ == d@,
            self matches SignerError::NotAvailable(d) ==> detail@ == d@,
            self matches SignerError::UserRejected(d) ==> detail@ == d@,
            self matches SignerError::SigningFailed(d) ==> detail@ == d@,
            self matches SignerError::Other(d) ==> detail@ == d@,
    {
        match self {
            SignerError::ConfigError(d) => d.clone(),
            SignerError::NotAvailable(d) => d.clone(),
            SignerError::UserRejected(d) => d.clone(),
            SignerError::SigningFailed(d) => d.clone(),
            SignerError::Other(d) => d.clone(),
        }
    }
}

/// An error is its kind and its detail, and nothing of either is lost.
pub proof fn an_error_is_its_kind_and_its_detail(d: String)
    ensures
        SignerError::ConfigError(d)@ == (ErrorView { kind: ErrorKind::ConfigError, detail: d@ }),
        SignerError::NotAvailable(d)@ == (ErrorView { kind: ErrorKind::NotAvailable, detail: d@ }),
        SignerError::UserRejected(d)@ == (ErrorView { kind: ErrorKind::UserRejected, detail: d@ }),
        SignerError::SigningFailed(d)@ == (ErrorView { kind: ErrorKind::SigningFailed, detail: d@ }),
        SignerError::Other(d)@ == (ErrorView { kind: ErrorKind::Other, detail: d@ }),
{
}

} // verus!

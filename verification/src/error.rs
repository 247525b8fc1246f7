//! The failures a run can end with.

use vstd::prelude::*;
use vstd::string::*;

verus! {

/// Why a run failed. Every failure is final: nothing is retried.
#[derive(Debug, Clone, PartialEq, Eq)]
pub enum FetchError {
    /// The pattern matched nowhere in the page, or matched without
    /// capturing a link.
    LinkNotFound,
    /// The pattern string is not a well-formed pattern.
    InvalidPattern,
    /// The server did not advertise a definite byte length for `url`.
    MissingLength { url: String },
    /// The request to `url` could not be made or was answered with a failure.
    NetworkError { url: String, cause: String },
    /// The connection closed before the body was complete.
    TransferInterrupted { cause: String },
    /// The cache slot could not be opened, read or written.
    CacheIOError { cause: String },
}

/// Mathematical value of a [`FetchError`]: the same cases over sequences of
/// characters.
pub enum Failure {
    LinkNotFound,
    InvalidPattern,
    MissingLength { url: Seq<char> },
    NetworkError { url: Seq<char>, cause: Seq<char> },
    TransferInterrupted { cause: Seq<char> },
    CacheIOError { cause: Seq<char> },
}

impl View for FetchError {
    type V = Failure;

    open spec fn view(&self) -> Failure {
        match self {
            FetchError::LinkNotFound => Failure::LinkNotFound,
            FetchError::InvalidPattern => Failure::InvalidPattern,
            FetchError::MissingLength { url } => Failure::MissingLength { url: url@ },
            FetchError::NetworkError { url, cause } => Failure::NetworkError {
                url: url@,
                cause: cause@,
            },
            FetchError::TransferInterrupted { cause } => Failure::TransferInterrupted {
                cause: cause@,
            },
            FetchError::CacheIOError { cause } => Failure::CacheIOError { cause: cause@ },
        }
    }
}

/// The text that describes a failure: which stage failed, and why.
pub open spec fn message_text(failure: Failure) -> Seq<char> {
    match failure {
        Failure::LinkNotFound => "no download link found in the page"@,
        Failure::InvalidPattern => "the link pattern is not well-formed"@,
        Failure::MissingLength { url } => "failed to get content length from `"@ + url + "`"@,
        Failure::NetworkError { url, cause } => "request to `"@ + url + "` failed: "@ + cause,
        Failure::TransferInterrupted { cause } => "transfer interrupted: "@ + cause,
        Failure::CacheIOError { cause } => "cache slot unusable: "@ + cause,
    }
}

impl FetchError {
    /// Describes the failure for whoever started the run.
    pub fn message(&self) -> (text: String)
        ensures
            text@ == message_text(self@),
    {
        match self {
            FetchError::LinkNotFound => String::from_str("no download link found in the page"),
            FetchError::InvalidPattern => String::from_str("the link pattern is not well-formed"),
            FetchError::MissingLength { url } => {
                String::from_str("failed to get content length from `").concat(
                    url.as_str(),
                ).concat("`")
            },
            FetchError::NetworkError { url, cause } => {
                String::from_str("request to `").concat(url.as_str()).concat(
                    "` failed: ",
                ).concat(cause.as_str())
            },
            FetchError::TransferInterrupted { cause } => {
                String::from_str("transfer interrupted: ").concat(cause.as_str())
            },
            FetchError::CacheIOError { cause } => {
                String::from_str("cache slot unusable: ").concat(cause.as_str())
            },
        }
    }
}

} // verus!

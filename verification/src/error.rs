//! What can go wrong while talking to the controller.

use vstd::prelude::*;
use vstd::string::StringExecFns;

verus! {

/// A failure of one request to the controller.
#[derive(Debug)]
pub enum Error {
    /// The request could not be carried out, or was answered with a failure
    /// status. Holds the transport's account of it.
    Reqwest(String),
    /// The answer is not a well-formed application document. Holds the
    /// decoder's account of it.
    Serde(String),
    /// The controller answered with an error payload, held here as received.
    Other(String),
}

/// What an `Error` is in contracts.
pub enum ErrorView {
    Reqwest(Seq<char>),
    Serde(Seq<char>),
    Other(Seq<char>),
}

impl View for Error {
    type V = ErrorView;

    open spec fn view(&self) -> ErrorView {
        match self {
            Error::Reqwest(account) => ErrorView::Reqwest(account@),
            Error::Serde(account) => ErrorView::Serde(account@),
            Error::Other(payload) => ErrorView::Other(payload@),
        }
    }
}

impl ErrorView {
    /// The line that describes the error to a reader.
    pub open spec fn message(self) -> Seq<char> {
        match self {
            ErrorView::Reqwest(account) => "Request error: "@ + account,
            ErrorView::Serde(account) => "Serde error: "@ + account,
            ErrorView::Other(payload) => "Other error: "@ + payload,
        }
    }
}

impl Error {
    /// The line that describes the error to a reader.
    pub fn message(&self) -> (line: String)
        ensures
            line@ == self@.message(),
    {
        match self {
            Error::Reqwest(account) => String::from_str("Request error: ").concat(account.as_str()),
            Error::Serde(account) => String::from_str("Serde error: ").concat(account.as_str()),
            Error::Other(payload) => String::from_str("Other error: ").concat(payload.as_str()),
        }
    }
}

} // verus!

//! The ways in which sending a message can fail.

use vstd::prelude::*;

verus! {

/// Why no [`crate::client::Email`] came back.
#[derive(Debug, PartialEq, Eq)]
pub enum Error {
    /// The API answered with a status outside 2xx. Holds the text of the
    /// response as it came.
    ResendError(String),
    /// No response was obtained: the connection, TLS or a timeout failed.
    TransportFailure,
    /// The API answered with a 2xx status, but the body is no JSON object
    /// with a string named `id`.
    ResponseParseFailure,
}

/// What an [`Error`] holds.
pub enum ErrorView {
    ResendError(Seq<char>),
    TransportFailure,
    ResponseParseFailure,
}

impl View for Error {
    type V = ErrorView;

    open spec fn view(&self) -> ErrorView {
        match self {
            Error::ResendError(text) => ErrorView::ResendError(text@),
            Error::TransportFailure => ErrorView::TransportFailure,
            Error::ResponseParseFailure => ErrorView::ResponseParseFailure,
        }
    }
}

} // verus!

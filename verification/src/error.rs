//! The failures that the client reports.

use vstd::prelude::*;

verus! {

/// Why a request could not be built or a response could not be used.
#[derive(Debug, Clone, PartialEq, Eq)]
pub enum Error {
    /// The secret cannot serve as a signing key.
    Signing,
    /// The base URL, or the path resolved against it, is no URL.
    InvalidUrl,
    /// The query parameters or the body could not be encoded.
    Encoding,
    /// The server answered with a status outside the success range.
    Transport { status: u16, body: Vec<u8> },
    /// The response does not have the shape that was expected.
    MalformedResponse,
    /// The exchange answered with a code other than zero.
    Api { code: i32, message: String },
}

/// An `Error` with its contents as sequences.
pub enum ErrorView {
    Signing,
    InvalidUrl,
    Encoding,
    Transport { status: u16, body: Seq<u8> },
    MalformedResponse,
    Api { code: i32, message: Seq<char> },
}

impl View for Error {
    type V = ErrorView;

    open spec fn view(&self) -> ErrorView {
        match self {
            Error::Signing => ErrorView::Signing,
            Error::InvalidUrl => ErrorView::InvalidUrl,
            Error::Encoding => ErrorView::Encoding,
            Error::Transport { status, body } => ErrorView::Transport {
                status: *status,
                body: body@,
            },
            Error::MalformedResponse => ErrorView::MalformedResponse,
            Error::Api { code, message } => ErrorView::Api { code: *code, message: message@ },
        }
    }
}

} // verus!

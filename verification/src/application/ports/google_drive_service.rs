//! The delegated provider: identity and file storage.

use crate::text::join;
use vstd::prelude::*;

verus! {

/// How a call to the provider can fail.
#[derive(Debug)]
pub enum Error {
    /// The provider turned the bearer token down: the user has to sign in again.
    GoogleUnauthenticated,
    /// Everything else: network, malformed answer, refused file.
    Unknown(String),
}

/// A provider failure as plain values.
pub enum ErrorView {
    GoogleUnauthenticated,
    Unknown(Seq<char>),
}

impl View for Error {
    type V = ErrorView;

    open spec fn view(&self) -> ErrorView {
        match self {
            Error::GoogleUnauthenticated => ErrorView::GoogleUnauthenticated,
            Error::Unknown(detail) => ErrorView::Unknown(detail@),
        }
    }
}

impl ErrorView {
    /// The failure in words.
    pub open spec fn message(self) -> Seq<char> {
        match self {
            ErrorView::GoogleUnauthenticated => "Google Unauthenticated"@,
            ErrorView::Unknown(detail) => "Unknown error: "@ + detail,
        }
    }
}

impl Error {
    /// The failure in words.
    pub fn to_string(&self) -> (text: String)
        ensures
            text@ == self@.message(),
    {
        match self {
            Error::GoogleUnauthenticated => "Google Unauthenticated".to_string(),
            Error::Unknown(detail) => join("Unknown error: ", detail.as_str()),
        }
    }
}

} // verus!

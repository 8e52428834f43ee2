//! The unified error type: every failure, whatever its layer, reaches the
//! caller as one [`TelegraphError`].

use vstd::prelude::*;

verus! {

/// Mathematical model of a [`TelegraphError`].
pub enum ErrV {
    /// The server answered `ok: false` with this message.
    ApiError(Seq<char>),
    /// The transport failed before a response body was obtained.
    RequestError(Seq<char>),
    /// A response body could not be decoded as expected.
    ParseError(Seq<char>),
    /// A local file could not be read.
    IoError(Seq<char>),
}

/// One error type for every failure layer: the server's own errors,
/// transport failures, decode failures, and local file failures.
#[derive(Debug, PartialEq, Eq)]
pub enum TelegraphError {
    /// The server answered `ok: false` with this message.
    ApiError(String),
    /// The transport failed before a response body was obtained.
    RequestError(String),
    /// A response body could not be decoded as expected.
    ParseError(String),
    /// A local file could not be read.
    IoError(String),
}

impl View for TelegraphError {
    type V = ErrV;

    open spec fn view(&self) -> ErrV {
        match self {
            TelegraphError::ApiError(m) => ErrV::ApiError(m@),
            TelegraphError::RequestError(m) => ErrV::RequestError(m@),
            TelegraphError::ParseError(m) => ErrV::ParseError(m@),
            TelegraphError::IoError(m) => ErrV::IoError(m@),
        }
    }
}

/// The display text of an error.
pub open spec fn error_message(e: ErrV) -> Seq<char> {
    match e {
        ErrV::ApiError(m) => "Api error: "@ + m,
        ErrV::RequestError(m) => "Request error: "@ + m,
        ErrV::ParseError(m) => "Parse error: "@ + m,
        ErrV::IoError(m) => "IO error: "@ + m,
    }
}

impl TelegraphError {
    /// The error's display text: its layer followed by its detail.
    pub fn message(&self) -> (r: String)
        ensures
            r@ == error_message(self@),
    {
        match self {
            TelegraphError::ApiError(m) => String::from_str("Api error: ").concat(m.as_str()),
            TelegraphError::RequestError(m) => String::from_str("Request error: ").concat(
                m.as_str(),
            ),
            TelegraphError::ParseError(m) => String::from_str("Parse error: ").concat(m.as_str()),
            TelegraphError::IoError(m) => String::from_str("IO error: ").concat(m.as_str()),
        }
    }
}

} // verus!

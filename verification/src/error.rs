use vstd::prelude::*;

verus! {

/// The ways in which a call of this library can fail.
///
/// Values that only the transport layer holds (the connection error, the
/// response, the decoded JSON error value) stay with the caller that ran the
/// exchange; this type records which kind of failure happened and the plain
/// data that belongs to it.
#[derive(Debug, PartialEq, Eq)]
pub enum Error {
    /// The http connection failed.
    HttpError,
    /// A non-success status whose body is a JSON value describing the problem.
    BadRequest,
    /// The delegate did not provide an API key.
    MissingAPIKey,
    /// An additional, free form parameter clashed with one of the built-in ones;
    /// the field holds the name of the built-in parameter.
    FieldClash(String),
    /// The body of a successful response could not be decoded; the field holds
    /// the body as text.
    JsonDecodeError(String),
    /// A non-success status whose body is not JSON; the field holds the status code.
    Failure(u16),
}

/// The mathematical value of an [`Error`].
pub enum ErrorView {
    HttpError,
    BadRequest,
    MissingAPIKey,
    FieldClash(Seq<char>),
    JsonDecodeError(Seq<char>),
    Failure(u16),
}

impl View for Error {
    type V = ErrorView;

    open spec fn view(&self) -> ErrorView {
        match self {
            Error::HttpError => ErrorView::HttpError,
            Error::BadRequest => ErrorView::BadRequest,
            Error::MissingAPIKey => ErrorView::MissingAPIKey,
            Error::FieldClash(f) => ErrorView::FieldClash(f@),
            Error::JsonDecodeError(t) => ErrorView::JsonDecodeError(t@),
            Error::Failure(s) => ErrorView::Failure(*s),
        }
    }
}

} // verus!

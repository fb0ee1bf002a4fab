//! The failures that the client reports.

use reqwest::Error as TransportError;
use serde_json::Error as JsonError;
use vstd::prelude::*;

verus! {

/// The error type of `reqwest`, carried through unread.
#[verifier::external_type_specification]
#[verifier::external_body]
pub struct ExTransportError(TransportError);

/// The error type of `serde_json`, carried through unread.
#[verifier::external_type_specification]
#[verifier::external_body]
pub struct ExJsonError(JsonError);

/// Every way in which a call to the service can fail.
#[derive(Debug)]
pub enum Error {
    /// The request never got an answer: the connection or the transport failed.
    Http(TransportError),
    /// The transport handed over text that is no JSON.
    Json(JsonError),
    /// The service answered with a status that is no success, or with a body
    /// of another shape than the one expected. Holds the status code and a
    /// message with the body or with the reason why it could not be read.
    Api(u16, String),
    /// The service refused the API key, or none was sent.
    InvalidApiKey,
    /// The service failed on its side.
    ServerError,
    /// A parameter that the call needs was not given.
    MissingParameter(String),
    /// The game identifier cannot be one.
    InvalidGameId(String),
    /// The data source cannot be one.
    InvalidDataSource(String),
}

/// What an [`Error`] stands for, with each text as a sequence of characters.
pub enum ErrorView {
    Http(TransportError),
    Json(JsonError),
    Api(u16, Seq<char>),
    InvalidApiKey,
    ServerError,
    MissingParameter(Seq<char>),
    InvalidGameId(Seq<char>),
    InvalidDataSource(Seq<char>),
}

impl View for Error {
    type V = ErrorView;

    open spec fn view(&self) -> ErrorView {
        match self {
            Error::Http(e) => ErrorView::Http(*e),
            Error::Json(e) => ErrorView::Json(*e),
            Error::Api(status, message) => ErrorView::Api(*status, message@),
            Error::InvalidApiKey => ErrorView::InvalidApiKey,
            Error::ServerError => ErrorView::ServerError,
            Error::MissingParameter(name) => ErrorView::MissingParameter(name@),
            Error::InvalidGameId(id) => ErrorView::InvalidGameId(id@),
            Error::InvalidDataSource(source) => ErrorView::InvalidDataSource(source@),
        }
    }
}

impl From<TransportError> for Error {
    fn from(e: TransportError) -> (r: Self)
        ensures
            r@ == ErrorView::Http(e),
    {
        Error::Http(e)
    }
}

impl vstd::std_specs::convert::FromSpecImpl<TransportError> for Error {
    open spec fn obeys_from_spec() -> bool {
        true
    }

    open spec fn from_spec(e: TransportError) -> Self {
        Error::Http(e)
    }
}

impl From<JsonError> for Error {
    fn from(e: JsonError) -> (r: Self)
        ensures
            r@ == ErrorView::Json(e),
    {
        Error::Json(e)
    }
}

impl vstd::std_specs::convert::FromSpecImpl<JsonError> for Error {
    open spec fn obeys_from_spec() -> bool {
        true
    }

    open spec fn from_spec(e: JsonError) -> Self {
        Error::Json(e)
    }
}

} // verus!

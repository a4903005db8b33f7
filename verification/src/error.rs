//! Failures that the client reports.
//!
//! There are three groups. A missing binding is found before any request is
//! made. A bad URL, a bad document, a failed exchange and an unreadable reply
//! arise around the exchange and are not the service's doing. A service error
//! is the service's own refusal, handed on as it came.

use crate::json::{text_member, text_of, value_json, Json};
use vstd::prelude::*;
use vstd::string::*;

verus! {

/// A failure that the remote service reported in its reply.
#[derive(Debug, Clone, PartialEq, Eq)]
pub struct OpenFGAError {
    pub code: String,
    pub message: String,
}

/// What an [`OpenFGAError`] holds.
pub struct OpenFGAErrorView {
    pub code: Seq<char>,
    pub message: Seq<char>,
}

impl View for OpenFGAError {
    type V = OpenFGAErrorView;

    open spec fn view(&self) -> OpenFGAErrorView {
        OpenFGAErrorView { code: self.code@, message: self.message@ }
    }
}

/// The service error that the JSON document `doc` stands for: an object with
/// the string members `code` and `message`. Other members are ignored.
pub open spec fn service_error_of(doc: Json) -> Option<OpenFGAErrorView> {
    match (text_of(doc, "code"@), text_of(doc, "message"@)) {
        (Some(code), Some(message)) => Some(OpenFGAErrorView { code, message }),
        _ => None,
    }
}

/// The document with exactly the members `code` and `message` stands for the
/// service error with that code and that message.
pub proof fn lemma_service_error_document(code: Seq<char>, message: Seq<char>)
    ensures
        service_error_of(
            Json::Object(map!["code"@ => Json::Text(code), "message"@ => Json::Text(message)]),
        ) == Some(OpenFGAErrorView { code, message }),
{
    reveal_strlit("code");
    reveal_strlit("message");
    assert("code"@.len() == 4);
    assert("message"@.len() == 7);
}

impl OpenFGAError {
    /// Reads a service error from the JSON document `doc`.
    pub fn from_json(doc: &serde_json::Value) -> (r: Option<OpenFGAError>)
        ensures
            match r {
                Some(e) => service_error_of(value_json(*doc)) == Some(e@),
                None => service_error_of(value_json(*doc)) is None,
            },
    {
        let code = text_member(doc, "code");
        let message = text_member(doc, "message");
        match (code, message) {
            (Some(code), Some(message)) => Some(OpenFGAError { code, message }),
            _ => None,
        }
    }

    /// The line that announces this failure to a reader.
    pub fn to_text(&self) -> (r: String)
        ensures
            r@ == "OpenFGAError: "@ + self.message@,
    {
        "OpenFGAError: ".to_owned().concat(self.message.as_str())
    }
}

/// Everything that can go wrong in the client.
#[derive(Debug, Clone, PartialEq, Eq)]
pub enum Errors {
    /// The base URL and the path do not make an absolute URL.
    InvalidUrl,
    /// A text handed to the client as a JSON document is not JSON, or a
    /// document cannot be written as JSON text.
    InvalidDocument,
    /// The transport could not complete the exchange.
    NetworkFailure,
    /// The reply is not JSON, or is JSON of neither the expected shape nor the
    /// shape of a service error.
    MalformedResponse,
    /// The operation needs a store and the client is bound to none.
    MissingStoreId,
    /// The operation needs a model and the client is bound to none.
    MissingModelId,
    /// The store holds no model to bind to.
    NoModelForStore,
    /// The service refused the request.
    ServiceError(OpenFGAError),
}

/// What an [`Errors`] value holds.
pub enum ErrorsView {
    InvalidUrl,
    InvalidDocument,
    NetworkFailure,
    MalformedResponse,
    MissingStoreId,
    MissingModelId,
    NoModelForStore,
    ServiceError(OpenFGAErrorView),
}

impl View for Errors {
    type V = ErrorsView;

    open spec fn view(&self) -> ErrorsView {
        match self {
            Errors::InvalidUrl => ErrorsView::InvalidUrl,
            Errors::InvalidDocument => ErrorsView::InvalidDocument,
            Errors::NetworkFailure => ErrorsView::NetworkFailure,
            Errors::MalformedResponse => ErrorsView::MalformedResponse,
            Errors::MissingStoreId => ErrorsView::MissingStoreId,
            Errors::MissingModelId => ErrorsView::MissingModelId,
            Errors::NoModelForStore => ErrorsView::NoModelForStore,
            Errors::ServiceError(e) => ErrorsView::ServiceError(e@),
        }
    }
}

/// A result seen through the views of its two sides.
pub open spec fn result_view<T: View>(r: Result<T, Errors>) -> Result<T::V, ErrorsView> {
    match r {
        Ok(t) => Ok(t@),
        Err(e) => Err(e@),
    }
}

} // verus!

//! Requests and replies.
//!
//! A request is described by its method, its absolute URL, its headers and
//! the bytes of its JSON body; sending it is left to the caller. A reply is the body that
//! came back: it is read as JSON and sorted into the payload that the caller
//! expects, a service error, or neither.

use crate::error::{
    result_view, service_error_of, Errors, ErrorsView, OpenFGAError, OpenFGAErrorView,
};
use crate::json::{json_parse, json_write, parse_json, text_of, value_json, write_json, Json};
use crate::openfga::{ConfigView, OpenFGAConfig};
use std::marker::PhantomData;
use vstd::prelude::*;
use vstd::string::*;

verus! {

/// `url::ParseError`, the reason why a text is not an absolute URL.
#[verifier::external_type_specification]
#[verifier::external_body]
pub struct ExUrlParseError(url::ParseError);

/// The serialization of the absolute URL that `url::Url::parse` reads from
/// `input`, or `None` where it reports an error.
pub uninterp spec fn url_parse(input: Seq<char>) -> Option<Seq<char>>;

/// `url::Url::parse`, then `String::from` on the URL. Believed: the call
/// succeeds exactly where [`url_parse`] names a URL, and the text returned is
/// that URL's serialization.
#[verifier::external_body]
pub(crate) fn parse_url(input: &str) -> (r: Result<String, url::ParseError>)
    ensures
        match r {
            Ok(url) => url_parse(input@) == Some(url@),
            Err(_) => url_parse(input@) is None,
        },
{
    url::Url::parse(input).map(String::from)
}

/// The serialization of the absolute URL that `url::Url::parse_with_params`
/// makes of `input` and the one query parameter `key` with the value `value`,
/// or `None` where it reports an error.
pub uninterp spec fn url_parse_with_param(
    input: Seq<char>,
    key: Seq<char>,
    value: Seq<char>,
) -> Option<Seq<char>>;

/// `url::Url::parse_with_params` with one pair, then `String::from` on the
/// URL. Believed: the call succeeds exactly where [`url_parse_with_param`]
/// names a URL, and the text returned is that URL's serialization.
#[verifier::external_body]
pub(crate) fn parse_url_with_param(input: &str, key: &str, value: &str) -> (r: Result<
    String,
    url::ParseError,
>)
    ensures
        match r {
            Ok(url) => url_parse_with_param(input@, key@, value@) == Some(url@),
            Err(_) => url_parse_with_param(input@, key@, value@) is None,
        },
{
    url::Url::parse_with_params(input, [(key, value)]).map(String::from)
}

/// The HTTP methods that the client uses.
#[derive(Debug, Clone, Copy, PartialEq, Eq)]
pub enum Method {
    Get,
    Post,
}

/// One HTTP request, ready to be sent.
#[derive(Debug, Clone, PartialEq, Eq)]
pub struct HttpRequest {
    pub method: Method,
    /// The absolute URL.
    pub url: String,
    /// Header names with their values, in the order to send them.
    pub headers: Vec<(String, String)>,
    /// The bytes of the payload. `None` means that the request has no body
    /// at all.
    pub body: Option<Vec<u8>>,
}

/// What an [`HttpRequest`] holds.
pub struct HttpRequestView {
    pub method: Method,
    pub url: Seq<char>,
    pub headers: Seq<(Seq<char>, Seq<char>)>,
    pub body: Option<Seq<u8>>,
}

/// Header names and values as texts.
pub open spec fn headers_view(headers: Seq<(String, String)>) -> Seq<(Seq<char>, Seq<char>)> {
    headers.map_values(|h: (String, String)| (h.0@, h.1@))
}

/// The bytes of a body, if there is one.
pub open spec fn body_view(body: Option<Vec<u8>>) -> Option<Seq<u8>> {
    match body {
        Some(bytes) => Some(bytes@),
        None => None,
    }
}

/// What a document holds that may be absent.
pub open spec fn document_view(doc: Option<serde_json::Value>) -> Option<Json> {
    match doc {
        Some(doc) => Some(value_json(doc)),
        None => None,
    }
}

impl View for HttpRequest {
    type V = HttpRequestView;

    open spec fn view(&self) -> HttpRequestView {
        HttpRequestView {
            method: self.method,
            url: self.url@,
            headers: headers_view(self.headers@),
            body: body_view(self.body),
        }
    }
}

/// The headers that authorize a request: one `Authorization` header that
/// carries the token as it is, or no header where there is no token.
pub open spec fn auth_headers_of(token: Option<Seq<char>>) -> Seq<(Seq<char>, Seq<char>)> {
    match token {
        Some(token) => seq![("Authorization"@, token)],
        None => seq![],
    }
}

/// The headers that announce a body: JSON as the content type where there is
/// a body, no header where there is none.
pub open spec fn content_headers_of(body: Option<Seq<u8>>) -> Seq<(Seq<char>, Seq<char>)> {
    match body {
        Some(_) => seq![("Content-Type"@, "application/json"@)],
        None => seq![],
    }
}

/// The request to `url` made under `config` with the body `body`: its
/// headers are those that authorize it, then those that announce the body.
pub open spec fn request_to_url(
    config: ConfigView,
    url: Seq<char>,
    method: Method,
    body: Option<Seq<u8>>,
) -> HttpRequestView {
    HttpRequestView {
        method,
        url,
        headers: auth_headers_of(config.api_token) + content_headers_of(body),
        body,
    }
}

/// The request that `config`, `method` and the document `body` describe once
/// the URL is resolved to `url`. There is none where the URL could not be
/// resolved, nor where the document cannot be written as JSON text; the URL
/// is looked at first.
pub open spec fn request_at(
    config: ConfigView,
    url: Option<Seq<char>>,
    method: Method,
    body: Option<Json>,
) -> Result<HttpRequestView, ErrorsView> {
    match url {
        None => Err(ErrorsView::InvalidUrl),
        Some(url) => match body {
            None => Ok(request_to_url(config, url, method, None)),
            Some(doc) => match json_write(doc) {
                Some(text) => Ok(request_to_url(config, url, method, Some(text))),
                None => Err(ErrorsView::InvalidDocument),
            },
        },
    }
}

/// The request that `config`, `path`, `method` and `body` describe: the URL
/// is the base URL with the path appended, read as an absolute URL, and the
/// body is the document written as JSON text.
pub open spec fn request_of(
    config: ConfigView,
    path: Seq<char>,
    method: Method,
    body: Option<Json>,
) -> Result<HttpRequestView, ErrorsView> {
    request_at(config, url_parse(config.base_url + path), method, body)
}

/// The request of [`request_of`] with one query parameter added to its URL,
/// the value encoded as a query needs it.
pub open spec fn request_with_param_of(
    config: ConfigView,
    path: Seq<char>,
    key: Seq<char>,
    value: Seq<char>,
    method: Method,
    body: Option<Json>,
) -> Result<HttpRequestView, ErrorsView> {
    request_at(config, url_parse_with_param(config.base_url + path, key, value), method, body)
}

/// The headers that authorize a request made under `config`.
pub fn auth_headers(config: &OpenFGAConfig) -> (r: Vec<(String, String)>)
    ensures
        headers_view(r@) == auth_headers_of(config@.api_token),
{
    let mut headers: Vec<(String, String)> = Vec::new();
    if let Some(token) = &config.api_token {
        headers.push(("Authorization".to_owned(), token.clone()));
    }
    headers
}

/// The request to `url` made under `config`, with `body` as its payload if
/// there is one.
pub fn request_to(
    config: &OpenFGAConfig,
    url: String,
    method: Method,
    body: Option<Vec<u8>>,
) -> (r: HttpRequest)
    ensures
        r@ == request_to_url(config@, url@, method, body_view(body)),
{
    let mut headers = auth_headers(config);
    if body.is_some() {
        headers.push(("Content-Type".to_owned(), "application/json".to_owned()));
    }
    let request = HttpRequest { method, url, headers, body };
    assert(request@.headers =~= auth_headers_of(config@.api_token) + content_headers_of(
        body_view(body),
    ));
    request
}

/// Describes the request to the URL that was resolved to `url`, or fails as
/// [`request_at`] says.
fn describe<T: Payload>(
    config: &OpenFGAConfig,
    url: Result<String, url::ParseError>,
    method: Method,
    body: Option<serde_json::Value>,
) -> (r: Result<Exchange<T>, Errors>)
    ensures
        result_view(r) == request_at(
            config@,
            match url {
                Ok(url) => Some(url@),
                Err(_) => None,
            },
            method,
            document_view(body),
        ),
{
    match url {
        Err(_) => Err(Errors::InvalidUrl),
        Ok(url) => match body {
            None => Ok(Exchange::new(request_to(config, url, method, None))),
            Some(doc) => match write_json(&doc) {
                Ok(text) => Ok(Exchange::new(request_to(config, url, method, Some(text)))),
                Err(_) => Err(Errors::InvalidDocument),
            },
        },
    }
}

/// Describes the request for `path` under `config` whose answer is a `T`.
/// Fails with `InvalidUrl` where the base URL and the path make no absolute
/// URL, and with `InvalidDocument` where `body` cannot be written.
pub fn make_request<T: Payload>(
    config: &OpenFGAConfig,
    path: &str,
    method: Method,
    body: Option<serde_json::Value>,
) -> (r: Result<Exchange<T>, Errors>)
    ensures
        result_view(r) == request_of(config@, path@, method, document_view(body)),
{
    let text = config.base_url.clone().concat(path);
    describe(config, parse_url(text.as_str()), method, body)
}

/// Describes the request for `path` under `config` with the query parameter
/// `key` set to `value`, whose answer is a `T`. Fails as [`make_request`]
/// does.
pub fn make_request_with_param<T: Payload>(
    config: &OpenFGAConfig,
    path: &str,
    key: &str,
    value: &str,
    method: Method,
    body: Option<serde_json::Value>,
) -> (r: Result<Exchange<T>, Errors>)
    ensures
        result_view(r) == request_with_param_of(
            config@,
            path@,
            key@,
            value@,
            method,
            document_view(body),
        ),
{
    let text = config.base_url.clone().concat(path);
    describe(config, parse_url_with_param(text.as_str(), key, value), method, body)
}

/// A kind of success payload: a type that can be read from a JSON document.
pub trait Payload: View + Sized {
    /// What a payload of this kind holds, where `doc` has its shape.
    spec fn of_json(doc: Json) -> Option<Self::V>;

    /// Reads a payload of this kind from `doc`.
    fn from_json(doc: &serde_json::Value) -> (r: Option<Self>)
        ensures
            match r {
                Some(p) => Self::of_json(value_json(*doc)) == Some(p@),
                None => Self::of_json(value_json(*doc)) is None,
            },
    ;
}

/// What the JSON document `doc` means as a reply to a request for a `T`. The
/// shape of a service error is looked for first, so a document that has it is
/// never taken for a payload.
pub open spec fn reply_of<T: Payload>(doc: Json) -> Result<T::V, ErrorsView> {
    match service_error_of(doc) {
        Some(e) => Err(ErrorsView::ServiceError(e)),
        None => match T::of_json(doc) {
            Some(p) => Ok(p),
            None => Err(ErrorsView::MalformedResponse),
        },
    }
}

/// What a reply means whose body parses to `parsed`. A body that parses to
/// nothing is a malformed response.
pub open spec fn response_of<T: Payload>(parsed: Option<Json>) -> Result<T::V, ErrorsView> {
    match parsed {
        Some(doc) => reply_of::<T>(doc),
        None => Err(ErrorsView::MalformedResponse),
    }
}

/// Sorts the JSON document of a reply into the payload, a service error, or
/// a malformed response.
pub fn read_reply<T: Payload>(doc: &serde_json::Value) -> (r: Result<T, Errors>)
    ensures
        result_view(r) == reply_of::<T>(value_json(*doc)),
{
    match OpenFGAError::from_json(doc) {
        Some(e) => Err(Errors::ServiceError(e)),
        None => match T::from_json(doc) {
            Some(p) => Ok(p),
            None => Err(Errors::MalformedResponse),
        },
    }
}

/// Reads the body of a reply: parses it as JSON and sorts the document as
/// [`read_reply`] does. A body that is not JSON is a malformed response.
pub fn read_response<T: Payload>(body: &[u8]) -> (r: Result<T, Errors>)
    ensures
        result_view(r) == response_of::<T>(json_parse(body@)),
{
    match parse_json(body) {
        Ok(doc) => read_reply::<T>(&doc),
        Err(_) => Err(Errors::MalformedResponse),
    }
}

/// What came of sending a request.
#[derive(Debug, Clone, PartialEq, Eq)]
pub enum Outcome {
    /// The service answered. This is the body of its reply, whatever the
    /// status that came with it.
    Reply(Vec<u8>),
    /// The transport gave up: the exchange failed, timed out or was
    /// cancelled before a reply was complete.
    Failure,
}

impl View for Outcome {
    type V = Option<Seq<u8>>;

    open spec fn view(&self) -> Option<Seq<u8>> {
        match self {
            Outcome::Reply(body) => Some(body@),
            Outcome::Failure => None,
        }
    }
}

/// What the outcome of an exchange means to the caller that expects a `T`:
/// a failed exchange is a network failure, a reply is read as
/// [`response_of`] says.
pub open spec fn outcome_of<T: Payload>(outcome: Option<Seq<u8>>) -> Result<T::V, ErrorsView> {
    match outcome {
        Some(body) => response_of::<T>(json_parse(body)),
        None => Err(ErrorsView::NetworkFailure),
    }
}

/// One exchange with the service: the request to send, and in `T` the kind
/// of payload that answers it.
#[derive(Debug, PartialEq, Eq)]
pub struct Exchange<T: Payload> {
    request: HttpRequest,
    payload: PhantomData<T>,
}

impl<T: Payload> View for Exchange<T> {
    type V = HttpRequestView;

    /// What the request of the exchange holds.
    closed spec fn view(&self) -> HttpRequestView {
        self.request@
    }
}

impl<T: Payload> Exchange<T> {
    /// The exchange that sends `request` and expects a `T`.
    pub fn new(request: HttpRequest) -> (r: Exchange<T>)
        ensures
            r@ == request@,
    {
        Exchange { request, payload: PhantomData }
    }

    /// The request to send.
    pub fn request(&self) -> (r: &HttpRequest)
        ensures
            r@ == self@,
    {
        &self.request
    }

    /// The request to send, for a caller that is done with the exchange.
    pub fn into_request(self) -> (r: HttpRequest)
        ensures
            r@ == self@,
    {
        self.request
    }

    /// Reads the body of the reply to this exchange, as [`read_response`]
    /// does: the payload, a service error, or a malformed response.
    pub fn read(&self, reply: &[u8]) -> (r: Result<T, Errors>)
        ensures
            result_view(r) == response_of::<T>(json_parse(reply@)),
    {
        read_response::<T>(reply)
    }

    /// Concludes this exchange from what came of sending its request: a
    /// `NetworkFailure` where the transport gave up, else what the reply
    /// reads as.
    pub fn conclude(&self, outcome: &Outcome) -> (r: Result<T, Errors>)
        ensures
            result_view(r) == outcome_of::<T>(outcome@),
    {
        match outcome {
            Outcome::Reply(body) => self.read(body.as_slice()),
            Outcome::Failure => Err(Errors::NetworkFailure),
        }
    }
}

/// A reply with the string members `code` and `message` is a service error
/// with that code and that message, whatever payload was asked for and
/// whatever else the document holds.
pub proof fn lemma_service_error_surfaces<T: Payload>(
    doc: Json,
    code: Seq<char>,
    message: Seq<char>,
)
    requires
        text_of(doc, "code"@) == Some(code),
        text_of(doc, "message"@) == Some(message),
    ensures
        reply_of::<T>(doc) == Err::<T::V, ErrorsView>(
            ErrorsView::ServiceError(OpenFGAErrorView { code, message }),
        ),
{
}

/// A reply is reported as a service error only where the document has the
/// shape of one, and then with the code and the message that the document
/// gives: the client makes up no service error and alters none.
pub proof fn lemma_service_errors_are_not_made_up<T: Payload>(doc: Json)
    ensures
        reply_of::<T>(doc) matches Err(ErrorsView::ServiceError(e)) ==> service_error_of(doc)
            == Some(e),
        service_error_of(doc) is None ==> !(reply_of::<T>(doc) matches Err(
            ErrorsView::ServiceError(_),
        )),
{
}

} // verus!

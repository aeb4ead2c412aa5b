//! The error taxonomy and its rendering as an HTTP status with a JSON body.

use axum::extract::rejection::JsonRejection;
use vstd::prelude::*;
use vstd::std_specs::convert::FromSpecImpl;
use vstd::string::*;

verus! {

/// The transport layer's rejection of a malformed JSON request body.
#[verifier::external_type_specification]
#[verifier::external_body]
pub struct ExJsonRejection(axum::extract::rejection::JsonRejection);

/// The HTTP client's error.
#[verifier::external_type_specification]
#[verifier::external_body]
pub struct ExReqwestError(reqwest::Error);

/// A value that is sent to the caller as a JSON body.
#[derive(Debug)]
pub struct PayJson<T>(pub T);

/// The JSON body of every failure.
#[derive(Debug)]
pub struct PayErrorResponse {
    pub code: u16,
    pub message: String,
}

/// Every way in which a request can fail.
#[derive(Debug)]
pub enum PayError {
    NotFound(String),
    DeserializeError(String),
    BadRequest(String),
    InternalError(String),
    JsonRejection(JsonRejection),
}

/// A [`PayError`] with its message as a sequence of characters.
pub enum PayErrorView {
    NotFound(Seq<char>),
    DeserializeError(Seq<char>),
    BadRequest(Seq<char>),
    InternalError(Seq<char>),
    JsonRejection(JsonRejection),
}

impl View for PayError {
    type V = PayErrorView;

    open spec fn view(&self) -> PayErrorView {
        match *self {
            PayError::NotFound(m) => PayErrorView::NotFound(m@),
            PayError::DeserializeError(m) => PayErrorView::DeserializeError(m@),
            PayError::BadRequest(m) => PayErrorView::BadRequest(m@),
            PayError::InternalError(m) => PayErrorView::InternalError(m@),
            PayError::JsonRejection(r) => PayErrorView::JsonRejection(r),
        }
    }
}

pub const STATUS_BAD_REQUEST: u16 = 400;

pub const STATUS_NOT_FOUND: u16 = 404;

pub const STATUS_INTERNAL_SERVER_ERROR: u16 = 500;

/// The statuses with which a malformed JSON body is rejected: bad request,
/// payload too large, unsupported media type, unprocessable entity.
pub open spec fn is_json_rejection_status(code: u16) -> bool {
    code == 400 || code == 413 || code == 415 || code == 422
}

/// The status with which a rejection is answered, as a number.
pub uninterp spec fn json_rejection_code(rejection: JsonRejection) -> u16;

/// The text that describes a rejection.
pub uninterp spec fn json_rejection_text(rejection: JsonRejection) -> Seq<char>;

/// The diagnostic text of a client error: what its `Debug` form writes of its
/// kind, its URL and its source.
pub uninterp spec fn reqwest_error_text(err: reqwest::Error) -> Seq<char>;

/// `JsonRejection::status`, turned into a number by `StatusCode::as_u16`.
/// The status is fixed by the rejection's variant, and every variant answers
/// with one of four statuses.
#[verifier::external_body]
fn json_rejection_status(rejection: &JsonRejection) -> (code: u16)
    ensures
        code == json_rejection_code(*rejection),
        is_json_rejection_status(code),
{
    rejection.status().as_u16()
}

/// `JsonRejection::body_text`: the text that describes the rejection, made of
/// the variant's fixed sentence and of the error that the rejection holds.
#[verifier::external_body]
fn json_rejection_body_text(rejection: &JsonRejection) -> (text: String)
    ensures
        text@ == json_rejection_text(*rejection),
{
    rejection.body_text()
}

/// `reqwest::Error` in its `Debug` form, which writes the kind, the URL and
/// the source that the error holds.
#[verifier::external_body]
fn reqwest_error_debug(err: &reqwest::Error) -> (text: String)
    ensures
        text@ == reqwest_error_text(*err),
{
    format!("{:?}", err)
}

/// What precedes the client's diagnostic text in an internal error.
pub const CLIENT_ERROR_PREFIX: &'static str = "reqwest error: ";

/// The text of the authorization header for a bearer token.
pub open spec fn bearer_text(token: Seq<char>) -> Seq<char> {
    "Bearer "@ + token
}

/// The text of the authorization header for a bearer token.
pub fn bearer(token: &str) -> (text: String)
    ensures
        text@ == bearer_text(token@),
{
    String::from_str("Bearer ").concat(token)
}

impl PayErrorView {
    /// The status of a failure whose status does not come from the transport.
    pub open spec fn fixed_status(self) -> Option<u16> {
        match self {
            PayErrorView::NotFound(_) => Some(STATUS_NOT_FOUND),
            PayErrorView::DeserializeError(_) => Some(STATUS_INTERNAL_SERVER_ERROR),
            PayErrorView::BadRequest(_) => Some(STATUS_BAD_REQUEST),
            PayErrorView::InternalError(_) => Some(STATUS_INTERNAL_SERVER_ERROR),
            PayErrorView::JsonRejection(_) => None,
        }
    }

    /// The message of a failure whose message does not come from the transport.
    pub open spec fn fixed_message(self) -> Option<Seq<char>> {
        match self {
            PayErrorView::NotFound(m) => Some(m),
            PayErrorView::DeserializeError(m) => Some(m),
            PayErrorView::BadRequest(m) => Some(m),
            PayErrorView::InternalError(m) => Some(m),
            PayErrorView::JsonRejection(_) => None,
        }
    }
}

impl PayError {
    /// The status and body for a failure with the given status and message:
    /// the body repeats the status as its code.
    pub fn respond(status: u16, message: String) -> (res: (u16, PayJson<PayErrorResponse>))
        ensures
            res.0 == status,
            res.1.0.code == status,
            res.1.0.message == message,
    {
        (status, PayJson(PayErrorResponse { code: status, message }))
    }

    /// The internal error for a failure of the HTTP client whose diagnostic
    /// text is `text`.
    pub fn client_error(text: String) -> (res: PayError)
        ensures
            res@ == PayErrorView::InternalError(CLIENT_ERROR_PREFIX@ + text@),
    {
        PayError::InternalError(String::from_str(CLIENT_ERROR_PREFIX).concat(text.as_str()))
    }

    /// The HTTP status and the JSON body with which this failure is answered.
    ///
    /// Not-found is 404, a bad request 400, a deserialization or internal
    /// failure 500, each with its own message. A rejected request body keeps
    /// the status and text that the transport gave it.
    pub fn into_response(self) -> (res: (u16, PayJson<PayErrorResponse>))
        ensures
            res.1.0.code == res.0,
            self@.fixed_status() is Some ==> res.0 == self@.fixed_status().unwrap(),
            self@.fixed_message() is Some ==> res.1.0.message@ == self@.fixed_message().unwrap(),
            self@ matches PayErrorView::JsonRejection(rejection) ==> {
                &&& res.0 == json_rejection_code(rejection)
                &&& res.1.0.message@ == json_rejection_text(rejection)
                &&& is_json_rejection_status(res.0)
            },
    {
        match self {
            PayError::NotFound(message) => PayError::respond(STATUS_NOT_FOUND, message),
            PayError::DeserializeError(message) => PayError::respond(
                STATUS_INTERNAL_SERVER_ERROR,
                message,
            ),
            PayError::InternalError(message) => PayError::respond(
                STATUS_INTERNAL_SERVER_ERROR,
                message,
            ),
            PayError::BadRequest(message) => PayError::respond(STATUS_BAD_REQUEST, message),
            PayError::JsonRejection(rejection) => {
                let status = json_rejection_status(&rejection);
                let message = json_rejection_body_text(&rejection);
                PayError::respond(status, message)
            },
        }
    }
}

impl From<reqwest::Error> for PayError {
    /// A transport failure of the HTTP client becomes an internal error that
    /// carries the client's diagnostic text.
    fn from(err: reqwest::Error) -> (res: PayError)
        ensures
            res@ == PayErrorView::InternalError(CLIENT_ERROR_PREFIX@ + reqwest_error_text(err)),
    {
        PayError::client_error(reqwest_error_debug(&err))
    }
}

impl FromSpecImpl<reqwest::Error> for PayError {
    /// The result holds a message, which no spec function can build; what
    /// `from` returns is stated there.
    open spec fn obeys_from_spec() -> bool {
        false
    }

    open spec fn from_spec(err: reqwest::Error) -> PayError {
        choose|e: PayError| e@ is InternalError
    }
}

impl From<JsonRejection> for PayError {
    fn from(rejection: JsonRejection) -> (res: PayError) {
        PayError::JsonRejection(rejection)
    }
}

impl FromSpecImpl<JsonRejection> for PayError {
    open spec fn obeys_from_spec() -> bool {
        true
    }

    open spec fn from_spec(rejection: JsonRejection) -> PayError {
        PayError::JsonRejection(rejection)
    }
}

} // verus!

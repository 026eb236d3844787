//! The error taxonomy of the upload core, and the explicit mapping from
//! error kind to HTTP status code and message that the response-building
//! boundary consults.

use vstd::prelude::*;
use crate::admission::DenialReason;

verus! {

/// Errors raised while validating request header or body fields.
#[derive(Clone, Debug)]
pub enum HeaderErrors {
    /// A required field is absent; carries the field name.
    HeaderFieldMissing(String),
    /// Declared length and transferred byte count disagree; carries the field name.
    FieldMismatch(String),
    /// A field is present but fails validation; carries the field name.
    InvalidField(String),
    /// A header value could not be decoded as text; carries a description.
    HeaderUnwrapError(String),
}

/// Error states of the whole backend, each with a fixed HTTP mapping.
#[derive(Clone, Debug)]
pub enum ErrorStates {
    /// A runtime task was lost; carries a description.
    TaskError(String),
    /// The storage layer failed; carries a description.
    BufferError(String),
    /// The transport layer failed; carries a description.
    InternalError(String),
    /// A request field was rejected.
    RequestError(HeaderErrors),
    /// An operation referenced an identifier the registry has never seen.
    JobNotFound,
    /// Admission was denied because the host is resource-constrained.
    ResourceExhausted(DenialReason),
}

/// Holds when `e` rejects field `field` as present-but-invalid.
pub open spec fn is_invalid_field(e: ErrorStates, field: Seq<char>) -> bool {
    e matches ErrorStates::RequestError(h) && h matches HeaderErrors::InvalidField(f) && f@
        == field
}

/// Holds when `e` reports field `field` as missing.
pub open spec fn is_missing_field(e: ErrorStates, field: Seq<char>) -> bool {
    e matches ErrorStates::RequestError(h) && h matches HeaderErrors::HeaderFieldMissing(f) && f@
        == field
}

/// Holds when `e` reports a mismatch on field `field`.
pub open spec fn is_field_mismatch(e: ErrorStates, field: Seq<char>) -> bool {
    e matches ErrorStates::RequestError(h) && h matches HeaderErrors::FieldMismatch(f) && f@
        == field
}

impl ErrorStates {
    /// The status code this error kind is surfaced with.
    pub open spec fn spec_http_code(self) -> u16 {
        match self {
            ErrorStates::TaskError(_) => 500,
            ErrorStates::BufferError(_) => 500,
            ErrorStates::InternalError(_) => 500,
            ErrorStates::RequestError(_) => 404,
            ErrorStates::JobNotFound => 404,
            ErrorStates::ResourceExhausted(_) => 409,
        }
    }

    /// The stable human-readable message this error kind is surfaced with.
    pub open spec fn spec_http_message(self) -> Seq<char> {
        match self {
            ErrorStates::TaskError(_) => "server went into undesired mode"@,
            ErrorStates::BufferError(_) => "server went into undesired mode"@,
            ErrorStates::InternalError(_) => "server went into undesired mode"@,
            ErrorStates::RequestError(_) => "Missing Header Field"@,
            ErrorStates::JobNotFound => "job not found"@,
            ErrorStates::ResourceExhausted(_) => "resource exhausted"@,
        }
    }

    /// The explicit error-kind-to-status-code table.
    pub fn http_code(&self) -> (r: u16)
        ensures
            r == self.spec_http_code(),
    {
        match self {
            ErrorStates::TaskError(_) => 500,
            ErrorStates::BufferError(_) => 500,
            ErrorStates::InternalError(_) => 500,
            ErrorStates::RequestError(_) => 404,
            ErrorStates::JobNotFound => 404,
            ErrorStates::ResourceExhausted(_) => 409,
        }
    }

    /// The explicit error-kind-to-message table.
    pub fn http_message(&self) -> (r: &'static str)
        ensures
            r@ == self.spec_http_message(),
    {
        match self {
            ErrorStates::TaskError(_) => "server went into undesired mode",
            ErrorStates::BufferError(_) => "server went into undesired mode",
            ErrorStates::InternalError(_) => "server went into undesired mode",
            ErrorStates::RequestError(_) => "Missing Header Field",
            ErrorStates::JobNotFound => "job not found",
            ErrorStates::ResourceExhausted(_) => "resource exhausted",
        }
    }
}

/// An error on its way out of the core: reason plus response envelope.
#[derive(Clone, Debug)]
pub struct ErrorReport {
    /// What went wrong.
    pub reason: ErrorStates,
    /// The status code of the response to build.
    pub resp_code: u16,
    /// Header pairs of the response to build.
    pub headers: Vec<(String, String)>,
}

/// The plain pieces of an HTTP response; the transport boundary turns them
/// into a real response.
#[derive(Clone, Debug)]
pub struct ResponseParts {
    /// Response status code.
    pub status: u16,
    /// Response header pairs.
    pub headers: Vec<(String, String)>,
    /// Response body text.
    pub body: String,
}

impl ErrorReport {
    /// A report that surfaces as a plain bad request.
    pub fn new(state: ErrorStates, header: Vec<(String, String)>) -> (r: Self)
        ensures
            r.reason == state,
            r.resp_code == 400,
            r.headers == header,
    {
        ErrorReport { reason: state, resp_code: 400, headers: header }
    }

    /// Renders the report as plain response pieces: the recorded code, the
    /// recorded headers, and the stable message of the reason.
    pub fn convert_to_response(self) -> (r: ResponseParts)
        ensures
            r.status == self.resp_code,
            r.headers == self.headers,
            r.body@ == self.reason.spec_http_message(),
    {
        let body_text: String = self.reason.http_message().to_owned();
        ResponseParts { status: self.resp_code, headers: self.headers, body: body_text }
    }
}

/// The error carried through request handling.
#[derive(Clone, Debug)]
pub struct FragmentError {
    /// The underlying error state.
    pub error_state: ErrorStates,
}

impl From<ErrorStates> for FragmentError {
    fn from(err: ErrorStates) -> (r: FragmentError) {
        FragmentError { error_state: err }
    }
}

impl vstd::std_specs::convert::FromSpecImpl<ErrorStates> for FragmentError {
    open spec fn obeys_from_spec() -> bool {
        true
    }

    open spec fn from_spec(err: ErrorStates) -> FragmentError {
        FragmentError { error_state: err }
    }
}

impl From<HeaderErrors> for FragmentError {
    fn from(err: HeaderErrors) -> (r: FragmentError) {
        FragmentError { error_state: ErrorStates::RequestError(err) }
    }
}

impl vstd::std_specs::convert::FromSpecImpl<HeaderErrors> for FragmentError {
    open spec fn obeys_from_spec() -> bool {
        true
    }

    open spec fn from_spec(err: HeaderErrors) -> FragmentError {
        FragmentError { error_state: ErrorStates::RequestError(err) }
    }
}

impl FragmentError {
    /// Builds the outgoing report: the reason's own status code and a JSON
    /// content-type header.
    pub fn into_report(self) -> (r: ErrorReport)
        ensures
            r.reason == self.error_state,
            r.resp_code == self.error_state.spec_http_code(),
            r.headers@.len() == 1,
            r.headers@[0].0@ == "content-type"@,
            r.headers@[0].1@ == "application/json"@,
    {
        let statuscode = self.error_state.http_code();
        let mut headers: Vec<(String, String)> = Vec::new();
        headers.push(("content-type".to_owned(), "application/json".to_owned()));
        ErrorReport { reason: self.error_state, resp_code: statuscode, headers }
    }
}

/// An error naming a field as present but invalid.
pub(crate) fn err_invalid(field: &str) -> (r: FragmentError)
    ensures
        is_invalid_field(r.error_state, field@),
{
    FragmentError { error_state: ErrorStates::RequestError(HeaderErrors::InvalidField(field.to_owned())) }
}

/// An error naming a field as missing.
pub(crate) fn err_missing(field: &str) -> (r: FragmentError)
    ensures
        is_missing_field(r.error_state, field@),
{
    FragmentError {
        error_state: ErrorStates::RequestError(HeaderErrors::HeaderFieldMissing(field.to_owned())),
    }
}

/// An error naming a field whose declared and observed values disagree.
pub(crate) fn err_mismatch(field: &str) -> (r: FragmentError)
    ensures
        is_field_mismatch(r.error_state, field@),
{
    FragmentError { error_state: ErrorStates::RequestError(HeaderErrors::FieldMismatch(field.to_owned())) }
}

/// The error for an identifier the registry has never seen.
pub(crate) fn err_not_found() -> (r: FragmentError)
    ensures
        r.error_state is JobNotFound,
{
    FragmentError { error_state: ErrorStates::JobNotFound }
}

/// Turns an option into a result: a held value passes through, and an
/// absent one becomes the error that the given closure builds.
pub trait OptionExt<V, E, T> where T: FnOnce() -> E {
    /// What the adapter sees held, if anything.
    spec fn spec_held(&self) -> Option<V>;

    /// Yields the held value, or the error that `method` builds; the
    /// closure runs only when nothing is held.
    fn to_result(self, method: T) -> (r: Result<V, E>)
        requires
            self.spec_held() is None ==> call_requires(method, ()),
        ensures
            self.spec_held() is Some ==> (r matches Ok(v) && v == self.spec_held()->0),
            self.spec_held() is None ==> (r matches Err(e) && call_ensures(method, (), e)),
    ;
}

impl<V, E, T> OptionExt<V, E, T> for Option<V> where T: FnOnce() -> E {
    open spec fn spec_held(&self) -> Option<V> {
        *self
    }

    fn to_result(self, method: T) -> (r: Result<V, E>) {
        match self {
            Some(v) => Ok(v),
            None => Err(method()),
        }
    }
}

} // verus!

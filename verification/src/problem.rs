//! Protocol-agnostic error details (RFC 7807 Problem Details) and the
//! conversions that produce them from HTTP response bodies.

use vstd::prelude::*;
use crate::text::{spec_strip_prefix, strip_prefix, views};

verus! {

broadcast use vstd::string::group_string_axioms;

/// Base URL for error type documentation.
pub const ERROR_TYPE_BASE_URL: &'static str = "https://docs.pistachiohq.com/errors/";

/// A request parameter that the server rejected.
#[derive(Debug, Clone, PartialEq, Eq)]
pub struct InvalidParam {
    pub name: String,
    pub reason: String,
    pub value: Option<String>,
    pub expected_values: Vec<String>,
}

/// Error details independent of the transport that carried them.
#[derive(Debug, Clone, PartialEq, Eq)]
pub struct ErrorDetails {
    /// The error type slug, such as `not_found`.
    pub error_type: String,
    pub title: String,
    pub message: Option<String>,
    pub invalid_params: Vec<InvalidParam>,
}

/// An RFC 7807 Problem Details response.
#[derive(Debug, Clone, PartialEq, Eq)]
pub struct ProblemDetails {
    /// The full error type URL.
    pub problem_type: String,
    pub title: String,
    pub status: u16,
    pub detail: Option<String>,
    pub instance: Option<String>,
    pub invalid_params: Vec<InvalidParam>,
}

/// A response that did not have the shape the client expects.
#[derive(Debug, Clone, Copy, PartialEq, Eq)]
pub enum ValidationError {
    MissingField(&'static str),
    InvalidValue(&'static str),
}

/// The mathematical value of an invalid parameter.
pub struct InvalidParamView {
    pub name: Seq<char>,
    pub reason: Seq<char>,
    pub value: Option<Seq<char>>,
    pub expected_values: Seq<Seq<char>>,
}

/// The mathematical value of error details.
pub struct ErrorDetailsView {
    pub error_type: Seq<char>,
    pub title: Seq<char>,
    pub message: Option<Seq<char>>,
    pub invalid_params: Seq<InvalidParamView>,
}

/// The mathematical value of a problem details response.
pub struct ProblemDetailsView {
    pub problem_type: Seq<char>,
    pub title: Seq<char>,
    pub status: u16,
    pub detail: Option<Seq<char>>,
    pub instance: Option<Seq<char>>,
    pub invalid_params: Seq<InvalidParamView>,
}

/// The view of an optional string.
pub open spec fn opt_view(o: Option<String>) -> Option<Seq<char>> {
    match o {
        Some(s) => Some(s@),
        None => None,
    }
}

impl View for InvalidParam {
    type V = InvalidParamView;

    open spec fn view(&self) -> InvalidParamView {
        InvalidParamView {
            name: self.name@,
            reason: self.reason@,
            value: opt_view(self.value),
            expected_values: views(self.expected_values@),
        }
    }
}

/// The views of a list of invalid parameters.
pub open spec fn param_views(v: Seq<InvalidParam>) -> Seq<InvalidParamView> {
    v.map_values(|p: InvalidParam| p@)
}

impl View for ErrorDetails {
    type V = ErrorDetailsView;

    open spec fn view(&self) -> ErrorDetailsView {
        ErrorDetailsView {
            error_type: self.error_type@,
            title: self.title@,
            message: opt_view(self.message),
            invalid_params: param_views(self.invalid_params@),
        }
    }
}

impl View for ProblemDetails {
    type V = ProblemDetailsView;

    open spec fn view(&self) -> ProblemDetailsView {
        ProblemDetailsView {
            problem_type: self.problem_type@,
            title: self.title@,
            status: self.status,
            detail: opt_view(self.detail),
            instance: opt_view(self.instance),
            invalid_params: param_views(self.invalid_params@),
        }
    }
}

/// The slug of an error type URL: what follows the documentation base URL, or
/// the whole text when it does not start with that URL.
pub open spec fn slug_of(url: Seq<char>) -> Seq<char> {
    match spec_strip_prefix(url, ERROR_TYPE_BASE_URL@) {
        Some(rest) => rest,
        None => url,
    }
}

/// Extracts the error type slug from a full error type URL.
///
/// Example: "https://docs.pistachiohq.com/errors/not_found" -> "not_found"
pub fn extract_error_type_slug(url: &str) -> (slug: String)
    ensures
        slug@ == slug_of(url@),
{
    match strip_prefix(url, ERROR_TYPE_BASE_URL) {
        Some(rest) => rest.to_string(),
        None => url.to_string(),
    }
}

/// The slug of the type URL built from a slug is that slug.
pub proof fn lemma_slug_of_type_url(slug: Seq<char>)
    ensures
        slug_of(ERROR_TYPE_BASE_URL@ + slug) == slug,
{
    let url = ERROR_TYPE_BASE_URL@ + slug;
    assert(url.subrange(0, ERROR_TYPE_BASE_URL@.len() as int) =~= ERROR_TYPE_BASE_URL@);
    assert(url.skip(ERROR_TYPE_BASE_URL@.len() as int) =~= slug);
}

/// The error details used when a response body is not RFC 7807 JSON.
pub open spec fn fallback_details_view(message: Seq<char>) -> ErrorDetailsView {
    ErrorDetailsView {
        error_type: "unknown"@,
        title: "Error"@,
        message: Some(message),
        invalid_params: Seq::empty(),
    }
}

/// Creates fallback error details, used when the response body is not valid RFC 7807 JSON.
pub fn fallback_error_details(message: String) -> (details: ErrorDetails)
    ensures
        details@ == fallback_details_view(message@),
{
    let details = ErrorDetails {
        error_type: "unknown".to_string(),
        title: "Error".to_string(),
        message: Some(message),
        invalid_params: Vec::new(),
    };
    assert(param_views(details.invalid_params@) =~= Seq::<InvalidParamView>::empty());
    details
}


/// The fields of an RFC 7807 JSON body, as decoded: members that are absent or
/// `null` are `None`, and an absent `invalidParams` member is an empty list.
#[derive(Debug, Clone, PartialEq, Eq)]
pub struct ProblemDocument {
    pub problem_type: Option<String>,
    pub title: Option<String>,
    pub status: Option<u16>,
    pub detail: Option<String>,
    pub instance: Option<String>,
    pub invalid_params: Vec<InvalidParam>,
}

/// The error details that a decoded RFC 7807 body stands for, if it has a type.
pub open spec fn details_of_document(doc: ProblemDocument) -> Option<ErrorDetailsView> {
    match doc.problem_type {
        Some(t) => Some(ErrorDetailsView {
            error_type: slug_of(t@),
            title: match doc.title {
                Some(title) => title@,
                None => "Error"@,
            },
            message: opt_view(doc.detail),
            invalid_params: param_views(doc.invalid_params@),
        }),
        None => None,
    }
}

/// Turns a decoded RFC 7807 body into error details.
///
/// RFC 7807 requires a `type` member (it may be "about:blank"); without one the
/// body is not Problem Details and the result is `None`. A missing title becomes "Error".
pub fn error_details_from_document(doc: ProblemDocument) -> (details: Option<ErrorDetails>)
    ensures
        match details {
            Some(d) => details_of_document(doc) == Some(d@),
            None => details_of_document(doc) is None,
        },
{
    let ProblemDocument { problem_type, title, status: _, detail, instance: _, invalid_params } = doc;
    match problem_type {
        None => None,
        Some(t) => {
            let title = match title {
                Some(title) => title,
                None => "Error".to_string(),
            };
            Some(ErrorDetails {
                error_type: extract_error_type_slug(t.as_str()),
                title,
                message: detail,
                invalid_params,
            })
        },
    }
}

/// An invalid parameter as the generated OpenAPI model holds it.
#[derive(Debug, Clone, PartialEq, Eq)]
pub struct InvalidParamResponse {
    pub name: String,
    pub reason: String,
    pub value: Option<String>,
    pub expected_values: Option<Vec<String>>,
}

/// An RFC 7807 error response body as the generated OpenAPI model holds it.
#[derive(Debug, Clone, PartialEq, Eq)]
pub struct ProblemResponse {
    pub problem_type: String,
    pub title: String,
    pub status: Option<u16>,
    pub detail: Option<String>,
    pub instance: Option<String>,
    pub invalid_params: Option<Vec<InvalidParamResponse>>,
}

/// The view of the strings held by an optional list, empty when absent.
pub open spec fn opt_list_views(o: Option<Vec<String>>) -> Seq<Seq<char>> {
    match o {
        Some(v) => views(v@),
        None => Seq::empty(),
    }
}

/// The domain value of a generated invalid parameter.
pub open spec fn param_of_response(p: InvalidParamResponse) -> InvalidParamView {
    InvalidParamView {
        name: p.name@,
        reason: p.reason@,
        value: opt_view(p.value),
        expected_values: opt_list_views(p.expected_values),
    }
}

/// Converts a generated invalid parameter into the domain type; absent expected values become none.
pub fn convert_invalid_param(param: InvalidParamResponse) -> (out: InvalidParam)
    ensures
        out@ == param_of_response(param),
{
    let InvalidParamResponse { name, reason, value, expected_values } = param;
    let expected_values = match expected_values {
        Some(v) => v,
        None => Vec::new(),
    };
    let out = InvalidParam { name, reason, value, expected_values };
    assert(out@.expected_values =~= opt_list_views(param.expected_values));
    out
}

/// The domain values of a list of generated invalid parameters.
pub open spec fn params_of_responses(v: Seq<InvalidParamResponse>) -> Seq<InvalidParamView> {
    v.map_values(|p: InvalidParamResponse| param_of_response(p))
}

/// Converts every generated invalid parameter of a list, in order.
pub fn convert_invalid_params(params: Vec<InvalidParamResponse>) -> (out: Vec<InvalidParam>)
    ensures
        param_views(out@) == params_of_responses(params@),
{
    let mut params = params;
    let mut out: Vec<InvalidParam> = Vec::new();
    let ghost all = params@;
    while params.len() > 0
        invariant
            out@.len() + params@.len() == all.len(),
            params@ == all.skip(out@.len() as int),
            forall|j: int| 0 <= j < out@.len() ==> out@[j]@ == param_of_response(all[j]),
        decreases params@.len(),
    {
        let ghost k = out@.len() as int;
        let p = params.remove(0);
        assert(p == all[k]);
        out.push(convert_invalid_param(p));
        assert(params@ =~= all.skip(out@.len() as int));
    }
    assert(param_views(out@) =~= params_of_responses(all));
    out
}

/// The error details that a generated RFC 7807 response stands for.
pub open spec fn details_of_response(e: ProblemResponse) -> ErrorDetailsView {
    ErrorDetailsView {
        error_type: slug_of(e.problem_type@),
        title: e.title@,
        message: opt_view(e.detail),
        invalid_params: match e.invalid_params {
            Some(v) => params_of_responses(v@),
            None => Seq::empty(),
        },
    }
}

/// Converts a generated OpenAPI error response into error details.
pub fn convert_error_details(e: ProblemResponse) -> (details: ErrorDetails)
    ensures
        details@ == details_of_response(e),
{
    let ProblemResponse { problem_type, title, status: _, detail, instance: _, invalid_params } = e;
    let invalid_params = match invalid_params {
        Some(v) => convert_invalid_params(v),
        None => Vec::new(),
    };
    let details = ErrorDetails {
        error_type: extract_error_type_slug(problem_type.as_str()),
        title,
        message: detail,
        invalid_params,
    };
    assert(details@.invalid_params =~= details_of_response(e).invalid_params);
    details
}

} // verus!

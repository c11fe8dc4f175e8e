//! Classification of failed HTTP calls to the admin API into domain errors.

use vstd::prelude::*;
use crate::problem::{
    opt_view, convert_error_details, details_of_document, details_of_response, error_details_from_document,
    fallback_details_view, fallback_error_details, ErrorDetails, ErrorDetailsView, ProblemDocument,
    ProblemResponse, ValidationError,
};
use crate::text::{decimal, format_http_status, format_unexpected_response};

verus! {

broadcast use vstd::string::group_string_axioms;

/// The error of an admin API operation.
#[derive(Debug, Clone, PartialEq, Eq)]
pub enum AdminError {
    BadRequest(ErrorDetails),
    Unauthenticated(String),
    PermissionDenied(String),
    NotFound(ErrorDetails),
    AlreadyExists,
    /// A precondition failed: with the server's message, or with none where the
    /// operation reports none (undeleting an app that is not deleted).
    FailedPrecondition(Option<String>),
    InvalidToken(String),
    InvalidIdToken(String),
    InvalidSessionCookie(String),
    QuotaExceeded(String),
    ServiceError(String),
    ServiceUnavailable(String),
    Unknown(String),
    ResponseValidationError(ValidationError),
    NotConnected,
}

/// The mathematical value of an admin API error.
pub enum AdminErrorView {
    BadRequest(ErrorDetailsView),
    Unauthenticated(Seq<char>),
    PermissionDenied(Seq<char>),
    NotFound(ErrorDetailsView),
    AlreadyExists,
    FailedPrecondition(Option<Seq<char>>),
    InvalidToken(Seq<char>),
    InvalidIdToken(Seq<char>),
    InvalidSessionCookie(Seq<char>),
    QuotaExceeded(Seq<char>),
    ServiceError(Seq<char>),
    ServiceUnavailable(Seq<char>),
    Unknown(Seq<char>),
    ResponseValidationError(ValidationError),
    NotConnected,
}

impl View for AdminError {
    type V = AdminErrorView;

    open spec fn view(&self) -> AdminErrorView {
        match self {
            AdminError::BadRequest(d) => AdminErrorView::BadRequest(d@),
            AdminError::Unauthenticated(m) => AdminErrorView::Unauthenticated(m@),
            AdminError::PermissionDenied(m) => AdminErrorView::PermissionDenied(m@),
            AdminError::NotFound(d) => AdminErrorView::NotFound(d@),
            AdminError::AlreadyExists => AdminErrorView::AlreadyExists,
            AdminError::FailedPrecondition(m) => AdminErrorView::FailedPrecondition(opt_view(*m)),
            AdminError::InvalidToken(m) => AdminErrorView::InvalidToken(m@),
            AdminError::InvalidIdToken(m) => AdminErrorView::InvalidIdToken(m@),
            AdminError::InvalidSessionCookie(m) => AdminErrorView::InvalidSessionCookie(m@),
            AdminError::QuotaExceeded(m) => AdminErrorView::QuotaExceeded(m@),
            AdminError::ServiceError(m) => AdminErrorView::ServiceError(m@),
            AdminError::ServiceUnavailable(m) => AdminErrorView::ServiceUnavailable(m@),
            AdminError::Unknown(m) => AdminErrorView::Unknown(m@),
            AdminError::ResponseValidationError(e) => AdminErrorView::ResponseValidationError(*e),
            AdminError::NotConnected => AdminErrorView::NotConnected,
        }
    }
}

/// What an operation reports for HTTP 404.
#[derive(Debug, Clone, Copy, PartialEq, Eq, Structural)]
pub enum NotFoundRule {
    /// `NotFound` with error details.
    Details,
    /// `InvalidToken` with the message (ID token verification).
    InvalidToken,
    /// `InvalidIdToken` with the message (session cookie creation).
    InvalidIdToken,
    /// `InvalidSessionCookie` with the message (session cookie verification).
    InvalidSessionCookie,
    /// The operation does not expect 404; it is reported as unknown.
    Unmapped,
}

/// What an operation reports for HTTP 409.
#[derive(Debug, Clone, Copy, PartialEq, Eq, Structural)]
pub enum ConflictRule {
    /// The operation does not expect 409; it is reported as unknown.
    Unmapped,
    AlreadyExists,
    /// `FailedPrecondition` with the message (undeleting a project).
    FailedPrecondition,
    /// `FailedPrecondition` without a message (undeleting an app).
    FailedPreconditionNoMessage,
}

/// How an unexpected response body that the client could not type is reported.
#[derive(Debug, Clone, Copy, PartialEq, Eq, Structural)]
pub enum UnknownValueRule {
    /// The body's JSON text as it is.
    Plain,
    /// "Server returned an unexpected response: {body}."
    Described,
}

/// The operation-specific parts of error classification.
#[derive(Debug, Clone, Copy, PartialEq, Eq, Structural)]
pub struct ErrorProfile {
    pub not_found: NotFoundRule,
    pub conflict: ConflictRule,
    pub unknown_value: UnknownValueRule,
}

/// The error for a message under a non-`Details` 404 rule.
pub open spec fn not_found_message_view(rule: NotFoundRule, message: Seq<char>) -> AdminErrorView {
    match rule {
        NotFoundRule::InvalidToken => AdminErrorView::InvalidToken(message),
        NotFoundRule::InvalidIdToken => AdminErrorView::InvalidIdToken(message),
        _ => AdminErrorView::InvalidSessionCookie(message),
    }
}

/// The error for a message under a mapped 409 rule.
pub open spec fn conflict_view(rule: ConflictRule, message: Seq<char>) -> AdminErrorView {
    match rule {
        ConflictRule::AlreadyExists => AdminErrorView::AlreadyExists,
        ConflictRule::FailedPreconditionNoMessage => AdminErrorView::FailedPrecondition(None),
        _ => AdminErrorView::FailedPrecondition(Some(message)),
    }
}

/// The 409 error of a profile that maps 409, for a message.
fn conflict_error(rule: ConflictRule, message: String) -> (e: AdminError)
    requires
        rule != ConflictRule::Unmapped,
    ensures
        e@ == conflict_view(rule, message@),
{
    match rule {
        ConflictRule::AlreadyExists => AdminError::AlreadyExists,
        ConflictRule::FailedPreconditionNoMessage => AdminError::FailedPrecondition(None),
        _ => AdminError::FailedPrecondition(Some(message)),
    }
}

/// The text of the "HTTP {status}: {content}" message.
pub open spec fn http_status_text(status: u16, content: Seq<char>) -> Seq<char> {
    "HTTP "@ + decimal(status as nat) + ": "@ + content
}

/// Classification by status code alone, with the raw response body: the last
/// resort when the body is neither Problem Details nor a typed error.
pub open spec fn fallback_error_view(status: u16, content: Seq<char>, profile: ErrorProfile) -> AdminErrorView {
    if status == 400 {
        AdminErrorView::BadRequest(fallback_details_view(content))
    } else if status == 401 {
        AdminErrorView::Unauthenticated(content)
    } else if status == 403 {
        AdminErrorView::PermissionDenied(content)
    } else if status == 404 && profile.not_found != NotFoundRule::Unmapped {
        if profile.not_found == NotFoundRule::Details {
            AdminErrorView::NotFound(fallback_details_view(content))
        } else {
            not_found_message_view(profile.not_found, content)
        }
    } else if status == 409 && profile.conflict != ConflictRule::Unmapped {
        conflict_view(profile.conflict, content)
    } else if 500 <= status <= 599 {
        AdminErrorView::ServiceError(content)
    } else {
        AdminErrorView::Unknown(http_status_text(status, content))
    }
}

/// The 404 error of a profile, for error details and their message.
fn not_found_error(rule: NotFoundRule, details: ErrorDetails, message: String) -> (e: AdminError)
    requires
        rule != NotFoundRule::Unmapped,
    ensures
        e@ == (if rule == NotFoundRule::Details {
            AdminErrorView::NotFound(details@)
        } else {
            not_found_message_view(rule, message@)
        }),
{
    match rule {
        NotFoundRule::Details => AdminError::NotFound(details),
        NotFoundRule::InvalidToken => AdminError::InvalidToken(message),
        NotFoundRule::InvalidIdToken => AdminError::InvalidIdToken(message),
        _ => AdminError::InvalidSessionCookie(message),
    }
}

/// Classifies a failed response by status code, with the raw body as message.
pub fn error_from_status(status: u16, content: String, profile: ErrorProfile) -> (e: AdminError)
    ensures
        e@ == fallback_error_view(status, content@, profile),
{
    if status == 400 {
        AdminError::BadRequest(fallback_error_details(content))
    } else if status == 401 {
        AdminError::Unauthenticated(content)
    } else if status == 403 {
        AdminError::PermissionDenied(content)
    } else if status == 404 && profile.not_found != NotFoundRule::Unmapped {
        if profile.not_found == NotFoundRule::Details {
            AdminError::NotFound(fallback_error_details(content))
        } else {
            let details = fallback_error_details(String::new());
            not_found_error(profile.not_found, details, content)
        }
    } else if status == 409 && profile.conflict != ConflictRule::Unmapped {
        conflict_error(profile.conflict, content)
    } else if 500 <= status && status <= 599 {
        AdminError::ServiceError(content)
    } else {
        AdminError::Unknown(format_http_status(status, content.as_str()))
    }
}

/// The message of error details: their message, or else their title.
pub open spec fn message_or_title(d: ErrorDetailsView) -> Seq<char> {
    match d.message {
        Some(m) => m,
        None => d.title,
    }
}

/// Classification of a failed response whose body is RFC 7807 Problem Details.
pub open spec fn problem_error_view(status: u16, problem: ErrorDetailsView, profile: ErrorProfile) -> AdminErrorView {
    if status == 400 {
        AdminErrorView::BadRequest(problem)
    } else if status == 401 {
        AdminErrorView::Unauthenticated(message_or_title(problem))
    } else if status == 403 {
        AdminErrorView::PermissionDenied(message_or_title(problem))
    } else if status == 404 && profile.not_found != NotFoundRule::Unmapped {
        if profile.not_found == NotFoundRule::Details {
            AdminErrorView::NotFound(problem)
        } else {
            not_found_message_view(profile.not_found, message_or_title(problem))
        }
    } else if status == 409 && profile.conflict != ConflictRule::Unmapped {
        conflict_view(profile.conflict, message_or_title(problem))
    } else if 500 <= status <= 599 {
        AdminErrorView::ServiceError(message_or_title(problem))
    } else {
        AdminErrorView::Unknown(http_status_text(status, message_or_title(problem)))
    }
}

/// The message of error details, moved out: the message, or else the title.
fn into_message(problem: ErrorDetails) -> (m: String)
    ensures
        m@ == message_or_title(problem@),
{
    match problem.message {
        Some(m) => m,
        None => problem.title,
    }
}

/// Classifies a failed response whose body parsed as RFC 7807 Problem Details.
pub fn error_from_problem(status: u16, problem: ErrorDetails, profile: ErrorProfile) -> (e: AdminError)
    ensures
        e@ == problem_error_view(status, problem@, profile),
{
    if status == 400 {
        AdminError::BadRequest(problem)
    } else if status == 401 {
        AdminError::Unauthenticated(into_message(problem))
    } else if status == 403 {
        AdminError::PermissionDenied(into_message(problem))
    } else if status == 404 && profile.not_found != NotFoundRule::Unmapped {
        if profile.not_found == NotFoundRule::Details {
            AdminError::NotFound(problem)
        } else {
            let details = fallback_error_details(String::new());
            not_found_error(profile.not_found, details, into_message(problem))
        }
    } else if status == 409 && profile.conflict != ConflictRule::Unmapped {
        conflict_error(profile.conflict, into_message(problem))
    } else if 500 <= status && status <= 599 {
        AdminError::ServiceError(into_message(problem))
    } else {
        let m = into_message(problem);
        AdminError::Unknown(format_http_status(status, m.as_str()))
    }
}


/// A typed error body, as the generated client decodes it for each status it knows.
#[derive(Debug, Clone, PartialEq, Eq)]
pub enum ErrorEntity {
    Status400(ProblemResponse),
    Status401(ProblemResponse),
    Status403(ProblemResponse),
    Status404(ProblemResponse),
    Status409(ProblemResponse),
    Status500(ProblemResponse),
    Status503(ProblemResponse),
    /// A body of no known shape, as its JSON text.
    UnknownValue(String),
}

/// The detail of a generated error body, or else its title.
pub open spec fn detail_or_title(e: ProblemResponse) -> Seq<char> {
    match e.detail {
        Some(d) => d@,
        None => e.title@,
    }
}

/// The domain error that a typed error body stands for.
pub open spec fn entity_error_view(entity: ErrorEntity, profile: ErrorProfile) -> AdminErrorView {
    match entity {
        ErrorEntity::Status400(e) => AdminErrorView::BadRequest(details_of_response(e)),
        ErrorEntity::Status401(e) => AdminErrorView::Unauthenticated(detail_or_title(e)),
        ErrorEntity::Status403(e) => AdminErrorView::PermissionDenied(detail_or_title(e)),
        ErrorEntity::Status404(e) => match profile.not_found {
            NotFoundRule::Details => AdminErrorView::NotFound(details_of_response(e)),
            NotFoundRule::Unmapped => AdminErrorView::Unknown(http_status_text(404, detail_or_title(e))),
            rule => not_found_message_view(rule, detail_or_title(e)),
        },
        ErrorEntity::Status409(e) => match profile.conflict {
            ConflictRule::Unmapped => AdminErrorView::Unknown(http_status_text(409, detail_or_title(e))),
            rule => conflict_view(rule, detail_or_title(e)),
        },
        ErrorEntity::Status500(e) => AdminErrorView::ServiceError(detail_or_title(e)),
        ErrorEntity::Status503(e) => AdminErrorView::ServiceUnavailable(detail_or_title(e)),
        ErrorEntity::UnknownValue(v) => match profile.unknown_value {
            UnknownValueRule::Plain => AdminErrorView::Unknown(v@),
            UnknownValueRule::Described => AdminErrorView::Unknown(
                "Server returned an unexpected response: "@ + v@ + "."@,
            ),
        },
    }
}

/// The detail of a generated error body, or else its title, moved out.
fn into_detail(e: ProblemResponse) -> (m: String)
    ensures
        m@ == detail_or_title(e),
{
    match e.detail {
        Some(d) => d,
        None => e.title,
    }
}

/// Converts a typed error body into the operation's error.
pub fn error_from_entity(entity: ErrorEntity, profile: ErrorProfile) -> (e: AdminError)
    ensures
        e@ == entity_error_view(entity, profile),
{
    match entity {
        ErrorEntity::Status400(e) => AdminError::BadRequest(convert_error_details(e)),
        ErrorEntity::Status401(e) => AdminError::Unauthenticated(into_detail(e)),
        ErrorEntity::Status403(e) => AdminError::PermissionDenied(into_detail(e)),
        ErrorEntity::Status404(e) => match profile.not_found {
            NotFoundRule::Details => AdminError::NotFound(convert_error_details(e)),
            NotFoundRule::Unmapped => {
                let m = into_detail(e);
                AdminError::Unknown(format_http_status(404, m.as_str()))
            },
            rule => {
                let details = fallback_error_details(String::new());
                not_found_error(rule, details, into_detail(e))
            },
        },
        ErrorEntity::Status409(e) => match profile.conflict {
            ConflictRule::Unmapped => {
                let m = into_detail(e);
                AdminError::Unknown(format_http_status(409, m.as_str()))
            },
            rule => conflict_error(rule, into_detail(e)),
        },
        ErrorEntity::Status500(e) => AdminError::ServiceError(into_detail(e)),
        ErrorEntity::Status503(e) => AdminError::ServiceUnavailable(into_detail(e)),
        ErrorEntity::UnknownValue(v) => match profile.unknown_value {
            UnknownValueRule::Plain => AdminError::Unknown(v),
            UnknownValueRule::Described => AdminError::Unknown(format_unexpected_response(v.as_str())),
        },
    }
}

/// How a call to the admin API failed.
#[derive(Debug, Clone, PartialEq, Eq)]
pub enum ApiFailure {
    /// The server answered with an error status.
    Response { status: u16, content: String, entity: Option<ErrorEntity> },
    /// The request could not be sent or its answer not received.
    Transport(String),
    /// Any other failure (such as a body that could not be decoded).
    Other,
}

/// The message of a failure that is neither a response nor a transport error.
pub open spec fn unknown_failure_message() -> Seq<char> {
    "Unknown error occurred"@
}

/// The error of a failed call when the typed error body, if any, is trusted
/// first and the status code is the last resort.
pub open spec fn api_error_view(failure: ApiFailure, profile: ErrorProfile) -> AdminErrorView {
    match failure {
        ApiFailure::Response { status, content, entity } => match entity {
            Some(en) => entity_error_view(en, profile),
            None => fallback_error_view(status, content@, profile),
        },
        ApiFailure::Transport(m) => AdminErrorView::ServiceUnavailable(m@),
        ApiFailure::Other => AdminErrorView::ServiceError(unknown_failure_message()),
    }
}

/// Converts a failed call into the operation's error: the typed error body when
/// the client decoded one, otherwise the status code with the raw body.
pub fn handle_api_error(failure: ApiFailure, profile: ErrorProfile) -> (e: AdminError)
    ensures
        e@ == api_error_view(failure, profile),
{
    match failure {
        ApiFailure::Response { status, content, entity } => match entity {
            Some(en) => error_from_entity(en, profile),
            None => error_from_status(status, content, profile),
        },
        ApiFailure::Transport(m) => AdminError::ServiceUnavailable(m),
        ApiFailure::Other => AdminError::ServiceError("Unknown error occurred".to_string()),
    }
}

/// Whether a typed error body is one the client could type.
pub open spec fn is_typed(entity: Option<ErrorEntity>) -> bool {
    match entity {
        Some(ErrorEntity::UnknownValue(_)) => false,
        Some(_) => true,
        None => false,
    }
}

/// The error of a failed call when the body is first read as RFC 7807 Problem
/// Details (`document` is the body decoded as such, if it decoded), then as a
/// typed error body, and the status code is the last resort.
pub open spec fn problem_first_error_view(
    failure: ApiFailure,
    document: Option<ProblemDocument>,
    profile: ErrorProfile,
) -> AdminErrorView {
    match failure {
        ApiFailure::Response { status, content, entity } => {
            let problem = match document {
                Some(doc) => details_of_document(doc),
                None => None,
            };
            match problem {
                Some(p) => problem_error_view(status, p, profile),
                None => if is_typed(entity) {
                    entity_error_view(entity->0, profile)
                } else {
                    fallback_error_view(status, content@, profile)
                },
            }
        },
        ApiFailure::Transport(m) => AdminErrorView::ServiceUnavailable(m@),
        ApiFailure::Other => AdminErrorView::ServiceError(unknown_failure_message()),
    }
}

/// Converts a failed call into the operation's error, reading the body as RFC
/// 7807 Problem Details first. `document` is the response body decoded as a
/// Problem Details JSON object, or `None` when it does not decode as one.
pub fn error_from_failure(
    failure: ApiFailure,
    document: Option<ProblemDocument>,
    profile: ErrorProfile,
) -> (e: AdminError)
    ensures
        e@ == problem_first_error_view(failure, document, profile),
{
    match failure {
        ApiFailure::Response { status, content, entity } => {
            let problem = match document {
                Some(doc) => error_details_from_document(doc),
                None => None,
            };
            match problem {
                Some(p) => error_from_problem(status, p, profile),
                None => match entity {
                    Some(ErrorEntity::UnknownValue(_)) => error_from_status(status, content, profile),
                    Some(en) => error_from_entity(en, profile),
                    None => error_from_status(status, content, profile),
                },
            }
        },
        ApiFailure::Transport(m) => AdminError::ServiceUnavailable(m),
        ApiFailure::Other => AdminError::ServiceError("Unknown error occurred".to_string()),
    }
}

/// An error body of the older `{code, message}` shape.
#[derive(Debug, Clone, PartialEq, Eq)]
pub struct CodedError {
    pub code: String,
    pub message: String,
}

/// A typed error body of the older shape, as the generated client decodes it.
#[derive(Debug, Clone, PartialEq, Eq)]
pub enum CodedErrorEntity {
    Status400(CodedError),
    Status401(CodedError),
    Status403(CodedError),
    Status404(CodedError),
    Status409(CodedError),
    /// A body of no known shape, as its JSON text.
    UnknownValue(String),
}

/// The errors of the operations whose error bodies have the older shape
/// (creating an app, getting a tenant).
#[derive(Debug, Clone, PartialEq, Eq)]
pub enum CodedOperationError {
    BadRequest(String),
    Unauthenticated(String),
    PermissionDenied(String),
    NotFound,
    AlreadyExists,
    ServiceError(String),
    ServiceUnavailable(String),
    Unknown(String),
}

/// The mathematical value of such an error.
pub enum CodedOperationErrorView {
    BadRequest(Seq<char>),
    Unauthenticated(Seq<char>),
    PermissionDenied(Seq<char>),
    NotFound,
    AlreadyExists,
    ServiceError(Seq<char>),
    ServiceUnavailable(Seq<char>),
    Unknown(Seq<char>),
}

impl View for CodedOperationError {
    type V = CodedOperationErrorView;

    open spec fn view(&self) -> CodedOperationErrorView {
        match self {
            CodedOperationError::BadRequest(m) => CodedOperationErrorView::BadRequest(m@),
            CodedOperationError::Unauthenticated(m) => CodedOperationErrorView::Unauthenticated(m@),
            CodedOperationError::PermissionDenied(m) => CodedOperationErrorView::PermissionDenied(m@),
            CodedOperationError::NotFound => CodedOperationErrorView::NotFound,
            CodedOperationError::AlreadyExists => CodedOperationErrorView::AlreadyExists,
            CodedOperationError::ServiceError(m) => CodedOperationErrorView::ServiceError(m@),
            CodedOperationError::ServiceUnavailable(m) => CodedOperationErrorView::ServiceUnavailable(m@),
            CodedOperationError::Unknown(m) => CodedOperationErrorView::Unknown(m@),
        }
    }
}

/// How a call to an operation with older-shape error bodies failed. The status
/// is given as the HTTP library displays it ("404 Not Found").
#[derive(Debug, Clone, PartialEq, Eq)]
pub enum CodedFailure {
    Response { status_text: String, content: String, entity: Option<CodedErrorEntity> },
    Transport(String),
    Other,
}

/// The text of an older-shape error body: "{code}: {message}".
pub open spec fn coded_text(e: CodedError) -> Seq<char> {
    e.code@ + ": "@ + e.message@
}

/// The error of a failed call to an operation with older-shape error bodies: the
/// typed body when there is one, else the status line with the raw body.
pub open spec fn coded_error_view(failure: CodedFailure) -> CodedOperationErrorView {
    match failure {
        CodedFailure::Response { status_text, content, entity } => match entity {
            Some(CodedErrorEntity::Status400(e)) => CodedOperationErrorView::BadRequest(coded_text(e)),
            Some(CodedErrorEntity::Status401(e)) => CodedOperationErrorView::Unauthenticated(coded_text(e)),
            Some(CodedErrorEntity::Status403(e)) => CodedOperationErrorView::PermissionDenied(coded_text(e)),
            Some(CodedErrorEntity::Status404(_)) => CodedOperationErrorView::NotFound,
            Some(CodedErrorEntity::Status409(_)) => CodedOperationErrorView::AlreadyExists,
            Some(CodedErrorEntity::UnknownValue(v)) => CodedOperationErrorView::Unknown(
                "Server returned an unexpected response: "@ + v@ + "."@,
            ),
            None => CodedOperationErrorView::Unknown("HTTP "@ + status_text@ + ": "@ + content@),
        },
        CodedFailure::Transport(m) => CodedOperationErrorView::ServiceUnavailable(m@),
        CodedFailure::Other => CodedOperationErrorView::ServiceError(unknown_failure_message()),
    }
}

fn coded_message(e: CodedError) -> (m: String)
    ensures
        m@ == coded_text(e),
{
    let mut m = e.code;
    m.append(": ");
    m.append(e.message.as_str());
    m
}

/// Converts a failed call to an operation with older-shape error bodies into its error.
pub fn coded_error_from_failure(failure: CodedFailure) -> (e: CodedOperationError)
    ensures
        e@ == coded_error_view(failure),
{
    proof {
        reveal_strlit(": ");
    }
    match failure {
        CodedFailure::Response { status_text, content, entity } => match entity {
            Some(CodedErrorEntity::Status400(e)) => CodedOperationError::BadRequest(coded_message(e)),
            Some(CodedErrorEntity::Status401(e)) => CodedOperationError::Unauthenticated(coded_message(e)),
            Some(CodedErrorEntity::Status403(e)) => CodedOperationError::PermissionDenied(coded_message(e)),
            Some(CodedErrorEntity::Status404(_)) => CodedOperationError::NotFound,
            Some(CodedErrorEntity::Status409(_)) => CodedOperationError::AlreadyExists,
            Some(CodedErrorEntity::UnknownValue(v)) => CodedOperationError::Unknown(
                format_unexpected_response(v.as_str()),
            ),
            None => {
                let mut m = "HTTP ".to_string();
                m.append(status_text.as_str());
                m.append(": ");
                m.append(content.as_str());
                CodedOperationError::Unknown(m)
            },
        },
        CodedFailure::Transport(m) => CodedOperationError::ServiceUnavailable(m),
        CodedFailure::Other => CodedOperationError::ServiceError("Unknown error occurred".to_string()),
    }
}

} // verus!

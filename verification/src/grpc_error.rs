//! Classification of failed gRPC calls to the admin API into domain errors.

use vstd::prelude::*;
use crate::problem::{ProblemDetails, ProblemDetailsView, ValidationError};
use crate::status::{
    info_views, problem_details_from_parts, problem_of_status, status_code_number, status_code_of,
    status_error_infos, status_infos_of, status_message, status_message_of, ErrorInfoView,
    StatusErrorInfo, CODE_ALREADY_EXISTS, CODE_INTERNAL, CODE_INVALID_ARGUMENT, CODE_NOT_FOUND,
    CODE_PERMISSION_DENIED, CODE_RESOURCE_EXHAUSTED, CODE_UNAUTHENTICATED, CODE_UNAVAILABLE,
};

verus! {

/// The error of an admin API operation made over gRPC.
#[derive(Debug, Clone, PartialEq, Eq)]
pub enum GrpcError {
    BadRequest(ProblemDetails),
    NotFound(ProblemDetails),
    AlreadyExists,
    QuotaExceeded(String),
    Unauthenticated(String),
    PermissionDenied(String),
    ServiceError(String),
    ServiceUnavailable(String),
    Unknown(String),
    ResponseValidationError(ValidationError),
}

/// The mathematical value of a gRPC operation error.
pub enum GrpcErrorView {
    BadRequest(ProblemDetailsView),
    NotFound(ProblemDetailsView),
    AlreadyExists,
    QuotaExceeded(Seq<char>),
    Unauthenticated(Seq<char>),
    PermissionDenied(Seq<char>),
    ServiceError(Seq<char>),
    ServiceUnavailable(Seq<char>),
    Unknown(Seq<char>),
    ResponseValidationError(ValidationError),
}

impl View for GrpcError {
    type V = GrpcErrorView;

    open spec fn view(&self) -> GrpcErrorView {
        match self {
            GrpcError::BadRequest(p) => GrpcErrorView::BadRequest(p@),
            GrpcError::NotFound(p) => GrpcErrorView::NotFound(p@),
            GrpcError::AlreadyExists => GrpcErrorView::AlreadyExists,
            GrpcError::QuotaExceeded(m) => GrpcErrorView::QuotaExceeded(m@),
            GrpcError::Unauthenticated(m) => GrpcErrorView::Unauthenticated(m@),
            GrpcError::PermissionDenied(m) => GrpcErrorView::PermissionDenied(m@),
            GrpcError::ServiceError(m) => GrpcErrorView::ServiceError(m@),
            GrpcError::ServiceUnavailable(m) => GrpcErrorView::ServiceUnavailable(m@),
            GrpcError::Unknown(m) => GrpcErrorView::Unknown(m@),
            GrpcError::ResponseValidationError(e) => GrpcErrorView::ResponseValidationError(*e),
        }
    }
}

/// The status codes that an operation reports with their own error, beyond the common ones.
#[derive(Debug, Clone, Copy, PartialEq, Eq, Structural)]
pub struct GrpcErrorProfile {
    /// `ALREADY_EXISTS` is reported as `AlreadyExists` (user updates).
    pub already_exists: bool,
    /// `RESOURCE_EXHAUSTED` is reported as `QuotaExceeded` (quota updates).
    pub quota_exceeded: bool,
}

/// The error that a failed gRPC call stands for, from its status code, message
/// and `ErrorInfo` details. Invalid arguments and missing resources carry Problem
/// Details with HTTP status 400 and 404; the other codes carry the message.
pub open spec fn grpc_error_view(
    code: i32,
    message: Seq<char>,
    infos: Seq<ErrorInfoView>,
    profile: GrpcErrorProfile,
) -> GrpcErrorView {
    if code == CODE_INVALID_ARGUMENT {
        GrpcErrorView::BadRequest(problem_of_status(code, message, infos, 400))
    } else if code == CODE_ALREADY_EXISTS && profile.already_exists {
        GrpcErrorView::AlreadyExists
    } else if code == CODE_NOT_FOUND {
        GrpcErrorView::NotFound(problem_of_status(code, message, infos, 404))
    } else if code == CODE_RESOURCE_EXHAUSTED && profile.quota_exceeded {
        GrpcErrorView::QuotaExceeded(message)
    } else if code == CODE_UNAUTHENTICATED {
        GrpcErrorView::Unauthenticated(message)
    } else if code == CODE_PERMISSION_DENIED {
        GrpcErrorView::PermissionDenied(message)
    } else if code == CODE_INTERNAL {
        GrpcErrorView::ServiceError(message)
    } else if code == CODE_UNAVAILABLE {
        GrpcErrorView::ServiceUnavailable(message)
    } else {
        GrpcErrorView::Unknown(message)
    }
}

/// An operation of the admin API over gRPC.
#[derive(Debug, Clone, Copy, PartialEq, Eq, Structural)]
pub enum GrpcOperation {
    UpdateTenant,
    UpdateTenantAuthProvider,
    UpdateTenantUser,
    GetProjectUsage,
    GetProjectQuotas,
    UpdateProjectQuotas,
}

/// The status codes that a gRPC operation reports with their own error: updating
/// a tenant user reports `ALREADY_EXISTS`, updating quotas `RESOURCE_EXHAUSTED`.
pub fn grpc_error_profile(op: GrpcOperation) -> (p: GrpcErrorProfile)
    ensures
        p.already_exists == (op is UpdateTenantUser),
        p.quota_exceeded == (op is UpdateProjectQuotas),
{
    match op {
        GrpcOperation::UpdateTenantUser => GrpcErrorProfile { already_exists: true, quota_exceeded: false },
        GrpcOperation::UpdateProjectQuotas => GrpcErrorProfile { already_exists: false, quota_exceeded: true },
        _ => GrpcErrorProfile { already_exists: false, quota_exceeded: false },
    }
}

/// Classifies a failed gRPC call from the parts of its status.
pub fn grpc_error_from_parts(
    code: i32,
    message: String,
    infos: &Vec<StatusErrorInfo>,
    profile: GrpcErrorProfile,
) -> (e: GrpcError)
    ensures
        e@ == grpc_error_view(code, message@, info_views(infos@), profile),
{
    if code == CODE_INVALID_ARGUMENT {
        GrpcError::BadRequest(problem_details_from_parts(code, message, infos, 400))
    } else if code == CODE_ALREADY_EXISTS && profile.already_exists {
        GrpcError::AlreadyExists
    } else if code == CODE_NOT_FOUND {
        GrpcError::NotFound(problem_details_from_parts(code, message, infos, 404))
    } else if code == CODE_RESOURCE_EXHAUSTED && profile.quota_exceeded {
        GrpcError::QuotaExceeded(message)
    } else if code == CODE_UNAUTHENTICATED {
        GrpcError::Unauthenticated(message)
    } else if code == CODE_PERMISSION_DENIED {
        GrpcError::PermissionDenied(message)
    } else if code == CODE_INTERNAL {
        GrpcError::ServiceError(message)
    } else if code == CODE_UNAVAILABLE {
        GrpcError::ServiceUnavailable(message)
    } else {
        GrpcError::Unknown(message)
    }
}

/// Classifies a failed gRPC call from its status.
pub fn grpc_error_from_status(status: &tonic::Status, profile: GrpcErrorProfile) -> (e: GrpcError)
    ensures
        e@ == grpc_error_view(status_code_of(*status), status_message_of(*status), status_infos_of(*status), profile),
{
    let code = status_code_number(status);
    let message = status_message(status);
    let infos = status_error_infos(status);
    grpc_error_from_parts(code, message, &infos, profile)
}

} // verus!

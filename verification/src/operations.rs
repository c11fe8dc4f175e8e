//! The operations of the admin API over HTTP, and how each one reports a failed call.

use vstd::prelude::*;
use crate::http_error::{
    api_error_view, error_from_failure, handle_api_error, problem_first_error_view, AdminError,
    AdminErrorView, ApiFailure, ConflictRule, ErrorProfile, NotFoundRule, UnknownValueRule,
};
use crate::problem::ProblemDocument;

verus! {

/// An operation of the admin API whose failures are classified into `AdminError`.
/// (Creating an app and getting a tenant report errors of the older shape; see
/// `coded_error_from_failure`.)
#[derive(Debug, Clone, Copy, PartialEq, Eq, Structural)]
pub enum AdminOperation {
    CreateProject,
    GetProject,
    UpdateProject,
    DeleteProject,
    UndeleteProject,
    ListProjects,
    SearchProjects,
    GetAdminSdkConfig,
    UpdateApp,
    DeleteApp,
    UndeleteApp,
    ListApps,
    SearchApps,
    GetAppConfig,
    CreateTenant,
    UpdateTenant,
    DeleteTenant,
    ListTenants,
    ListProjectAuthProviders,
    UpdateProjectAuthProvider,
    DeleteProjectAuthProvider,
    ListTenantAuthProviders,
    UpdateTenantAuthProvider,
    DeleteTenantAuthProvider,
    GetEffectiveTenantAuthProviders,
    CreateProjectUser,
    GetProjectUser,
    DeleteProjectUser,
    SearchProjectUsers,
    ImportProjectUsers,
    GetTenantUser,
    SearchTenantUsers,
    ImportTenantUsers,
    ListProjectUserMfaFactors,
    DeleteProjectUserMfaFactor,
    ListTenantUserMfaFactors,
    DeleteTenantUserMfaFactor,
    CreateApiKey,
    GetApiKey,
    UpdateApiKey,
    DeleteApiKey,
    ListApiKeys,
    RotateApiKey,
    CreateServiceAccount,
    GetServiceAccount,
    UpdateServiceAccount,
    DeleteServiceAccount,
    ListServiceAccounts,
    SearchServiceAccounts,
    GenerateServiceAccountKey,
    ListServiceAccountKeys,
    GetServiceAccountKey,
    DeleteServiceAccountKey,
    DisableServiceAccountKey,
    EnableServiceAccountKey,
    CreateCustomToken,
    VerifyIdToken,
    CreateSessionCookie,
    VerifySessionCookie,
    RevokeRefreshTokens,
    GetProjectUsage,
    GetProjectQuotas,
    UpdateProjectQuotas,
}

/// The order in which a failed response is read.
#[derive(Debug, Clone, Copy, PartialEq, Eq, Structural)]
pub enum FailurePolicy {
    /// First as RFC 7807 Problem Details, then as a typed error body, then by status.
    ProblemFirst,
    /// First as a typed error body, then by status.
    EntityFirst,
}

/// The operations that create a resource, for which 409 means it already exists.
pub open spec fn creates_resource(op: AdminOperation) -> bool {
    ||| op is CreateProject
    ||| op is CreateTenant
    ||| op is CreateProjectUser
    ||| op is CreateServiceAccount
}

/// The operations whose responses have no 404 of their own.
pub open spec fn has_no_not_found(op: AdminOperation) -> bool {
    op is CreateProject || op is ListProjects || op is SearchProjects
}

/// The operations on API keys.
pub open spec fn is_api_key_operation(op: AdminOperation) -> bool {
    ||| op is CreateApiKey
    ||| op is GetApiKey
    ||| op is UpdateApiKey
    ||| op is DeleteApiKey
    ||| op is ListApiKeys
    ||| op is RotateApiKey
}

/// The operations on second factors.
pub open spec fn is_mfa_operation(op: AdminOperation) -> bool {
    ||| op is ListProjectUserMfaFactors
    ||| op is DeleteProjectUserMfaFactor
    ||| op is ListTenantUserMfaFactors
    ||| op is DeleteTenantUserMfaFactor
}

/// The operations on tokens and session cookies.
pub open spec fn is_token_operation(op: AdminOperation) -> bool {
    ||| op is CreateCustomToken
    ||| op is VerifyIdToken
    ||| op is CreateSessionCookie
    ||| op is VerifySessionCookie
    ||| op is RevokeRefreshTokens
}

/// The operations on usage and quotas.
pub open spec fn is_usage_operation(op: AdminOperation) -> bool {
    op is GetProjectUsage || op is GetProjectQuotas || op is UpdateProjectQuotas
}

/// The operations on service accounts and their keys.
pub open spec fn is_service_account_operation(op: AdminOperation) -> bool {
    ||| op is CreateServiceAccount
    ||| op is GetServiceAccount
    ||| op is UpdateServiceAccount
    ||| op is DeleteServiceAccount
    ||| op is ListServiceAccounts
    ||| op is SearchServiceAccounts
    ||| op is GenerateServiceAccountKey
    ||| op is ListServiceAccountKeys
    ||| op is GetServiceAccountKey
    ||| op is DeleteServiceAccountKey
    ||| op is DisableServiceAccountKey
    ||| op is EnableServiceAccountKey
}

/// How an operation reports 404, 409 and bodies of no known shape. A 404 is
/// "not found" with error details, except for token verification (an invalid
/// token), session cookie creation (an invalid ID token), session cookie
/// verification (an invalid cookie), and the operations that have no 404. A 409
/// means "already exists" for creations and a failed precondition for undeletions.
/// A body of no known shape is reported as it is by the key, factor, token and
/// usage operations, and described by the others.
pub open spec fn operation_profile(op: AdminOperation) -> ErrorProfile {
    ErrorProfile {
        not_found: if op is VerifyIdToken {
            NotFoundRule::InvalidToken
        } else if op is CreateSessionCookie {
            NotFoundRule::InvalidIdToken
        } else if op is VerifySessionCookie {
            NotFoundRule::InvalidSessionCookie
        } else if has_no_not_found(op) {
            NotFoundRule::Unmapped
        } else {
            NotFoundRule::Details
        },
        conflict: if creates_resource(op) {
            ConflictRule::AlreadyExists
        } else if op is UndeleteProject {
            ConflictRule::FailedPrecondition
        } else if op is UndeleteApp {
            ConflictRule::FailedPreconditionNoMessage
        } else {
            ConflictRule::Unmapped
        },
        unknown_value: if is_api_key_operation(op) || is_mfa_operation(op) || is_token_operation(op)
            || is_usage_operation(op) {
            UnknownValueRule::Plain
        } else {
            UnknownValueRule::Described
        },
    }
}

/// The order in which an operation reads a failed response: the key, factor,
/// service account, token and usage operations trust the typed error body first.
pub open spec fn operation_policy(op: AdminOperation) -> FailurePolicy {
    if is_api_key_operation(op) || is_mfa_operation(op) || is_service_account_operation(op)
        || is_token_operation(op) || is_usage_operation(op) {
        FailurePolicy::EntityFirst
    } else {
        FailurePolicy::ProblemFirst
    }
}

/// How an operation reports 404, 409 and bodies of no known shape.
pub fn error_profile(op: AdminOperation) -> (p: ErrorProfile)
    ensures
        p == operation_profile(op),
{
    let not_found = match op {
        AdminOperation::VerifyIdToken => NotFoundRule::InvalidToken,
        AdminOperation::CreateSessionCookie => NotFoundRule::InvalidIdToken,
        AdminOperation::VerifySessionCookie => NotFoundRule::InvalidSessionCookie,
        AdminOperation::CreateProject | AdminOperation::ListProjects | AdminOperation::SearchProjects => {
            NotFoundRule::Unmapped
        },
        _ => NotFoundRule::Details,
    };
    let conflict = match op {
        AdminOperation::CreateProject
        | AdminOperation::CreateTenant
        | AdminOperation::CreateProjectUser
        | AdminOperation::CreateServiceAccount => ConflictRule::AlreadyExists,
        AdminOperation::UndeleteProject => ConflictRule::FailedPrecondition,
        AdminOperation::UndeleteApp => ConflictRule::FailedPreconditionNoMessage,
        _ => ConflictRule::Unmapped,
    };
    let unknown_value = match op {
        AdminOperation::CreateApiKey
        | AdminOperation::GetApiKey
        | AdminOperation::UpdateApiKey
        | AdminOperation::DeleteApiKey
        | AdminOperation::ListApiKeys
        | AdminOperation::RotateApiKey
        | AdminOperation::ListProjectUserMfaFactors
        | AdminOperation::DeleteProjectUserMfaFactor
        | AdminOperation::ListTenantUserMfaFactors
        | AdminOperation::DeleteTenantUserMfaFactor
        | AdminOperation::CreateCustomToken
        | AdminOperation::VerifyIdToken
        | AdminOperation::CreateSessionCookie
        | AdminOperation::VerifySessionCookie
        | AdminOperation::RevokeRefreshTokens
        | AdminOperation::GetProjectUsage
        | AdminOperation::GetProjectQuotas
        | AdminOperation::UpdateProjectQuotas => UnknownValueRule::Plain,
        _ => UnknownValueRule::Described,
    };
    ErrorProfile { not_found, conflict, unknown_value }
}

/// The order in which an operation reads a failed response.
pub fn failure_policy(op: AdminOperation) -> (p: FailurePolicy)
    ensures
        p == operation_policy(op),
{
    match op {
        AdminOperation::CreateApiKey
        | AdminOperation::GetApiKey
        | AdminOperation::UpdateApiKey
        | AdminOperation::DeleteApiKey
        | AdminOperation::ListApiKeys
        | AdminOperation::RotateApiKey
        | AdminOperation::ListProjectUserMfaFactors
        | AdminOperation::DeleteProjectUserMfaFactor
        | AdminOperation::ListTenantUserMfaFactors
        | AdminOperation::DeleteTenantUserMfaFactor
        | AdminOperation::CreateServiceAccount
        | AdminOperation::GetServiceAccount
        | AdminOperation::UpdateServiceAccount
        | AdminOperation::DeleteServiceAccount
        | AdminOperation::ListServiceAccounts
        | AdminOperation::SearchServiceAccounts
        | AdminOperation::GenerateServiceAccountKey
        | AdminOperation::ListServiceAccountKeys
        | AdminOperation::GetServiceAccountKey
        | AdminOperation::DeleteServiceAccountKey
        | AdminOperation::DisableServiceAccountKey
        | AdminOperation::EnableServiceAccountKey
        | AdminOperation::CreateCustomToken
        | AdminOperation::VerifyIdToken
        | AdminOperation::CreateSessionCookie
        | AdminOperation::VerifySessionCookie
        | AdminOperation::RevokeRefreshTokens
        | AdminOperation::GetProjectUsage
        | AdminOperation::GetProjectQuotas
        | AdminOperation::UpdateProjectQuotas => FailurePolicy::EntityFirst,
        _ => FailurePolicy::ProblemFirst,
    }
}

/// The error that an operation reports for a failed call. `document` is the
/// response body decoded as a Problem Details object, if it decoded; the
/// operations that trust the typed error body first do not read it.
pub open spec fn operation_error_view(
    op: AdminOperation,
    failure: ApiFailure,
    document: Option<ProblemDocument>,
) -> AdminErrorView {
    match operation_policy(op) {
        FailurePolicy::ProblemFirst => problem_first_error_view(failure, document, operation_profile(op)),
        FailurePolicy::EntityFirst => api_error_view(failure, operation_profile(op)),
    }
}

/// Converts a failed call of an operation into the error it reports.
pub fn operation_error(op: AdminOperation, failure: ApiFailure, document: Option<ProblemDocument>) -> (e: AdminError)
    ensures
        e@ == operation_error_view(op, failure, document),
{
    let profile = error_profile(op);
    match failure_policy(op) {
        FailurePolicy::ProblemFirst => error_from_failure(failure, document, profile),
        FailurePolicy::EntityFirst => handle_api_error(failure, profile),
    }
}

} // verus!

use pistachio_client::grpc_error::{grpc_error_profile, GrpcOperation};
use pistachio_client::operations::{error_profile, failure_policy, operation_error, AdminOperation, FailurePolicy};
use pistachio_client::http_error::{
    coded_error_from_failure, error_from_entity, error_from_failure, error_from_problem, error_from_status,
    handle_api_error, AdminError, ApiFailure, CodedError, CodedErrorEntity, CodedFailure, CodedOperationError,
    ConflictRule, ErrorEntity, ErrorProfile, NotFoundRule, UnknownValueRule,
};
use pistachio_client::problem::{
    convert_error_details, error_details_from_document, extract_error_type_slug, fallback_error_details,
    ErrorDetails, InvalidParam, InvalidParamResponse, ProblemDocument, ProblemResponse,
};

fn document(problem_type: Option<&str>, title: Option<&str>, detail: Option<&str>) -> ProblemDocument {
    ProblemDocument {
        problem_type: problem_type.map(str::to_string),
        title: title.map(str::to_string),
        status: None,
        detail: detail.map(str::to_string),
        instance: None,
        invalid_params: Vec::new(),
    }
}

fn details_profile() -> ErrorProfile {
    ErrorProfile {
        not_found: NotFoundRule::Details,
        conflict: ConflictRule::AlreadyExists,
        unknown_value: UnknownValueRule::Described,
    }
}

#[test]
fn test_extract_error_type_slug() {
    assert_eq!(extract_error_type_slug("https://docs.pistachiohq.com/errors/not_found"), "not_found");
    assert_eq!(extract_error_type_slug("https://docs.pistachiohq.com/errors/already_exists"), "already_exists");
    assert_eq!(extract_error_type_slug("some_error"), "some_error");
}

#[test]
fn full_problem_document_reads_as_details() {
    let mut doc = document(
        Some("https://docs.pistachiohq.com/errors/project_not_found"),
        Some("Not Found"),
        Some("Project not found: my-project"),
    );
    doc.status = Some(404);
    let details = error_details_from_document(doc).unwrap();
    assert_eq!(details.error_type, "project_not_found");
    assert_eq!(details.title, "Not Found");
    assert_eq!(details.message, Some("Project not found: my-project".to_string()));
}

#[test]
fn minimal_problem_document_gets_default_title() {
    let details = error_details_from_document(document(Some("https://docs.pistachiohq.com/errors/unknown"), None, None)).unwrap();
    assert_eq!(details.error_type, "unknown");
    assert_eq!(details.title, "Error");
    assert_eq!(details.message, None);
}

#[test]
fn problem_document_without_type_is_not_problem_details() {
    let mut doc = document(None, Some("Error"), None);
    doc.status = Some(500);
    assert!(error_details_from_document(doc).is_none());
}

#[test]
fn problem_document_keeps_invalid_params() {
    let mut doc = document(Some("https://docs.pistachiohq.com/errors/invalid_parameter"), None, None);
    doc.invalid_params = vec![InvalidParam {
        name: "page_size".to_string(),
        reason: "too large".to_string(),
        value: Some("1000".to_string()),
        expected_values: vec!["1".to_string(), "100".to_string()],
    }];
    let details = error_details_from_document(doc).unwrap();
    assert_eq!(details.invalid_params.len(), 1);
    assert_eq!(details.invalid_params[0].name, "page_size");
    assert_eq!(details.invalid_params[0].expected_values, vec!["1", "100"]);
}

#[test]
fn fallback_details_shape() {
    let d = fallback_error_details("boom".to_string());
    assert_eq!(d.error_type, "unknown");
    assert_eq!(d.title, "Error");
    assert_eq!(d.message, Some("boom".to_string()));
    assert!(d.invalid_params.is_empty());
}

#[test]
fn generated_error_response_converts() {
    let e = ProblemResponse {
        problem_type: "https://docs.pistachiohq.com/errors/invalid_sort_field".to_string(),
        title: "Bad Request".to_string(),
        status: Some(400),
        detail: None,
        instance: None,
        invalid_params: Some(vec![InvalidParamResponse {
            name: "sort".to_string(),
            reason: "unknown field".to_string(),
            value: None,
            expected_values: None,
        }]),
    };
    let d = convert_error_details(e);
    assert_eq!(d.error_type, "invalid_sort_field");
    assert_eq!(d.title, "Bad Request");
    assert_eq!(d.invalid_params.len(), 1);
    assert!(d.invalid_params[0].expected_values.is_empty());
}

fn problem(message: Option<&str>) -> ErrorDetails {
    ErrorDetails {
        error_type: "x".to_string(),
        title: "T".to_string(),
        message: message.map(str::to_string),
        invalid_params: Vec::new(),
    }
}

#[test]
fn problem_classification_by_status() {
    let p = details_profile();
    assert_eq!(error_from_problem(401, problem(Some("m")), p), AdminError::Unauthenticated("m".to_string()));
    assert_eq!(error_from_problem(403, problem(None), p), AdminError::PermissionDenied("T".to_string()));
    assert_eq!(error_from_problem(409, problem(None), p), AdminError::AlreadyExists);
    assert_eq!(error_from_problem(503, problem(Some("down")), p), AdminError::ServiceError("down".to_string()));
    assert_eq!(error_from_problem(418, problem(Some("tea")), p), AdminError::Unknown("HTTP 418: tea".to_string()));
    assert_eq!(error_from_problem(404, problem(None), p), AdminError::NotFound(problem(None)));
}

#[test]
fn status_classification_with_raw_body() {
    let p = details_profile();
    assert_eq!(error_from_status(400, "bad".to_string(), p), AdminError::BadRequest(fallback_error_details("bad".to_string())));
    assert_eq!(error_from_status(500, "oops".to_string(), p), AdminError::ServiceError("oops".to_string()));
    assert_eq!(error_from_status(302, "moved".to_string(), p), AdminError::Unknown("HTTP 302: moved".to_string()));
    let tokens = ErrorProfile { not_found: NotFoundRule::InvalidToken, conflict: ConflictRule::Unmapped, unknown_value: UnknownValueRule::Plain };
    assert_eq!(error_from_status(404, "expired".to_string(), tokens), AdminError::InvalidToken("expired".to_string()));
    assert_eq!(error_from_status(409, "dup".to_string(), tokens), AdminError::Unknown("HTTP 409: dup".to_string()));
}

fn response(detail: Option<&str>) -> ProblemResponse {
    ProblemResponse {
        problem_type: "https://docs.pistachiohq.com/errors/not_deleted".to_string(),
        title: "Conflict".to_string(),
        status: None,
        detail: detail.map(str::to_string),
        instance: None,
        invalid_params: None,
    }
}

#[test]
fn typed_entity_classification() {
    let undelete = ErrorProfile { not_found: NotFoundRule::Details, conflict: ConflictRule::FailedPrecondition, unknown_value: UnknownValueRule::Described };
    assert_eq!(error_from_entity(ErrorEntity::Status409(response(Some("live"))), undelete), AdminError::FailedPrecondition(Some("live".to_string())));
    assert_eq!(error_from_entity(ErrorEntity::Status401(response(None)), undelete), AdminError::Unauthenticated("Conflict".to_string()));
    assert_eq!(
        error_from_entity(ErrorEntity::UnknownValue("{}".to_string()), undelete),
        AdminError::Unknown("Server returned an unexpected response: {}.".to_string())
    );
    let plain = ErrorProfile { not_found: NotFoundRule::Details, conflict: ConflictRule::Unmapped, unknown_value: UnknownValueRule::Plain };
    assert_eq!(error_from_entity(ErrorEntity::UnknownValue("{}".to_string()), plain), AdminError::Unknown("{}".to_string()));
}

#[test]
fn problem_first_ignores_typed_entity() {
    let failure = ApiFailure::Response {
        status: 404,
        content: "{}".to_string(),
        entity: Some(ErrorEntity::Status500(response(Some("ignored")))),
    };
    let doc = document(Some("https://docs.pistachiohq.com/errors/app_not_found"), Some("Not Found"), Some("no app"));
    match error_from_failure(failure, Some(doc), details_profile()) {
        AdminError::NotFound(d) => {
            assert_eq!(d.error_type, "app_not_found");
            assert_eq!(d.message, Some("no app".to_string()));
        }
        other => panic!("unexpected {:?}", other),
    }
}

#[test]
fn untyped_body_falls_back_to_status() {
    let failure = ApiFailure::Response {
        status: 502,
        content: "bad gateway".to_string(),
        entity: Some(ErrorEntity::UnknownValue("x".to_string())),
    };
    assert_eq!(error_from_failure(failure, None, details_profile()), AdminError::ServiceError("bad gateway".to_string()));
}

#[test]
fn transport_failure_is_unavailable() {
    assert_eq!(
        error_from_failure(ApiFailure::Transport("refused".to_string()), None, details_profile()),
        AdminError::ServiceUnavailable("refused".to_string())
    );
    assert_eq!(
        handle_api_error(ApiFailure::Transport("refused".to_string()), details_profile()),
        AdminError::ServiceUnavailable("refused".to_string())
    );
    assert_eq!(
        handle_api_error(ApiFailure::Other, details_profile()),
        AdminError::ServiceError("Unknown error occurred".to_string())
    );
}

#[test]
fn entity_first_classification() {
    let failure = ApiFailure::Response { status: 400, content: "raw".to_string(), entity: Some(ErrorEntity::Status503(response(Some("maintenance")))) };
    assert_eq!(handle_api_error(failure, details_profile()), AdminError::ServiceUnavailable("maintenance".to_string()));
    let failure = ApiFailure::Response { status: 403, content: "raw".to_string(), entity: None };
    assert_eq!(handle_api_error(failure, details_profile()), AdminError::PermissionDenied("raw".to_string()));
}

#[test]
fn coded_error_bodies() {
    let e = CodedError { code: "INVALID".to_string(), message: "bad name".to_string() };
    let f = CodedFailure::Response { status_text: "400 Bad Request".to_string(), content: String::new(), entity: Some(CodedErrorEntity::Status400(e)) };
    assert_eq!(coded_error_from_failure(f), CodedOperationError::BadRequest("INVALID: bad name".to_string()));
    let f = CodedFailure::Response { status_text: "404 Not Found".to_string(), content: "gone".to_string(), entity: None };
    assert_eq!(coded_error_from_failure(f), CodedOperationError::Unknown("HTTP 404 Not Found: gone".to_string()));
    let e = CodedError { code: "X".to_string(), message: "y".to_string() };
    let f = CodedFailure::Response { status_text: "409 Conflict".to_string(), content: String::new(), entity: Some(CodedErrorEntity::Status409(e)) };
    assert_eq!(coded_error_from_failure(f), CodedOperationError::AlreadyExists);
}

#[test]
fn operation_profiles_and_policies() {
    assert_eq!(error_profile(AdminOperation::VerifyIdToken).not_found, NotFoundRule::InvalidToken);
    assert_eq!(error_profile(AdminOperation::CreateTenant).conflict, ConflictRule::AlreadyExists);
    assert_eq!(error_profile(AdminOperation::UndeleteApp).conflict, ConflictRule::FailedPreconditionNoMessage);
    assert_eq!(error_profile(AdminOperation::ListProjects).not_found, NotFoundRule::Unmapped);
    assert_eq!(error_profile(AdminOperation::GetApiKey).unknown_value, UnknownValueRule::Plain);
    assert_eq!(failure_policy(AdminOperation::ListServiceAccounts), FailurePolicy::EntityFirst);
    assert_eq!(failure_policy(AdminOperation::ListApps), FailurePolicy::ProblemFirst);

    let conflict = ApiFailure::Response { status: 409, content: "exists".to_string(), entity: None };
    assert_eq!(operation_error(AdminOperation::CreateProject, conflict.clone(), None), AdminError::AlreadyExists);
    assert_eq!(operation_error(AdminOperation::UndeleteApp, conflict.clone(), None), AdminError::FailedPrecondition(None));
    assert_eq!(
        operation_error(AdminOperation::UndeleteProject, conflict.clone(), None),
        AdminError::FailedPrecondition(Some("exists".to_string()))
    );
    assert_eq!(operation_error(AdminOperation::GetProject, conflict, None), AdminError::Unknown("HTTP 409: exists".to_string()));

    let not_found = ApiFailure::Response { status: 404, content: "expired".to_string(), entity: None };
    assert_eq!(
        operation_error(AdminOperation::VerifySessionCookie, not_found, None),
        AdminError::InvalidSessionCookie("expired".to_string())
    );
    let doc = document(Some("https://docs.pistachiohq.com/errors/not_found"), Some("Not Found"), None);
    let failure = ApiFailure::Response { status: 404, content: "{}".to_string(), entity: None };
    match operation_error(AdminOperation::GetTenantUser, failure.clone(), Some(doc.clone())) {
        AdminError::NotFound(d) => assert_eq!(d.error_type, "not_found"),
        other => panic!("unexpected {:?}", other),
    }
    // Entity-first operations do not read the Problem Details body.
    match operation_error(AdminOperation::GetServiceAccount, failure, Some(doc)) {
        AdminError::NotFound(d) => assert_eq!(d.error_type, "unknown"),
        other => panic!("unexpected {:?}", other),
    }
}

#[test]
fn grpc_operation_profiles() {
    assert!(grpc_error_profile(GrpcOperation::UpdateTenantUser).already_exists);
    assert!(!grpc_error_profile(GrpcOperation::UpdateTenant).already_exists);
    assert!(grpc_error_profile(GrpcOperation::UpdateProjectQuotas).quota_exceeded);
    assert!(!grpc_error_profile(GrpcOperation::GetProjectQuotas).quota_exceeded);
}

use std::collections::HashMap;

use pistachio_client::grpc_error::{grpc_error_from_parts, grpc_error_from_status, GrpcError, GrpcErrorProfile};
use pistachio_client::status::{
    error_slug_to_title, extract_invalid_param, fallback_title_from_code, fallback_title_from_code_number,
    error_infos_from_parts, problem_details_from_parts, problem_details_from_status, StatusErrorInfo, CODE_INVALID_ARGUMENT,
    CODE_NOT_FOUND,
};
use pistachio_client::string_map::StringMap;
use tonic::Code;
use tonic_types::{ErrorDetail, ErrorInfo, StatusExt};

#[test]
fn test_error_slug_to_title_known_slugs() {
    assert_eq!(error_slug_to_title("not_found"), "Not found");
    assert_eq!(error_slug_to_title("project_not_found"), "Project not found");
    assert_eq!(error_slug_to_title("invalid_request"), "Invalid request");
}

#[test]
fn test_error_slug_to_title_unknown_slug() {
    assert_eq!(error_slug_to_title("some_unknown_error"), "Error");
}

#[test]
fn test_fallback_title_from_code() {
    assert_eq!(fallback_title_from_code(Code::NotFound), "Not found");
    assert_eq!(fallback_title_from_code(Code::InvalidArgument), "Bad request");
    assert_eq!(fallback_title_from_code(Code::Unauthenticated), "Authentication required");
}

#[test]
fn test_extract_invalid_param_complete() {
    let mut metadata = StringMap::new();
    metadata.insert("field.key".to_string(), "sort".to_string());
    metadata.insert("field.reason".to_string(), "Invalid value".to_string());
    metadata.insert("field.value".to_string(), "foo".to_string());
    metadata.insert(
        "field.expected_values".to_string(),
        "project_id,created_at,display_name".to_string(),
    );

    let param = extract_invalid_param(&metadata).unwrap();
    assert_eq!(param.name, "sort");
    assert_eq!(param.reason, "Invalid value");
    assert_eq!(param.value, Some("foo".to_string()));
    assert_eq!(param.expected_values, vec!["project_id", "created_at", "display_name"]);
}

#[test]
fn test_extract_invalid_param_minimal() {
    let mut metadata = StringMap::new();
    metadata.insert("field.key".to_string(), "page_size".to_string());

    let param = extract_invalid_param(&metadata).unwrap();
    assert_eq!(param.name, "page_size");
    assert_eq!(param.reason, "");
    assert_eq!(param.value, None);
    assert!(param.expected_values.is_empty());
}

#[test]
fn test_extract_invalid_param_missing_key() {
    let metadata = StringMap::new();
    assert!(extract_invalid_param(&metadata).is_none());
}

#[test]
fn fallback_titles_by_code_number() {
    assert_eq!(fallback_title_from_code_number(CODE_NOT_FOUND), "Not found");
    assert_eq!(fallback_title_from_code_number(CODE_INVALID_ARGUMENT), "Bad request");
    assert_eq!(fallback_title_from_code_number(13), "Internal server error");
}

#[test]
fn string_map_keeps_last_value() {
    let mut m = StringMap::new();
    m.insert("a".to_string(), "1".to_string());
    m.insert("a".to_string(), "2".to_string());
    assert_eq!(m.get("a"), Some(&"2".to_string()));
    assert_eq!(m.get("b"), None);
}

fn info(reason: &str, entries: &[(&str, &str)]) -> StatusErrorInfo {
    let mut metadata = StringMap::new();
    for (k, v) in entries {
        metadata.insert(k.to_string(), v.to_string());
    }
    StatusErrorInfo { reason: reason.to_string(), metadata }
}

#[test]
fn problem_from_typed_error_info() {
    let infos = vec![
        info("project_not_found", &[]),
        info("", &[("field.key", "page_size"), ("field.reason", "too big")]),
    ];
    let p = problem_details_from_parts(CODE_NOT_FOUND, "no such project".to_string(), &infos, 404);
    assert_eq!(p.problem_type, "https://docs.pistachiohq.com/errors/project_not_found");
    assert_eq!(p.title, "Project not found");
    assert_eq!(p.status, 404);
    assert_eq!(p.detail, Some("no such project".to_string()));
    assert_eq!(p.instance, None);
    assert_eq!(p.invalid_params.len(), 1);
    assert_eq!(p.invalid_params[0].name, "page_size");
    assert_eq!(p.invalid_params[0].reason, "too big");
}

#[test]
fn problem_title_from_metadata_wins() {
    let infos = vec![info("not_found", &[("title", "Custom title")])];
    let p = problem_details_from_parts(CODE_NOT_FOUND, "m".to_string(), &infos, 404);
    assert_eq!(p.title, "Custom title");
}

#[test]
fn problem_without_error_info_is_unknown() {
    let p = problem_details_from_parts(CODE_INVALID_ARGUMENT, "bad".to_string(), &Vec::new(), 400);
    assert_eq!(p.problem_type, "https://docs.pistachiohq.com/errors/unknown");
    assert_eq!(p.title, "Bad request");
    assert!(p.invalid_params.is_empty());
}

#[test]
fn problem_from_real_status() {
    let mut metadata = HashMap::new();
    metadata.insert("field.key".to_string(), "sort".to_string());
    metadata.insert("field.expected_values".to_string(), "a,b".to_string());
    let details: Vec<ErrorDetail> = vec![ErrorInfo::new("invalid_request", "pistachio", metadata).into()];
    let status = tonic::Status::with_error_details_vec(Code::InvalidArgument, "invalid sort", details);
    let p = problem_details_from_status(&status, 400);
    assert_eq!(p.problem_type, "https://docs.pistachiohq.com/errors/invalid_request");
    assert_eq!(p.title, "Invalid request");
    assert_eq!(p.detail, Some("invalid sort".to_string()));
    assert_eq!(p.invalid_params.len(), 1);
    assert_eq!(p.invalid_params[0].name, "sort");
    assert_eq!(p.invalid_params[0].expected_values, vec!["a", "b"]);
}

#[test]
fn grpc_errors_by_code() {
    let plain = GrpcErrorProfile { already_exists: false, quota_exceeded: false };
    let user = GrpcErrorProfile { already_exists: true, quota_exceeded: false };
    let quota = GrpcErrorProfile { already_exists: false, quota_exceeded: true };
    let none: Vec<StatusErrorInfo> = Vec::new();
    assert_eq!(grpc_error_from_parts(6, "x".to_string(), &none, user), GrpcError::AlreadyExists);
    assert_eq!(grpc_error_from_parts(6, "x".to_string(), &none, plain), GrpcError::Unknown("x".to_string()));
    assert_eq!(grpc_error_from_parts(8, "q".to_string(), &none, quota), GrpcError::QuotaExceeded("q".to_string()));
    assert_eq!(grpc_error_from_parts(16, "u".to_string(), &none, plain), GrpcError::Unauthenticated("u".to_string()));
    assert_eq!(grpc_error_from_parts(7, "p".to_string(), &none, plain), GrpcError::PermissionDenied("p".to_string()));
    assert_eq!(grpc_error_from_parts(13, "i".to_string(), &none, plain), GrpcError::ServiceError("i".to_string()));
    assert_eq!(grpc_error_from_parts(14, "a".to_string(), &none, plain), GrpcError::ServiceUnavailable("a".to_string()));
    match grpc_error_from_parts(3, "bad".to_string(), &none, plain) {
        GrpcError::BadRequest(p) => assert_eq!(p.status, 400),
        other => panic!("unexpected {:?}", other),
    }
    match grpc_error_from_parts(5, "gone".to_string(), &none, plain) {
        GrpcError::NotFound(p) => {
            assert_eq!(p.status, 404);
            assert_eq!(p.title, "Not found");
        }
        other => panic!("unexpected {:?}", other),
    }
}

#[test]
fn grpc_error_from_real_status() {
    let status = tonic::Status::new(Code::Unavailable, "down");
    let e = grpc_error_from_status(&status, GrpcErrorProfile { already_exists: false, quota_exceeded: false });
    assert_eq!(e, GrpcError::ServiceUnavailable("down".to_string()));
    let status = tonic::Status::new(Code::NotFound, "missing");
    match grpc_error_from_status(&status, GrpcErrorProfile { already_exists: false, quota_exceeded: false }) {
        GrpcError::NotFound(p) => {
            assert_eq!(p.problem_type, "https://docs.pistachiohq.com/errors/unknown");
            assert_eq!(p.detail, Some("missing".to_string()));
        }
        other => panic!("unexpected {:?}", other),
    }
}

#[test]
fn error_infos_from_detail_parts() {
    let parts = vec![
        None,
        Some((
            "invalid_request".to_string(),
            vec![
                ("field.key".to_string(), "sort".to_string()),
                ("title".to_string(), "Bad sort".to_string()),
            ],
        )),
        Some(("not_found".to_string(), vec![])),
    ];
    let infos = error_infos_from_parts(parts);
    assert_eq!(infos.len(), 2);
    assert_eq!(infos[0].reason, "invalid_request");
    assert_eq!(infos[0].metadata.get("field.key"), Some(&"sort".to_string()));
    assert_eq!(infos[0].metadata.get("title"), Some(&"Bad sort".to_string()));
    assert_eq!(infos[1].reason, "not_found");
    assert_eq!(infos[1].metadata.get("title"), None);
}

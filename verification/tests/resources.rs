use pistachio_client::convert::{all_from_json, page_from_json, required_from_json, FromJson};
use pistachio_client::pagination::PaginationJson;
use pistachio_client::problem::ValidationError;
use pistachio_client::project::{
    admin_sdk_config_from_json, build_create_tenant_body, build_update_tenant_body, mfa_method_strings,
    mfa_methods_from_names, project_of_tenant_name, update_tenant_request_into_proto, CreateTenantRequest,
    MfaMethod, Project, ProjectJson, ProjectResourcesJson, ProjectState, Tenant, TenantJson,
    UpdateTenantRequest, WireProjectState,
};
use pistachio_client::service_account::{
    build_generate_key_body, generated_key_from_json, key_algorithm_to_openapi, service_accounts_page_from_json,
    GenerateKeyRequest, KeyAlgorithm, KeyOrigin, MfaFactor, MfaFactorJson, MfaFactorType, ServiceAccount,
    ServiceAccountJson, ServiceAccountKey, ServiceAccountKeyJson, WireKeyAlgorithm,
};
use pistachio_client::timestamp::{parse_timestamp, UtcInstant};

fn s(v: &str) -> Option<String> {
    Some(v.to_string())
}

fn project_json() -> ProjectJson {
    ProjectJson {
        project_id: s("my-project"),
        name: s("projects/my-project"),
        pistachio_id: s("p-123"),
        display_name: s("My Project"),
        state: Some(WireProjectState::Active),
        resources: Some(ProjectResourcesJson { hosting_site: s("site"), realtime_database_instance: None, storage_bucket: s("bucket") }),
        created_at: s("2024-01-02T03:04:05Z"),
        updated_at: s("2024-01-02T03:04:05Z"),
    }
}

#[test]
fn project_reads_from_json() {
    let p = Project::from_json(project_json()).unwrap();
    assert_eq!(p.project_id, "my-project");
    assert_eq!(p.state, ProjectState::Active);
    assert_eq!(p.location_id, None);
    let r = p.resources.unwrap();
    assert_eq!(r.hosting_site, "site");
    assert_eq!(r.realtime_database_instance, "");
    assert_eq!(p.created_at, UtcInstant { seconds: 1704164645, nanos: 0 });
}

#[test]
fn project_missing_members_in_order() {
    let mut j = project_json();
    j.display_name = None;
    j.pistachio_id = None;
    assert_eq!(Project::from_json(j).unwrap_err(), ValidationError::MissingField("pistachio_id"));
    let mut j = project_json();
    j.updated_at = s("yesterday");
    assert_eq!(Project::from_json(j).unwrap_err(), ValidationError::InvalidValue("timestamp"));
    let mut j = project_json();
    j.state = None;
    assert_eq!(Project::from_json(j).unwrap().state, ProjectState::Unspecified);
}

#[test]
fn wrapped_project_must_be_present() {
    let r = required_from_json::<Project>(None, "project");
    assert_eq!(r.unwrap_err(), ValidationError::MissingField("project"));
    let r = required_from_json::<Project>(Some(project_json()), "project");
    assert_eq!(r.unwrap().name, "projects/my-project");
}

#[test]
fn project_page_stops_at_first_bad_item() {
    let mut bad = project_json();
    bad.name = None;
    let page = page_from_json::<Project>(Some(vec![project_json(), bad, project_json()]), None);
    assert_eq!(page.unwrap_err(), ValidationError::MissingField("name"));
    let page = page_from_json::<Project>(
        Some(vec![project_json(), project_json()]),
        Some(PaginationJson { next_cursor: s(""), total_count: Some(2) }),
    )
    .unwrap();
    assert_eq!(page.items.len(), 2);
    assert_eq!(page.pagination.next_cursor, None);
    assert_eq!(page.pagination.total_count, Some(2));
    let page = page_from_json::<Project>(None, Some(PaginationJson { next_cursor: s("c2"), total_count: None })).unwrap();
    assert!(page.items.is_empty());
    assert_eq!(page.pagination.next_cursor, s("c2"));
}

fn tenant_json() -> TenantJson {
    TenantJson {
        name: s("projects/my-project/tenants/t1"),
        tenant_id: s("t1"),
        pistachio_id: s("tn-1"),
        display_name: s("Tenant One"),
        allow_pdpka_signup: Some(true),
        disable_auth: Some(false),
        mfa_config: Some(vec![MfaMethod::Totp, MfaMethod::Phone]),
        created_at: s("2023-06-01T00:00:00Z"),
        updated_at: s("2023-06-01T00:00:00+00:00"),
    }
}

#[test]
fn tenant_reads_from_json() {
    let t = Tenant::from_json(tenant_json()).unwrap();
    assert_eq!(t.project_id, "my-project");
    assert_eq!(t.mfa_config, vec!["totp", "phone"]);
    assert!(t.allow_pdpka_signup);
    assert!(!t.disable_auth);
    assert_eq!(t.updated_at, UtcInstant { seconds: 1685577600, nanos: 0 });
}

#[test]
fn tenant_errors() {
    let mut j = tenant_json();
    j.name = s("tenants/t1");
    assert_eq!(Tenant::from_json(j).unwrap_err(), ValidationError::InvalidValue("name"));
    let mut j = tenant_json();
    j.disable_auth = None;
    assert_eq!(Tenant::from_json(j).unwrap_err(), ValidationError::MissingField("disable_auth"));
    let mut j = tenant_json();
    j.allow_pdpka_signup = None;
    j.created_at = None;
    assert_eq!(Tenant::from_json(j).unwrap_err(), ValidationError::MissingField("timestamp"));
}

#[test]
fn tenant_name_shapes() {
    assert_eq!(project_of_tenant_name("projects/p/tenants/t"), s("p"));
    assert_eq!(project_of_tenant_name("projects//tenants/t"), None);
    assert_eq!(project_of_tenant_name("projects/p/tenants/t/extra"), None);
    assert_eq!(project_of_tenant_name("projects/p/users/t"), None);
}

#[test]
fn mfa_names_round_trip() {
    let methods = vec![MfaMethod::Phone, MfaMethod::Totp];
    let names = mfa_method_strings(methods.clone());
    assert_eq!(mfa_methods_from_names(names), methods);
    assert_eq!(
        mfa_methods_from_names(vec!["sms".to_string(), "totp".to_string()]),
        vec![MfaMethod::Totp]
    );
}

#[test]
fn create_tenant_body() {
    let req = CreateTenantRequest {
        project_id: "p".to_string(),
        tenant_id: None,
        display_name: s("Shop"),
        allow_pdpka_signup: Some(true),
        disable_auth: None,
        mfa_config: vec![],
    };
    let b = build_create_tenant_body(req);
    assert_eq!(b.display_name, Some(s("Shop")));
    assert_eq!(b.mfa_config, None);
    let req = CreateTenantRequest {
        project_id: "p".to_string(),
        tenant_id: s("t"),
        display_name: None,
        allow_pdpka_signup: None,
        disable_auth: Some(true),
        mfa_config: vec!["email".to_string()],
    };
    let b = build_create_tenant_body(req);
    assert_eq!(b.display_name, None);
    assert_eq!(b.mfa_config, Some(vec![]));
    assert_eq!(b.tenant_id, s("t"));
}

#[test]
fn update_tenant_body_and_proto() {
    let req = UpdateTenantRequest {
        project_id: "p".to_string(),
        tenant_id: "t".to_string(),
        display_name: None,
        allow_pdpka_signup: None,
        disable_auth: None,
        mfa_config: Some(vec![]),
    };
    assert_eq!(build_update_tenant_body(req.clone()).mfa_config, Some(Some(vec![])));
    let proto = update_tenant_request_into_proto(req);
    assert_eq!(proto.mfa_config.unwrap().providers, Vec::<String>::new());
    let req = UpdateTenantRequest {
        project_id: "p".to_string(),
        tenant_id: "t".to_string(),
        display_name: s("New"),
        allow_pdpka_signup: None,
        disable_auth: Some(false),
        mfa_config: None,
    };
    let body = build_update_tenant_body(req.clone());
    assert_eq!(body.mfa_config, None);
    assert_eq!(body.display_name, s("New"));
    assert!(update_tenant_request_into_proto(req).mfa_config.is_none());
}

#[test]
fn admin_sdk_config() {
    assert_eq!(admin_sdk_config_from_json(s("p"), None, None).unwrap_err(), ValidationError::MissingField("storage_bucket"));
    assert_eq!(admin_sdk_config_from_json(None, None, None).unwrap_err(), ValidationError::MissingField("project_id"));
    let c = admin_sdk_config_from_json(s("p"), s("b"), s("us")).unwrap();
    assert_eq!(c.location_id, "us");
}

fn account_json(id: &str) -> ServiceAccountJson {
    ServiceAccountJson {
        name: format!("projects/p/serviceAccounts/{}", id),
        service_account_id: id.to_string(),
        pistachio_id: None,
        display_name: "Robot".to_string(),
        description: Some(None),
        email: s("robot@example.com"),
        disabled: false,
        created_at: "2024-01-02T03:04:05Z".to_string(),
        updated_at: "not a time".to_string(),
    }
}

#[test]
fn service_account_reads_leniently() {
    let a = ServiceAccount::from_json(account_json("sa1")).unwrap();
    assert_eq!(a.pistachio_id, "");
    assert_eq!(a.description, None);
    assert_eq!(a.created_at, Some(UtcInstant { seconds: 1704164645, nanos: 0 }));
    assert_eq!(a.updated_at, None);
}

#[test]
fn service_account_page_keeps_cursor() {
    let (accounts, meta) = service_accounts_page_from_json(
        Some(vec![account_json("a"), account_json("b")]),
        Some(PaginationJson { next_cursor: s(""), total_count: None }),
    )
    .unwrap();
    assert_eq!(accounts.len(), 2);
    assert_eq!(accounts[1].service_account_id, "b");
    assert_eq!(meta.next_cursor, s(""));
}

fn key_json() -> ServiceAccountKeyJson {
    ServiceAccountKeyJson {
        name: "k".to_string(),
        key_id: "kid".to_string(),
        key_algorithm: WireKeyAlgorithm::EcP256,
        key_origin: None,
        valid_after_time: "2024-01-02T03:04:05Z".to_string(),
        valid_before_time: Some(None),
        disabled: None,
    }
}

#[test]
fn service_account_key_defaults() {
    let k = ServiceAccountKey::from_json(key_json()).unwrap();
    assert_eq!(k.key_algorithm, KeyAlgorithm::EcP256);
    assert_eq!(k.key_origin, KeyOrigin::SystemProvided);
    assert_eq!(k.valid_before_time, None);
    assert!(!k.disabled);
}

#[test]
fn generated_key_requires_key() {
    assert_eq!(generated_key_from_json(None, None, None).unwrap_err(), ValidationError::MissingField("key"));
    let g = generated_key_from_json(Some(key_json()), Some(vec![1, 2, 3]), None).unwrap();
    assert_eq!(g.private_key_data, vec![1, 2, 3]);
    assert_eq!(g.key_file_json, "");
}

#[test]
fn key_algorithms() {
    assert_eq!(key_algorithm_to_openapi(KeyAlgorithm::Unspecified), WireKeyAlgorithm::Rsa2048);
    assert_eq!(key_algorithm_to_openapi(KeyAlgorithm::Ed25519), WireKeyAlgorithm::Ed25519);
    let instant = parse_timestamp(s("2024-01-02T03:04:05Z")).unwrap();
    let body = build_generate_key_body(GenerateKeyRequest {
        project_id: "p".to_string(),
        service_account_id: "sa".to_string(),
        key_algorithm: KeyAlgorithm::Rsa4096,
        valid_before_time: Some(instant),
    });
    assert_eq!(body.key_algorithm, Some(WireKeyAlgorithm::Rsa4096));
    assert_eq!(body.valid_before_time, s("2024-01-02T03:04:05+00:00"));
}

#[test]
fn mfa_factors_read_leniently() {
    let j = MfaFactorJson {
        factor_id: "f".to_string(),
        factor_type: MfaFactorType::Sms,
        display_name: None,
        phone_number: Some(s("+15550100")),
        email: Some(None),
        verified: None,
        created_at: "bad".to_string(),
        last_used_at: Some(s("2024-01-02T03:04:05Z")),
    };
    let factors = all_from_json::<MfaFactor>(vec![j]).unwrap();
    assert_eq!(factors[0].phone_number, s("+15550100"));
    assert!(!factors[0].verified);
    assert_eq!(factors[0].created_at, None);
    assert_eq!(factors[0].last_used_at, Some(UtcInstant { seconds: 1704164645, nanos: 0 }));
}

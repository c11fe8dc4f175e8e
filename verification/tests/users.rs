use pistachio_client::convert::{page_from_json, FromJson};
use pistachio_client::problem::ValidationError;
use pistachio_client::timestamp::{ProtoTimestamp, UtcInstant};
use pistachio_client::user::{
    build_create_user_body, build_import_users_body, hash_algorithm_into_proto, hash_algorithm_to_openapi,
    import_error_from_proto, import_record_into_proto, import_users_response_from_json,
    update_tenant_user_request_into_proto, update_tenant_user_response_from_proto, user_from_proto,
    CreateUserRequest, HashAlgorithm, HashConfig, ImportUserErrorJson, ImportUserRecord, ImportUsersJson,
    ProtoHashAlgorithm, ProtoUser, UpdateTenantUserRequest, User, UserJson, WireHashAlgorithm,
};

fn s(v: &str) -> Option<String> {
    Some(v.to_string())
}

fn user_json() -> UserJson {
    UserJson {
        name: "projects/p/users/u1".to_string(),
        pistachio_id: "u1".to_string(),
        tenant_id: Some(s("")),
        email: Some(s("a@example.com")),
        email_verified: true,
        phone_number: Some(None),
        display_name: None,
        photo_url: Some(s("https://example.com/a.png")),
        disabled: false,
        custom_claims: Some(Some(vec![("role".to_string(), serde_json::Value::from("admin"))])),
        created_at: s("2024-01-02T03:04:05Z"),
        last_sign_in_at: Some(s("garbage")),
        last_refresh_at: None,
        updated_at: s("2024-01-02T03:04:05Z"),
    }
}

#[test]
fn user_reads_from_json() {
    let u = User::from_json(user_json()).unwrap();
    assert_eq!(u.tenant_id, None);
    assert_eq!(u.email, s("a@example.com"));
    assert_eq!(u.phone_number, None);
    assert_eq!(u.display_name, None);
    assert_eq!(u.photo_url, s("https://example.com/a.png"));
    assert_eq!(u.created_at, Some(UtcInstant { seconds: 1704164645, nanos: 0 }));
    assert_eq!(u.last_sign_in_at, None);
    let claims = u.custom_claims.unwrap();
    assert_eq!(claims[0].0, "role");
    assert_eq!(claims[0].1, serde_json::Value::from("admin"));
}

#[test]
fn user_search_page() {
    let page = page_from_json::<User>(Some(vec![user_json(), user_json()]), None).unwrap();
    assert_eq!(page.items.len(), 2);
    assert_eq!(page.pagination.next_cursor, None);
}

fn proto_user() -> ProtoUser {
    ProtoUser {
        name: "projects/p/tenants/t/users/u".to_string(),
        pistachio_id: "u".to_string(),
        tenant_id: "t".to_string(),
        email: String::new(),
        email_verified: false,
        phone_number: "+15550100".to_string(),
        display_name: String::new(),
        photo_url: String::new(),
        disabled: true,
        custom_claims: None,
        created_at: Some(ProtoTimestamp { seconds: 1704164645, nanos: 5 }),
        last_sign_in_at: None,
        last_refresh_at: None,
        updated_at: None,
    }
}

#[test]
fn user_reads_from_proto() {
    let u = user_from_proto(proto_user()).unwrap();
    assert_eq!(u.tenant_id, s("t"));
    assert_eq!(u.email, None);
    assert_eq!(u.phone_number, s("+15550100"));
    assert!(u.disabled);
    assert_eq!(u.created_at, Some(UtcInstant { seconds: 1704164645, nanos: 5 }));
    let mut p = proto_user();
    p.last_refresh_at = Some(ProtoTimestamp { seconds: 0, nanos: -1 });
    assert_eq!(user_from_proto(p).unwrap_err(), ValidationError::InvalidValue("timestamp nanos"));
}

#[test]
fn tenant_user_update_response_needs_user() {
    assert_eq!(update_tenant_user_response_from_proto(None).unwrap_err(), ValidationError::MissingField("user"));
    assert_eq!(update_tenant_user_response_from_proto(Some(proto_user())).unwrap().pistachio_id, "u");
}

#[test]
fn tenant_user_update_request() {
    let req = UpdateTenantUserRequest {
        project_id: "p".to_string(),
        tenant_id: "t".to_string(),
        pistachio_id: "u".to_string(),
        email: None,
        email_verified: Some(true),
        phone_number: None,
        display_name: s("Ann"),
        photo_url: None,
        disabled: None,
        custom_claims: Some(vec![("tier".to_string(), "gold".to_string())]),
    };
    let p = update_tenant_user_request_into_proto(req);
    assert_eq!(p.display_name, s("Ann"));
    assert_eq!(p.email_verified, Some(true));
    assert_eq!(p.string_claims, Some(vec![("tier".to_string(), "gold".to_string())]));
}

fn record() -> ImportUserRecord {
    ImportUserRecord {
        email: s("b@example.com"),
        email_verified: false,
        phone_number: None,
        display_name: s("Bea"),
        photo_url: None,
        disabled: false,
        custom_claims: None,
        password_hash: s("aGFzaA=="),
        password_salt: None,
    }
}

#[test]
fn import_body() {
    let body = build_import_users_body(
        vec![record()],
        Some(HashAlgorithm::Scrypt),
        Some(HashConfig { rounds: Some(8), memory_cost: Some(14), parallelization: None, salt_separator: s("Bw=="), signer_key: None }),
    );
    assert_eq!(body.users.len(), 1);
    assert_eq!(body.users[0].email, Some(s("b@example.com")));
    assert_eq!(body.users[0].phone_number, None);
    assert_eq!(body.users[0].email_verified, Some(false));
    assert_eq!(body.users[0].password_hash, Some(s("aGFzaA==")));
    assert_eq!(body.hash_algorithm, Some(WireHashAlgorithm::Scrypt));
    let c = body.hash_config.unwrap();
    assert_eq!(c.rounds, Some(Some(8)));
    assert_eq!(c.parallelization, None);
    assert_eq!(c.salt_separator, Some(s("Bw==")));
}

#[test]
fn import_record_proto_defaults() {
    let p = import_record_into_proto(record());
    assert_eq!(p.email, "b@example.com");
    assert_eq!(p.phone_number, "");
    assert_eq!(p.password_salt, "");
    assert_eq!(hash_algorithm_into_proto(HashAlgorithm::Pbkdf2Sha256), ProtoHashAlgorithm::Pbkdf2Sha256);
    assert_eq!(hash_algorithm_to_openapi(HashAlgorithm::Argon2), WireHashAlgorithm::Argon2);
}

#[test]
fn import_response() {
    let r = import_users_response_from_json(ImportUsersJson {
        success_count: Some(3),
        failure_count: None,
        errors: Some(vec![ImportUserErrorJson { index: 1, message: "duplicate email".to_string(), field: Some(s("email")) }]),
    })
    .unwrap();
    assert_eq!(r.success_count, 3);
    assert_eq!(r.failure_count, 0);
    assert_eq!(r.errors[0].field, s("email"));
    let r = import_users_response_from_json(ImportUsersJson { success_count: None, failure_count: None, errors: None }).unwrap();
    assert!(r.errors.is_empty());
    let e = import_error_from_proto(2, "bad".to_string(), String::new());
    assert_eq!(e.field, None);
}

#[test]
fn create_user_body() {
    let b = build_create_user_body(CreateUserRequest {
        project_id: "p".to_string(),
        email: None,
        email_verified: true,
        phone_number: s("+1"),
        display_name: None,
        photo_url: None,
        disabled: false,
        custom_claims: None,
    });
    assert_eq!(b.email, None);
    assert_eq!(b.phone_number, Some(s("+1")));
    assert_eq!(b.email_verified, Some(true));
    assert_eq!(b.disabled, Some(false));
}

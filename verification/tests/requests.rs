use pistachio_client::auth_provider::{
    update_tenant_auth_provider_into_proto, update_tenant_auth_provider_response_from_proto, AuthProviderConfig,
    PdpkaConfig, TenantAuthProviderOverride, UpdateTenantAuthProviderRequest,
};
use pistachio_client::problem::ValidationError;
use pistachio_client::timestamp::{UtcInstant, MAX_UTC_SECONDS, MIN_UTC_SECONDS};
use pistachio_client::token::{build_custom_token_body, claim_from_json, decoded_id_token_at, revoke_target, RevokeTarget};
use pistachio_client::user::{build_project_import_users_body, string_claims_to_json, ProjectImportUserRecord};

fn s(v: &str) -> Option<String> {
    Some(v.to_string())
}

#[test]
fn project_import_sends_claims_as_json_strings() {
    let record = ProjectImportUserRecord {
        email: s("a@example.com"),
        email_verified: true,
        phone_number: None,
        display_name: None,
        photo_url: None,
        disabled: false,
        custom_claims: Some(vec![("role".to_string(), "admin".to_string()), ("tier".to_string(), "2".to_string())]),
        password_hash: None,
        password_salt: None,
    };
    let body = build_project_import_users_body(vec![record], None, None);
    assert_eq!(body.users.len(), 1);
    let claims = body.users[0].custom_claims.as_ref().unwrap();
    assert_eq!(claims[0], ("role".to_string(), serde_json::Value::String("admin".to_string())));
    assert_eq!(claims[1], ("tier".to_string(), serde_json::Value::String("2".to_string())));
    assert_eq!(body.users[0].email_verified, Some(true));
    assert_eq!(body.users[0].disabled, Some(false));
    assert_eq!(body.users[0].email, Some(s("a@example.com")));
    assert!(body.hash_algorithm.is_none() && body.hash_config.is_none());
    assert!(string_claims_to_json(vec![]).is_empty());
}

#[test]
fn custom_token_claims_are_the_object_members() {
    let mut object = serde_json::Map::new();
    object.insert("plan".to_string(), serde_json::Value::from("pro"));
    let body = build_custom_token_body("u1".to_string(), s("t1"), Some(serde_json::Value::Object(object)), Some(600));
    let claims = body.additional_claims.unwrap();
    assert_eq!(claims, vec![("plan".to_string(), serde_json::Value::from("pro"))]);
    assert_eq!(body.tenant_id, Some(s("t1")));
    let body = build_custom_token_body("u1".to_string(), None, Some(serde_json::Value::from(3)), None);
    assert!(body.additional_claims.is_none());
}

#[test]
fn claim_reads_text_and_integer() {
    let c = claim_from_json("name".to_string(), serde_json::Value::from("Ann"));
    assert_eq!(c.text, s("Ann"));
    assert_eq!(c.integer, None);
    let c = claim_from_json("exp".to_string(), serde_json::Value::from(42));
    assert_eq!(c.text, None);
    assert_eq!(c.integer, Some(42));
}

#[test]
fn chrono_range_bounds() {
    let now = UtcInstant { seconds: 7, nanos: 0 };
    for (iat, expected) in [
        (MAX_UTC_SECONDS, UtcInstant { seconds: MAX_UTC_SECONDS, nanos: 0 }),
        (MIN_UTC_SECONDS, UtcInstant { seconds: MIN_UTC_SECONDS, nanos: 0 }),
        (MAX_UTC_SECONDS + 1, now),
        (MIN_UTC_SECONDS - 1, now),
    ] {
        let claims = vec![claim_from_json("iat".to_string(), serde_json::Value::from(iat))];
        let t = decoded_id_token_at(s("u"), None, None, Some(claims), now, "p".to_string()).unwrap();
        assert_eq!(t.issued_at, expected);
    }
}

#[test]
fn revoke_endpoint_choice() {
    assert_eq!(revoke_target(None), RevokeTarget::ProjectUser);
    assert_eq!(revoke_target(s("t1")), RevokeTarget::TenantUser("t1".to_string()));
}

#[test]
fn tenant_provider_update_over_grpc() {
    let req = UpdateTenantAuthProviderRequest {
        project_id: "p".to_string(),
        tenant_id: "t".to_string(),
        provider_id: "password".to_string(),
        enabled: Some(true),
        display_order: None,
        config: Some(AuthProviderConfig::Pdpka(PdpkaConfig { allow_signup: false })),
        client_secret: None,
    };
    let p = update_tenant_auth_provider_into_proto(req);
    assert_eq!(p.provider_id, "password");
    assert_eq!(p.enabled, Some(true));
    assert!(matches!(p.config, Some(AuthProviderConfig::Pdpka(PdpkaConfig { allow_signup: false }))));
    assert_eq!(update_tenant_auth_provider_response_from_proto(None).unwrap_err(), ValidationError::MissingField("override"));
    let o = TenantAuthProviderOverride {
        provider_id: "password".to_string(),
        enabled: None,
        display_order: Some(2),
        config: None,
        created_at: None,
        updated_at: None,
    };
    assert_eq!(update_tenant_auth_provider_response_from_proto(Some(o)).unwrap().display_order, Some(2));
}

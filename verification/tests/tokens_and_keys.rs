use pistachio_client::api_key::{
    api_key_info_from_json, build_api_key_body, convert_restrictions, convert_restrictions_to_openapi,
    list_api_keys_from_json, rotate_api_key_from_json, AndroidApplication, ApiKeyInfoJson, ApiKeyJson,
    ApiKeyRestrictions, PlatformRestrictions, RestrictionsJson,
};
use pistachio_client::pagination::{flag_param, search_query_param, PaginationJson};
use pistachio_client::problem::ValidationError;
use pistachio_client::text::split_on_char;
use pistachio_client::timestamp::{
    datetime_to_timestamp, optional_timestamp_to_datetime, parse_timestamp, parse_timestamp_ok,
    timestamp_to_datetime, ProtoTimestamp, UtcInstant,
};
use pistachio_client::token::{claim_from_json, custom_claims, decoded_id_token_at, is_standard_claim};
use pistachio_client::usage::{
    build_quotas_update_body, project_id_from_name, project_id_from_resource_name, quota_value_from_response,
    quotas_update_request_to_proto, QuotaJson, QuotaLimits,
};

fn s(v: &str) -> Option<String> {
    Some(v.to_string())
}

#[test]
fn split_then_join_gives_text_back() {
    for text in ["a,b,,c", "", ",", "no-commas"] {
        let pieces = split_on_char(text, ',');
        assert_eq!(pieces.join(","), text);
        assert_eq!(pieces.len(), text.matches(',').count() + 1);
    }
}

#[test]
fn rfc3339_parsing() {
    assert_eq!(parse_timestamp(s("2024-01-02T03:04:05Z")), Ok(UtcInstant { seconds: 1704164645, nanos: 0 }));
    assert_eq!(parse_timestamp(s("2024-01-02T04:04:05+01:00")), Ok(UtcInstant { seconds: 1704164645, nanos: 0 }));
    assert_eq!(parse_timestamp(None), Err(ValidationError::MissingField("timestamp")));
    assert_eq!(parse_timestamp(s("2024-13-02")), Err(ValidationError::InvalidValue("timestamp")));
    assert_eq!(parse_timestamp_ok(s("nope")), None);
}

#[test]
fn proto_timestamps_round_trip() {
    let i = UtcInstant { seconds: 1704164645, nanos: 123 };
    let ts = datetime_to_timestamp(i);
    assert_eq!(ts, ProtoTimestamp { seconds: 1704164645, nanos: 123 });
    assert_eq!(timestamp_to_datetime(Some(ts)), Ok(i));
    assert!(timestamp_to_datetime(None).is_err());
    assert_eq!(optional_timestamp_to_datetime(None), Ok(None));
    assert_eq!(
        optional_timestamp_to_datetime(Some(ProtoTimestamp { seconds: 0, nanos: -5 })),
        Err(ValidationError::InvalidValue("timestamp nanos"))
    );
}

#[test]
fn standard_and_custom_claims() {
    assert!(is_standard_claim("iss"));
    assert!(is_standard_claim("sign_in_provider"));
    assert!(!is_standard_claim("role"));
    let claims = vec![
        claim_from_json("iss".to_string(), serde_json::Value::from("issuer")),
        claim_from_json("role".to_string(), serde_json::Value::from("admin")),
        claim_from_json("level".to_string(), serde_json::Value::from(3)),
    ];
    let custom = custom_claims(claims);
    assert_eq!(custom.len(), 2);
    assert_eq!(custom[0].key, "role");
    assert_eq!(custom[1].integer, Some(3));
}

#[test]
fn decoded_token_reads_claims() {
    let now = UtcInstant { seconds: 100, nanos: 0 };
    let claims = vec![
        claim_from_json("iss".to_string(), serde_json::Value::from("https://issuer")),
        claim_from_json("aud".to_string(), serde_json::Value::from("proj-a")),
        claim_from_json("iat".to_string(), serde_json::Value::from(1704164645)),
        claim_from_json("tenant_id".to_string(), serde_json::Value::from("t1")),
        claim_from_json("plan".to_string(), serde_json::Value::from("pro")),
    ];
    let t = decoded_id_token_at(s("u1"), Some(s("u@example.com")), Some(true), Some(claims), now, "fallback".to_string())
        .unwrap();
    assert_eq!(t.project_id, "proj-a");
    assert_eq!(t.tenant_id, s("t1"));
    assert_eq!(t.issuer, "https://issuer");
    assert_eq!(t.subject, "");
    assert_eq!(t.issued_at, UtcInstant { seconds: 1704164645, nanos: 0 });
    assert_eq!(t.expires_at, now);
    assert_eq!(t.auth_time, t.issued_at);
    assert_eq!(t.email, s("u@example.com"));
    assert_eq!(t.custom_claims.len(), 1);
    let missing = decoded_id_token_at(None, None, None, None, now, "f".to_string());
    assert_eq!(missing.unwrap_err(), ValidationError::MissingField("pistachioId"));
    let bare = decoded_id_token_at(s("u"), None, None, None, now, "fallback".to_string()).unwrap();
    assert_eq!(bare.project_id, "fallback");
}

#[test]
fn restrictions_round_trip() {
    let r = ApiKeyRestrictions {
        platform_restrictions: Some(PlatformRestrictions::Android(vec![AndroidApplication {
            package_name: "com.example".to_string(),
            sha256_cert_fingerprint: "AB:CD".to_string(),
        }])),
    };
    let json = convert_restrictions_to_openapi(&r);
    assert_eq!(convert_restrictions(json), r);
    let r = ApiKeyRestrictions { platform_restrictions: Some(PlatformRestrictions::Server(vec!["10.0.0.1".to_string()])) };
    assert_eq!(convert_restrictions(convert_restrictions_to_openapi(&r)), r);
    let none = ApiKeyRestrictions { platform_restrictions: None };
    assert_eq!(convert_restrictions(convert_restrictions_to_openapi(&none)), none);
}

#[test]
fn platform_without_list_reads_as_empty_list() {
    let json = RestrictionsJson {
        browser_allowed_referrers: None,
        server_allowed_ips: Some(None),
        android_allowed_applications: None,
        ios_allowed_bundle_ids: None,
    };
    assert_eq!(convert_restrictions(json).platform_restrictions, Some(PlatformRestrictions::Server(vec![])));
    let json = RestrictionsJson {
        browser_allowed_referrers: None,
        server_allowed_ips: None,
        android_allowed_applications: None,
        ios_allowed_bundle_ids: None,
    };
    assert_eq!(convert_restrictions(json).platform_restrictions, None);
}

fn key_info(id: &str) -> ApiKeyInfoJson {
    ApiKeyInfoJson {
        name: format!("projects/p/apiKeys/{}", id),
        key_id: id.to_string(),
        key_prefix: "pk_".to_string(),
        display_name: Some(None),
        restrictions: None,
        created_at: "2024-01-02T03:04:05Z".to_string(),
        updated_at: None,
    }
}

#[test]
fn api_keys_list_and_rotation() {
    let list = list_api_keys_from_json(Some(vec![key_info("a"), key_info("b")]), Some(PaginationJson { next_cursor: s("n"), total_count: Some(9) }));
    assert_eq!(list.api_keys.len(), 2);
    assert_eq!(list.api_keys[1].key_id, "b");
    assert_eq!(list.pagination.next_cursor, s("n"));
    assert_eq!(list.pagination.total_count, Some(9));
    let info = api_key_info_from_json(key_info("c"));
    assert_eq!(info.display_name, None);
    assert_eq!(info.created_at, Some(UtcInstant { seconds: 1704164645, nanos: 0 }));
    assert_eq!(rotate_api_key_from_json(None, None).unwrap_err(), ValidationError::MissingField("api_key"));
    let key = ApiKeyJson {
        name: "n".to_string(),
        key_id: "k".to_string(),
        key_string: "secret".to_string(),
        display_name: Some(s("Main")),
        restrictions: None,
        created_at: "bad".to_string(),
        updated_at: None,
    };
    let rotated = rotate_api_key_from_json(Some(key), s("2024-01-02T03:04:05Z")).unwrap();
    assert_eq!(rotated.api_key.key_string, "secret");
    assert_eq!(rotated.api_key.created_at, None);
    assert_eq!(rotated.grace_period_expires_at, Some(UtcInstant { seconds: 1704164645, nanos: 0 }));
    let body = build_api_key_body(s("Main"), None);
    assert_eq!(body.display_name, s("Main"));
    assert!(body.restrictions.is_none());
}

#[test]
fn quotas_and_resource_names() {
    assert_eq!(quota_value_from_response(Some(QuotaJson { limit: Some(10), current: None })), (10, 0));
    assert_eq!(quota_value_from_response(None), (0, 0));
    assert_eq!(project_id_from_name("projects/abc/usage", "/usage"), s("abc"));
    assert_eq!(project_id_from_name("tenants/abc/usage", "/usage"), None);
    assert_eq!(project_id_from_resource_name("projects/abc/quotas"), Ok("abc".to_string()));
    assert_eq!(project_id_from_resource_name("abc"), Err(ValidationError::InvalidValue("resource_name")));
}

#[test]
fn quota_updates() {
    let limits = QuotaLimits { max_users: Some(100), max_service_accounts: None, max_tenants: Some(5), max_apps: None, max_monthly_active_users: Some(7) };
    let body = build_quotas_update_body(limits);
    assert_eq!(body.users, Some(100));
    assert_eq!(body.tenants, Some(5));
    assert_eq!(body.apps, None);
    let proto = quotas_update_request_to_proto("p".to_string(), limits);
    assert_eq!(proto.users, Some(100));
    assert_eq!(proto.requests_per_day, None);
    assert_eq!(proto.project_id, "p");
}

#[test]
fn query_parameters() {
    assert_eq!(search_query_param(String::new()), None);
    assert_eq!(search_query_param("name:shop".to_string()), s("name:shop"));
    assert_eq!(flag_param(true), Some(true));
    assert_eq!(flag_param(false), None);
}

#[test]
fn decimal_text_of_numbers() {
    for (n, text) in [(0u16, "0"), (7, "7"), (404, "404"), (65535, "65535")] {
        assert_eq!(pistachio_client::text::decimal_string(n), text);
    }
    assert_eq!(pistachio_client::text::format_http_status(503, "down"), "HTTP 503: down");
    assert_eq!(
        pistachio_client::text::format_unexpected_response("{}"),
        "Server returned an unexpected response: {}."
    );
}

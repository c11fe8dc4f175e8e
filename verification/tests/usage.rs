use pistachio_client::problem::ValidationError;
use pistachio_client::timestamp::UtcInstant;
use pistachio_client::usage::{
    parse_project_quotas, project_quotas_from_proto, usage_from_json, ActiveUsersJson, AuthenticationsJson,
    PeriodJson, ProtoProjectQuotas, ProtoQuotaLimit, QuotaJson, QuotasJson, UsageJson,
};

fn s(v: &str) -> Option<String> {
    Some(v.to_string())
}

#[test]
fn usage_reads_counts_and_project() {
    let usage = UsageJson {
        name: s("projects/shop/usage"),
        active_users: Some(ActiveUsersJson { monthly: Some(40), daily: None }),
        authentications: Some(AuthenticationsJson { logins: Some(12), failed_attempts: Some(3), signups: None }),
        period: Some(PeriodJson { start_time: s("2024-01-02T03:04:05Z"), end_time: s("soon") }),
    };
    let u = usage_from_json(Some(usage), "fallback".to_string());
    assert_eq!(u.project_id, "shop");
    assert_eq!(u.monthly_active_users, 40);
    assert_eq!(u.daily_active_users, 0);
    assert_eq!(u.auth_stats.successful_sign_ins, 12);
    assert_eq!(u.auth_stats.failed_sign_ins, 3);
    assert_eq!(u.auth_stats.sign_ups, 0);
    assert_eq!(u.billing_period_start, Some(UtcInstant { seconds: 1704164645, nanos: 0 }));
    assert_eq!(u.billing_period_end, None);
    let empty = usage_from_json(None, "fallback".to_string());
    assert_eq!(empty.project_id, "fallback");
    assert_eq!(empty.total_users, 0);
}

#[test]
fn quotas_from_json() {
    let quotas = QuotasJson {
        name: s("projects/shop/quotas"),
        users: Some(QuotaJson { limit: Some(1000), current: Some(10) }),
        service_accounts: None,
        tenants: Some(QuotaJson { limit: Some(5), current: None }),
        apps: None,
        requests_per_second: Some(QuotaJson { limit: Some(50), current: None }),
        requests_per_minute: Some(QuotaJson { limit: Some(600), current: None }),
        requests_per_day: Some(QuotaJson { limit: Some(9000), current: None }),
    };
    let q = parse_project_quotas(Some(quotas), "fallback".to_string());
    assert_eq!(q.project_id, "shop");
    assert_eq!(q.user_quotas.max_users, 1000);
    assert_eq!(q.user_quotas.current_users, 10);
    assert_eq!(q.user_quotas.max_tenants, 5);
    assert_eq!(q.auth_quotas.max_monthly_active_users, 1000);
    assert_eq!(q.rate_limits.max_signups_per_hour, 600);
    assert_eq!(q.rate_limits.max_password_resets_per_hour, 9000);
    assert_eq!(q.rate_limits.max_api_requests_per_second, 50);
    let none = parse_project_quotas(None, "fallback".to_string());
    assert_eq!(none.project_id, "fallback");
    assert_eq!(none.user_quotas.max_apps, 0);
}

#[test]
fn quotas_from_proto() {
    let proto = ProtoProjectQuotas {
        name: "projects/shop/quotas".to_string(),
        users: Some(ProtoQuotaLimit { limit: 7, current: 2 }),
        service_accounts: None,
        tenants: None,
        apps: Some(ProtoQuotaLimit { limit: 3, current: 1 }),
        requests_per_second: None,
        requests_per_minute: None,
        requests_per_day: None,
    };
    let q = project_quotas_from_proto(proto.clone()).unwrap();
    assert_eq!(q.project_id, "shop");
    assert_eq!(q.user_quotas.max_users, 7);
    assert_eq!(q.user_quotas.current_apps, 1);
    let mut bad = proto;
    bad.name = "quotas".to_string();
    assert_eq!(project_quotas_from_proto(bad).unwrap_err(), ValidationError::InvalidValue("resource_name"));
}

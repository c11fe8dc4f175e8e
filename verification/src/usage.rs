//! Project usage and quotas, from OpenAPI and gRPC responses.

use vstd::prelude::*;
use crate::problem::{opt_view, ValidationError};
use crate::text::{lemma_split_on_without_sep, spec_strip_prefix, spec_strip_suffix, split_on, split_on_char, str_eq, strip_prefix, strip_suffix, views};
use crate::timestamp::{
    optional_proto_timestamp_instant, parse_timestamp_ok, proto_instant, rfc3339_instant,
    ProtoTimestamp, UtcInstant,
};

verus! {

broadcast use vstd::string::group_string_axioms;

/// Authentication counts of a project.
#[derive(Debug, Clone, Copy, PartialEq, Eq, Structural)]
pub struct AuthenticationStats {
    pub successful_sign_ins: i64,
    pub failed_sign_ins: i64,
    pub sign_ups: i64,
    pub password_resets: i64,
    pub email_verifications_sent: i64,
    pub sms_verifications_sent: i64,
    pub mfa_challenges: i64,
    pub custom_token_creations: i64,
    pub id_token_verifications: i64,
    pub session_cookie_creations: i64,
}

/// Usage of a project.
#[derive(Debug, Clone, PartialEq, Eq)]
pub struct ProjectUsage {
    pub project_id: String,
    pub monthly_active_users: i64,
    pub daily_active_users: i64,
    pub total_users: i64,
    pub total_service_accounts: i64,
    pub total_apps: i64,
    pub total_tenants: i64,
    pub auth_stats: AuthenticationStats,
    pub billing_period_start: Option<UtcInstant>,
    pub billing_period_end: Option<UtcInstant>,
    pub updated_at: Option<UtcInstant>,
}

/// User-related quotas of a project.
#[derive(Debug, Clone, Copy, PartialEq, Eq, Structural)]
pub struct UserQuotas {
    pub max_users: i64,
    pub current_users: i64,
    pub max_service_accounts: i64,
    pub current_service_accounts: i64,
    pub max_tenants: i64,
    pub current_tenants: i64,
    pub max_apps: i64,
    pub current_apps: i64,
}

/// Authentication quotas of a project.
#[derive(Debug, Clone, Copy, PartialEq, Eq, Structural)]
pub struct AuthQuotas {
    pub max_monthly_active_users: i64,
    pub current_monthly_active_users: i64,
    pub max_email_verifications_per_day: i64,
    pub current_email_verifications_today: i64,
    pub max_sms_verifications_per_day: i64,
    pub current_sms_verifications_today: i64,
}

/// Rate limits of a project.
#[derive(Debug, Clone, Copy, PartialEq, Eq, Structural)]
pub struct RateLimits {
    pub max_signups_per_hour: i64,
    pub max_signin_attempts_per_minute_per_ip: i64,
    pub max_password_resets_per_hour: i64,
    pub max_api_requests_per_second: i64,
}

/// Quotas of a project.
#[derive(Debug, Clone, PartialEq, Eq)]
pub struct ProjectQuotas {
    pub project_id: String,
    pub user_quotas: UserQuotas,
    pub auth_quotas: AuthQuotas,
    pub rate_limits: RateLimits,
}

/// A quota as the OpenAPI wire model holds it.
#[derive(Debug, Clone, Copy, PartialEq, Eq, Structural)]
pub struct QuotaJson {
    pub limit: Option<i64>,
    pub current: Option<i64>,
}

/// The (limit, current) pair of an optional wire quota; absent values are zero.
pub open spec fn quota_pair(q: Option<QuotaJson>) -> (i64, i64) {
    match q {
        Some(q) => (
            match q.limit {
                Some(l) => l,
                None => 0,
            },
            match q.current {
                Some(c) => c,
                None => 0,
            },
        ),
        None => (0, 0),
    }
}

/// Reads a quota as (limit, current), with absent values as zero.
pub fn quota_value_from_response(quota: Option<QuotaJson>) -> (r: (i64, i64))
    ensures
        r == quota_pair(quota),
{
    match quota {
        Some(q) => (
            match q.limit {
                Some(l) => l,
                None => 0,
            },
            match q.current {
                Some(c) => c,
                None => 0,
            },
        ),
        None => (0, 0),
    }
}

/// The project identifier within a resource name "projects/{id}{suffix}".
pub open spec fn project_id_in_name(name: Seq<char>, suffix: Seq<char>) -> Option<Seq<char>> {
    match spec_strip_prefix(name, "projects/"@) {
        Some(rest) => spec_strip_suffix(rest, suffix),
        None => None,
    }
}

/// Extracts the project identifier from a resource name "projects/{id}{suffix}".
pub fn project_id_from_name(name: &str, suffix: &str) -> (r: Option<String>)
    ensures
        opt_view(r) == project_id_in_name(name@, suffix@),
{
    match strip_prefix(name, "projects/") {
        Some(rest) => match strip_suffix(rest, suffix) {
            Some(id) => Some(id.to_string()),
            None => None,
        },
        None => None,
    }
}

/// The identifier of a name built as "projects/{id}{suffix}" is the id.
pub proof fn lemma_project_id_in_name(id: Seq<char>, suffix: Seq<char>)
    ensures
        project_id_in_name("projects/"@ + id + suffix, suffix) == Some(id),
{
    let name = "projects/"@ + id + suffix;
    let p = "projects/"@;
    assert(name.subrange(0, p.len() as int) =~= p);
    let rest = name.skip(p.len() as int);
    assert(rest =~= id + suffix);
    assert(rest.subrange((rest.len() - suffix.len()) as int, rest.len() as int) =~= suffix);
    assert(rest.take(rest.len() - suffix.len()) =~= id);
}


/// A number that may be absent, zero when absent.
pub open spec fn or_zero(o: Option<i64>) -> i64 {
    match o {
        Some(n) => n,
        None => 0,
    }
}

fn zero_if_none(o: Option<i64>) -> (n: i64)
    ensures
        n == or_zero(o),
{
    match o {
        Some(n) => n,
        None => 0,
    }
}

/// Active user counts as the OpenAPI wire model holds them.
#[derive(Debug, Clone, Copy, PartialEq, Eq, Structural)]
pub struct ActiveUsersJson {
    pub monthly: Option<i64>,
    pub daily: Option<i64>,
}

/// Authentication counts as the OpenAPI wire model holds them.
#[derive(Debug, Clone, Copy, PartialEq, Eq, Structural)]
pub struct AuthenticationsJson {
    pub logins: Option<i64>,
    pub failed_attempts: Option<i64>,
    pub signups: Option<i64>,
}

/// A billing period as the OpenAPI wire model holds it.
#[derive(Debug, Clone, PartialEq, Eq)]
pub struct PeriodJson {
    pub start_time: Option<String>,
    pub end_time: Option<String>,
}

/// Project usage as the OpenAPI wire model holds it.
#[derive(Debug, Clone, PartialEq, Eq)]
pub struct UsageJson {
    pub name: Option<String>,
    pub active_users: Option<ActiveUsersJson>,
    pub authentications: Option<AuthenticationsJson>,
    pub period: Option<PeriodJson>,
}

/// The instant of optional RFC 3339 text; text that does not parse is dropped.
pub open spec fn lenient_instant(o: Option<String>) -> Option<UtcInstant> {
    match o {
        Some(s) => rfc3339_instant(s@),
        None => None,
    }
}

/// The project of a usage or quotas response: the identifier in its resource
/// name, or else the fallback identifier.
pub open spec fn project_of(name: Option<String>, suffix: Seq<char>, fallback: Seq<char>) -> Seq<char> {
    match name {
        Some(n) => match project_id_in_name(n@, suffix) {
            Some(id) => id,
            None => fallback,
        },
        None => fallback,
    }
}

fn project_or(name: &Option<String>, suffix: &str, fallback: String) -> (id: String)
    ensures
        id@ == project_of(*name, suffix@, fallback@),
{
    match name {
        Some(n) => match project_id_from_name(n.as_str(), suffix) {
            Some(id) => id,
            None => fallback,
        },
        None => fallback,
    }
}

/// What converting an OpenAPI usage response gives. Counts that the API does not
/// report are zero; absent ones are zero too; period bounds that do not parse are
/// absent. `fallback_project_id` stands for a project whose resource name is
/// absent or not "projects/{id}/usage".
pub open spec fn usage_matches(r: ProjectUsage, usage: Option<UsageJson>, fallback_project_id: Seq<char>) -> bool {
    let u = match usage {
        Some(u) => u,
        None => UsageJson { name: None, active_users: None, authentications: None, period: None },
    };
    let a = match u.active_users {
        Some(a) => a,
        None => ActiveUsersJson { monthly: None, daily: None },
    };
    let t = match u.authentications {
        Some(t) => t,
        None => AuthenticationsJson { logins: None, failed_attempts: None, signups: None },
    };
    let p = match u.period {
        Some(p) => p,
        None => PeriodJson { start_time: None, end_time: None },
    };
    &&& r.project_id@ == project_of(u.name, "/usage"@, fallback_project_id)
    &&& r.monthly_active_users == or_zero(a.monthly)
    &&& r.daily_active_users == or_zero(a.daily)
    &&& r.total_users == 0 && r.total_service_accounts == 0 && r.total_apps == 0 && r.total_tenants == 0
    &&& r.auth_stats == (AuthenticationStats {
        successful_sign_ins: or_zero(t.logins),
        failed_sign_ins: or_zero(t.failed_attempts),
        sign_ups: or_zero(t.signups),
        password_resets: 0,
        email_verifications_sent: 0,
        sms_verifications_sent: 0,
        mfa_challenges: 0,
        custom_token_creations: 0,
        id_token_verifications: 0,
        session_cookie_creations: 0,
    })
    &&& r.billing_period_start == lenient_instant(p.start_time)
    &&& r.billing_period_end == lenient_instant(p.end_time)
    &&& r.updated_at is None
}

/// Converts an OpenAPI usage response.
pub fn usage_from_json(usage: Option<UsageJson>, fallback_project_id: String) -> (r: ProjectUsage)
    ensures
        usage_matches(r, usage, fallback_project_id@),
{
    let u = match usage {
        Some(u) => u,
        None => UsageJson { name: None, active_users: None, authentications: None, period: None },
    };
    let a = match u.active_users {
        Some(a) => a,
        None => ActiveUsersJson { monthly: None, daily: None },
    };
    let t = match u.authentications {
        Some(t) => t,
        None => AuthenticationsJson { logins: None, failed_attempts: None, signups: None },
    };
    let p = match u.period {
        Some(p) => p,
        None => PeriodJson { start_time: None, end_time: None },
    };
    let project_id = project_or(&u.name, "/usage", fallback_project_id);
    ProjectUsage {
        project_id,
        monthly_active_users: zero_if_none(a.monthly),
        daily_active_users: zero_if_none(a.daily),
        total_users: 0,
        total_service_accounts: 0,
        total_apps: 0,
        total_tenants: 0,
        auth_stats: AuthenticationStats {
            successful_sign_ins: zero_if_none(t.logins),
            failed_sign_ins: zero_if_none(t.failed_attempts),
            sign_ups: zero_if_none(t.signups),
            password_resets: 0,
            email_verifications_sent: 0,
            sms_verifications_sent: 0,
            mfa_challenges: 0,
            custom_token_creations: 0,
            id_token_verifications: 0,
            session_cookie_creations: 0,
        },
        billing_period_start: parse_timestamp_ok(p.start_time),
        billing_period_end: parse_timestamp_ok(p.end_time),
        updated_at: None,
    }
}

/// Project quotas as the OpenAPI wire model holds them.
#[derive(Debug, Clone, PartialEq, Eq)]
pub struct QuotasJson {
    pub name: Option<String>,
    pub users: Option<QuotaJson>,
    pub service_accounts: Option<QuotaJson>,
    pub tenants: Option<QuotaJson>,
    pub apps: Option<QuotaJson>,
    pub requests_per_second: Option<QuotaJson>,
    pub requests_per_minute: Option<QuotaJson>,
    pub requests_per_day: Option<QuotaJson>,
}

/// The quotas that (limit, current) pairs stand for. Monthly active users are
/// approximated by the user quota; the signup and password reset limits are
/// read from the per-minute and per-day request quotas; values the API does not
/// report are zero.
pub open spec fn quotas_of_pairs(
    project_id: Seq<char>,
    users: (i64, i64),
    service_accounts: (i64, i64),
    tenants: (i64, i64),
    apps: (i64, i64),
    per_second: (i64, i64),
    per_minute: (i64, i64),
    per_day: (i64, i64),
    r: ProjectQuotas,
) -> bool {
    &&& r.project_id@ == project_id
    &&& r.user_quotas == (UserQuotas {
        max_users: users.0,
        current_users: users.1,
        max_service_accounts: service_accounts.0,
        current_service_accounts: service_accounts.1,
        max_tenants: tenants.0,
        current_tenants: tenants.1,
        max_apps: apps.0,
        current_apps: apps.1,
    })
    &&& r.auth_quotas == (AuthQuotas {
        max_monthly_active_users: users.0,
        current_monthly_active_users: users.1,
        max_email_verifications_per_day: 0,
        current_email_verifications_today: 0,
        max_sms_verifications_per_day: 0,
        current_sms_verifications_today: 0,
    })
    &&& r.rate_limits == (RateLimits {
        max_signups_per_hour: per_minute.0,
        max_signin_attempts_per_minute_per_ip: 0,
        max_password_resets_per_hour: per_day.0,
        max_api_requests_per_second: per_second.0,
    })
}

/// Builds project quotas from (limit, current) pairs.
fn quotas_from_pairs(
    project_id: String,
    users: (i64, i64),
    service_accounts: (i64, i64),
    tenants: (i64, i64),
    apps: (i64, i64),
    per_second: (i64, i64),
    per_minute: (i64, i64),
    per_day: (i64, i64),
) -> (r: ProjectQuotas)
    ensures
        quotas_of_pairs(project_id@, users, service_accounts, tenants, apps, per_second, per_minute, per_day, r),
{
    ProjectQuotas {
        project_id,
        user_quotas: UserQuotas {
            max_users: users.0,
            current_users: users.1,
            max_service_accounts: service_accounts.0,
            current_service_accounts: service_accounts.1,
            max_tenants: tenants.0,
            current_tenants: tenants.1,
            max_apps: apps.0,
            current_apps: apps.1,
        },
        auth_quotas: AuthQuotas {
            max_monthly_active_users: users.0,
            current_monthly_active_users: users.1,
            max_email_verifications_per_day: 0,
            current_email_verifications_today: 0,
            max_sms_verifications_per_day: 0,
            current_sms_verifications_today: 0,
        },
        rate_limits: RateLimits {
            max_signups_per_hour: per_minute.0,
            max_signin_attempts_per_minute_per_ip: 0,
            max_password_resets_per_hour: per_day.0,
            max_api_requests_per_second: per_second.0,
        },
    }
}

/// Converts OpenAPI project quotas; absent quotas are zero. `fallback_project_id`
/// stands for a project whose resource name is absent or not "projects/{id}/quotas".
pub fn parse_project_quotas(quotas: Option<QuotasJson>, fallback_project_id: String) -> (r: ProjectQuotas)
    ensures
        ({
            let q = match quotas {
                Some(q) => q,
                None => QuotasJson {
                    name: None,
                    users: None,
                    service_accounts: None,
                    tenants: None,
                    apps: None,
                    requests_per_second: None,
                    requests_per_minute: None,
                    requests_per_day: None,
                },
            };
            quotas_of_pairs(
                project_of(q.name, "/quotas"@, fallback_project_id@),
                quota_pair(q.users),
                quota_pair(q.service_accounts),
                quota_pair(q.tenants),
                quota_pair(q.apps),
                quota_pair(q.requests_per_second),
                quota_pair(q.requests_per_minute),
                quota_pair(q.requests_per_day),
                r,
            )
        }),
{
    let q = match quotas {
        Some(q) => q,
        None => QuotasJson {
            name: None,
            users: None,
            service_accounts: None,
            tenants: None,
            apps: None,
            requests_per_second: None,
            requests_per_minute: None,
            requests_per_day: None,
        },
    };
    let project_id = project_or(&q.name, "/quotas", fallback_project_id);
    quotas_from_pairs(
        project_id,
        quota_value_from_response(q.users),
        quota_value_from_response(q.service_accounts),
        quota_value_from_response(q.tenants),
        quota_value_from_response(q.apps),
        quota_value_from_response(q.requests_per_second),
        quota_value_from_response(q.requests_per_minute),
        quota_value_from_response(q.requests_per_day),
    )
}

/// What reading a gRPC resource name "projects/{id}/..." gives: the second
/// '/'-separated piece when the first is "projects", else an invalid resource name.
pub open spec fn project_id_of_resource(name: Seq<char>) -> Result<Seq<char>, ValidationError> {
    let parts = split_on(name, '/');
    if parts.len() >= 2 && parts[0] == "projects"@ {
        Ok(parts[1])
    } else {
        Err(ValidationError::InvalidValue("resource_name"))
    }
}

/// Reads the project identifier of a gRPC resource name such as
/// "projects/{id}/usage" or "projects/{id}/quotas".
pub fn project_id_from_resource_name(name: &str) -> (r: Result<String, ValidationError>)
    ensures
        match r {
            Ok(id) => project_id_of_resource(name@) == Ok::<Seq<char>, ValidationError>(id@),
            Err(e) => project_id_of_resource(name@) == Err::<Seq<char>, ValidationError>(e),
        },
{
    let mut parts = split_on_char(name, '/');
    let ghost pv = views(parts@);
    if parts.len() >= 2 && str_eq(parts[0].as_str(), "projects") {
        let id = parts.remove(1);
        assert(id@ == pv[1]);
        Ok(id)
    } else {
        Err(ValidationError::InvalidValue("resource_name"))
    }
}

/// The identifier of a resource name "projects/{id}/{rest}", for an identifier
/// without '/', is that identifier.
pub proof fn lemma_project_id_of_resource(id: Seq<char>, rest: Seq<char>)
    requires
        !id.contains('/'),
    ensures
        project_id_of_resource("projects/"@ + id + "/"@ + rest) == Ok::<Seq<char>, ValidationError>(id),
{
    reveal_strlit("projects/");
    reveal_strlit("projects");
    reveal_strlit("/");
    let projects = "projects"@;
    assert(!projects.contains('/'));
    lemma_split_on_without_sep(projects, '/');
    lemma_split_on_without_sep(id, '/');
    let name = "projects/"@ + id + "/"@ + rest;
    assert(name =~= projects.push('/') + (id.push('/') + rest));
    crate::text::lemma_split_on_concat(projects, id.push('/') + rest, '/');
    crate::text::lemma_split_on_concat(id, rest, '/');
    crate::text::lemma_split_on_nonempty(rest, '/');
    let parts = split_on(name, '/');
    assert(parts == seq![projects] + (seq![id] + split_on(rest, '/')));
    assert(parts[0] == projects);
    assert(parts[1] == id);
}


/// A protobuf quota limit.
#[derive(Debug, Clone, Copy, PartialEq, Eq, Structural)]
pub struct ProtoQuotaLimit {
    pub limit: i64,
    pub current: i64,
}

/// The (limit, current) pair of an optional protobuf quota; (0, 0) when absent.
pub open spec fn proto_quota_pair(q: Option<ProtoQuotaLimit>) -> (i64, i64) {
    match q {
        Some(q) => (q.limit, q.current),
        None => (0, 0),
    }
}

/// Reads a protobuf quota as (limit, current), (0, 0) when absent.
pub fn quota_limit_value(quota: Option<ProtoQuotaLimit>) -> (r: (i64, i64))
    ensures
        r == proto_quota_pair(quota),
{
    match quota {
        Some(q) => (q.limit, q.current),
        None => (0, 0),
    }
}

/// Protobuf project quotas.
#[derive(Debug, Clone, PartialEq, Eq)]
pub struct ProtoProjectQuotas {
    pub name: String,
    pub users: Option<ProtoQuotaLimit>,
    pub service_accounts: Option<ProtoQuotaLimit>,
    pub tenants: Option<ProtoQuotaLimit>,
    pub apps: Option<ProtoQuotaLimit>,
    pub requests_per_second: Option<ProtoQuotaLimit>,
    pub requests_per_minute: Option<ProtoQuotaLimit>,
    pub requests_per_day: Option<ProtoQuotaLimit>,
}

/// Converts protobuf project quotas; the resource name must name a project.
pub fn project_quotas_from_proto(proto: ProtoProjectQuotas) -> (r: Result<ProjectQuotas, ValidationError>)
    ensures
        match project_id_of_resource(proto.name@) {
            Err(e) => r == Err::<ProjectQuotas, ValidationError>(e),
            Ok(id) => r matches Ok(q) && quotas_of_pairs(
                id,
                proto_quota_pair(proto.users),
                proto_quota_pair(proto.service_accounts),
                proto_quota_pair(proto.tenants),
                proto_quota_pair(proto.apps),
                proto_quota_pair(proto.requests_per_second),
                proto_quota_pair(proto.requests_per_minute),
                proto_quota_pair(proto.requests_per_day),
                q,
            ),
        },
{
    let project_id = match project_id_from_resource_name(proto.name.as_str()) {
        Ok(id) => id,
        Err(e) => return Err(e),
    };
    Ok(quotas_from_pairs(
        project_id,
        quota_limit_value(proto.users),
        quota_limit_value(proto.service_accounts),
        quota_limit_value(proto.tenants),
        quota_limit_value(proto.apps),
        quota_limit_value(proto.requests_per_second),
        quota_limit_value(proto.requests_per_minute),
        quota_limit_value(proto.requests_per_day),
    ))
}

/// A protobuf usage period.
#[derive(Debug, Clone, Copy, PartialEq, Eq, Structural)]
pub struct ProtoPeriod {
    pub start_time: Option<ProtoTimestamp>,
    pub end_time: Option<ProtoTimestamp>,
}

/// Protobuf active user counts.
#[derive(Debug, Clone, Copy, PartialEq, Eq, Structural)]
pub struct ProtoActiveUsers {
    pub monthly: i64,
    pub daily: i64,
}

/// Protobuf authentication counts.
#[derive(Debug, Clone, Copy, PartialEq, Eq, Structural)]
pub struct ProtoAuthentications {
    pub logins: i64,
    pub failed_attempts: i64,
    pub signups: i64,
}

/// Protobuf storage counts.
#[derive(Debug, Clone, Copy, PartialEq, Eq, Structural)]
pub struct ProtoStorage {
    pub total_users: i64,
    pub total_service_accounts: i64,
    pub total_apps: i64,
    pub total_tenants: i64,
}

/// Protobuf project usage.
#[derive(Debug, Clone, PartialEq, Eq)]
pub struct ProtoProjectUsage {
    pub name: String,
    pub period: Option<ProtoPeriod>,
    pub active_users: Option<ProtoActiveUsers>,
    pub authentications: Option<ProtoAuthentications>,
    pub storage: Option<ProtoStorage>,
}

/// The instant of an optional protobuf timestamp, absent when it is not one.
pub open spec fn opt_proto_instant(o: Option<ProtoTimestamp>) -> Option<UtcInstant> {
    match o {
        Some(t) => proto_instant(t),
        None => None,
    }
}

/// Converts protobuf project usage: the resource name must name a project;
/// absent messages count as zero; counts not in the protobuf are zero.
pub fn project_usage_from_proto(proto: ProtoProjectUsage) -> (r: Result<ProjectUsage, ValidationError>)
    ensures
        match project_id_of_resource(proto.name@) {
            Err(e) => r == Err::<ProjectUsage, ValidationError>(e),
            Ok(id) => r matches Ok(u) && {
                let period = match proto.period {
                    Some(p) => p,
                    None => ProtoPeriod { start_time: None, end_time: None },
                };
                let a = match proto.active_users {
                    Some(a) => a,
                    None => ProtoActiveUsers { monthly: 0, daily: 0 },
                };
                let t = match proto.authentications {
                    Some(t) => t,
                    None => ProtoAuthentications { logins: 0, failed_attempts: 0, signups: 0 },
                };
                let st = match proto.storage {
                    Some(st) => st,
                    None => ProtoStorage { total_users: 0, total_service_accounts: 0, total_apps: 0, total_tenants: 0 },
                };
                &&& u.project_id@ == id
                &&& u.monthly_active_users == a.monthly && u.daily_active_users == a.daily
                &&& u.total_users == st.total_users && u.total_service_accounts == st.total_service_accounts
                &&& u.total_apps == st.total_apps && u.total_tenants == st.total_tenants
                &&& u.auth_stats == (AuthenticationStats {
                    successful_sign_ins: t.logins,
                    failed_sign_ins: t.failed_attempts,
                    sign_ups: t.signups,
                    password_resets: 0,
                    email_verifications_sent: 0,
                    sms_verifications_sent: 0,
                    mfa_challenges: 0,
                    custom_token_creations: 0,
                    id_token_verifications: 0,
                    session_cookie_creations: 0,
                })
                &&& u.billing_period_start == opt_proto_instant(period.start_time)
                &&& u.billing_period_end == opt_proto_instant(period.end_time)
                &&& u.updated_at is None
            },
        },
{
    let project_id = match project_id_from_resource_name(proto.name.as_str()) {
        Ok(id) => id,
        Err(e) => return Err(e),
    };
    let period = match proto.period {
        Some(p) => p,
        None => ProtoPeriod { start_time: None, end_time: None },
    };
    let a = match proto.active_users {
        Some(a) => a,
        None => ProtoActiveUsers { monthly: 0, daily: 0 },
    };
    let t = match proto.authentications {
        Some(t) => t,
        None => ProtoAuthentications { logins: 0, failed_attempts: 0, signups: 0 },
    };
    let st = match proto.storage {
        Some(st) => st,
        None => ProtoStorage { total_users: 0, total_service_accounts: 0, total_apps: 0, total_tenants: 0 },
    };
    Ok(ProjectUsage {
        project_id,
        monthly_active_users: a.monthly,
        daily_active_users: a.daily,
        total_users: st.total_users,
        total_service_accounts: st.total_service_accounts,
        total_apps: st.total_apps,
        total_tenants: st.total_tenants,
        auth_stats: AuthenticationStats {
            successful_sign_ins: t.logins,
            failed_sign_ins: t.failed_attempts,
            sign_ups: t.signups,
            password_resets: 0,
            email_verifications_sent: 0,
            sms_verifications_sent: 0,
            mfa_challenges: 0,
            custom_token_creations: 0,
            id_token_verifications: 0,
            session_cookie_creations: 0,
        },
        billing_period_start: optional_proto_timestamp_instant(period.start_time),
        billing_period_end: optional_proto_timestamp_instant(period.end_time),
        updated_at: None,
    })
}

/// The protobuf request for a project's usage over an optional date range.
#[derive(Debug, Clone, PartialEq, Eq)]
pub struct ProtoGetProjectUsageRequest {
    pub project_id: String,
    pub start_time: Option<ProtoTimestamp>,
    pub end_time: Option<ProtoTimestamp>,
}

fn opt_instant_to_proto(o: Option<UtcInstant>) -> (r: Option<ProtoTimestamp>)
    requires
        o matches Some(i) ==> i.nanos < 2_000_000_000,
    ensures
        match o {
            Some(i) => r == Some(ProtoTimestamp { seconds: i.seconds, nanos: i.nanos as i32 }),
            None => r is None,
        },
{
    match o {
        Some(i) => Some(crate::timestamp::datetime_to_timestamp(i)),
        None => None,
    }
}

/// Builds the protobuf request for a project's usage.
pub fn usage_request_to_proto(
    project_id: String,
    start_date: Option<UtcInstant>,
    end_date: Option<UtcInstant>,
) -> (r: ProtoGetProjectUsageRequest)
    requires
        start_date matches Some(i) ==> i.nanos < 2_000_000_000,
        end_date matches Some(i) ==> i.nanos < 2_000_000_000,
    ensures
        r.project_id@ == project_id@,
        match start_date {
            Some(i) => r.start_time == Some(ProtoTimestamp { seconds: i.seconds, nanos: i.nanos as i32 }),
            None => r.start_time is None,
        },
        match end_date {
            Some(i) => r.end_time == Some(ProtoTimestamp { seconds: i.seconds, nanos: i.nanos as i32 }),
            None => r.end_time is None,
        },
{
    ProtoGetProjectUsageRequest {
        project_id,
        start_time: opt_instant_to_proto(start_date),
        end_time: opt_instant_to_proto(end_date),
    }
}

/// A request to change the quotas of a project; absent limits are left unchanged.
#[derive(Debug, Clone, Copy, PartialEq, Eq, Structural)]
pub struct QuotaLimits {
    pub max_users: Option<i64>,
    pub max_service_accounts: Option<i64>,
    pub max_tenants: Option<i64>,
    pub max_apps: Option<i64>,
    pub max_monthly_active_users: Option<i64>,
}

/// The body of a quota update over HTTP; it has no member for monthly active users.
#[derive(Debug, Clone, Copy, PartialEq, Eq, Structural)]
pub struct QuotasUpdateBody {
    pub users: Option<i64>,
    pub service_accounts: Option<i64>,
    pub tenants: Option<i64>,
    pub apps: Option<i64>,
}

/// Builds the body of a quota update over HTTP: each given limit in its member;
/// the monthly active users limit is not sent.
pub fn build_quotas_update_body(limits: QuotaLimits) -> (b: QuotasUpdateBody)
    ensures
        b == (QuotasUpdateBody {
            users: limits.max_users,
            service_accounts: limits.max_service_accounts,
            tenants: limits.max_tenants,
            apps: limits.max_apps,
        }),
{
    QuotasUpdateBody {
        users: limits.max_users,
        service_accounts: limits.max_service_accounts,
        tenants: limits.max_tenants,
        apps: limits.max_apps,
    }
}

/// The protobuf request that updates a project's quotas.
#[derive(Debug, Clone, PartialEq, Eq)]
pub struct ProtoUpdateProjectQuotasRequest {
    pub project_id: String,
    pub users: Option<i64>,
    pub service_accounts: Option<i64>,
    pub tenants: Option<i64>,
    pub apps: Option<i64>,
    pub api_keys_per_app: Option<i64>,
    pub requests_per_minute: Option<i64>,
    pub requests_per_day: Option<i64>,
}

/// Builds the protobuf quota update: each given limit in its member, and none of
/// the limits the domain request does not have (keys per app, request rates).
pub fn quotas_update_request_to_proto(project_id: String, limits: QuotaLimits) -> (r: ProtoUpdateProjectQuotasRequest)
    ensures
        r.project_id@ == project_id@,
        r.users == limits.max_users,
        r.service_accounts == limits.max_service_accounts,
        r.tenants == limits.max_tenants,
        r.apps == limits.max_apps,
        r.api_keys_per_app is None && r.requests_per_minute is None && r.requests_per_day is None,
{
    ProtoUpdateProjectQuotasRequest {
        project_id,
        users: limits.max_users,
        service_accounts: limits.max_service_accounts,
        tenants: limits.max_tenants,
        apps: limits.max_apps,
        api_keys_per_app: None,
        requests_per_minute: None,
        requests_per_day: None,
    }
}

} // verus!

//! Properties that span several conversions and classifications of the library.

use vstd::prelude::*;
use crate::convert::{all_json_results, FromJson};
use crate::http_error::{
    api_error_view, fallback_error_view, is_typed, message_or_title, problem_error_view,
    problem_first_error_view, AdminErrorView, ApiFailure, ErrorEntity, ErrorProfile,
};
use crate::problem::{
    details_of_document, lemma_slug_of_type_url, param_views, slug_of, ErrorDetailsView,
    InvalidParam, ProblemDocument, ERROR_TYPE_BASE_URL,
};
use crate::operations::{creates_resource, operation_error_view, operation_policy, AdminOperation, FailurePolicy};
use crate::project::{known_mfa_methods, mfa_method_names, tenant_name_project, MfaMethod};
use crate::service_account::{algorithm_of_wire, wire_of_algorithm, KeyAlgorithm, WireKeyAlgorithm};
use crate::status::{has_typed_first_info, problem_of_status, ErrorInfoView};
use crate::text::{lemma_split_on_concat, lemma_split_on_without_sep, split_on};
use crate::problem::{InvalidParamView, ProblemResponse};
use crate::project::{project_of_json, ProjectJson, ProjectState, WireProjectState};
use crate::status::{invalid_param_of, params_of_infos};
use crate::timestamp::{utc_seconds_in_range, UtcInstant};
use crate::token::{find_claim, token_matches, Claim};
use crate::usage::{
    proto_quota_pair, quota_pair, quotas_of_pairs, ProjectQuotas, ProtoQuotaLimit, QuotaJson,
};

verus! {

/// Converting a list converts each item in order: it succeeds exactly when every
/// item converts, and then gives one value per item, each that item's value;
/// when it fails, the error is that of the first item that does not convert.
pub proof fn law_list_conversion<T: FromJson>(items: Seq<T::Json>)
    ensures
        all_json_results::<T>(items) is Ok <==> forall|i: int|
            0 <= i < items.len() ==> (#[trigger] T::json_result(items[i])) is Ok,
        all_json_results::<T>(items) matches Ok(vs) ==> {
            &&& vs.len() == items.len()
            &&& forall|i: int| 0 <= i < items.len() ==> #[trigger] T::json_result(items[i])
                == Ok::<T::V, crate::problem::ValidationError>(vs[i])
        },
        all_json_results::<T>(items) matches Err(e) ==> exists|i: int|
            0 <= i < items.len() && #[trigger] T::json_result(items[i])
                == Err::<T::V, crate::problem::ValidationError>(e) && forall|j: int|
                0 <= j < i ==> (#[trigger] T::json_result(items[j])) is Ok,
    decreases items.len(),
{
    if items.len() > 0 {
        let rest = items.drop_first();
        law_list_conversion::<T>(rest);
        assert forall|i: int| 0 < i < items.len() implies #[trigger] items[i] == rest[i - 1] by {}
        match T::json_result(items[0]) {
            Err(e) => {
                assert(T::json_result(items[0]) == Err::<T::V, crate::problem::ValidationError>(e));
            },
            Ok(v) => {
                match all_json_results::<T>(rest) {
                    Ok(vs) => {
                        let all = seq![v] + vs;
                        assert forall|i: int| 0 <= i < items.len() implies #[trigger] T::json_result(items[i])
                            == Ok::<T::V, crate::problem::ValidationError>(all[i]) by {
                            if i > 0 {
                                assert(items[i] == rest[i - 1]);
                                assert(T::json_result(rest[i - 1]) == Ok::<T::V, crate::problem::ValidationError>(vs[i - 1]));
                            }
                        }
                    },
                    Err(e) => {
                        let k = choose|k: int|
                            0 <= k < rest.len() && #[trigger] T::json_result(rest[k])
                                == Err::<T::V, crate::problem::ValidationError>(e) && forall|j: int|
                                0 <= j < k ==> (#[trigger] T::json_result(rest[j])) is Ok;
                        assert(items[k + 1] == rest[k]);
                        assert forall|j: int| 0 <= j < k + 1 implies (#[trigger] T::json_result(items[j])) is Ok by {
                            if j > 0 {
                                assert(items[j] == rest[j - 1]);
                                assert(T::json_result(rest[j - 1]) is Ok);
                            }
                        }
                        assert(T::json_result(items[k + 1]) == Err::<T::V, crate::problem::ValidationError>(e));
                    },
                }
            },
        }
    }
}

/// The error type of a typed gRPC error survives into the Problem Details type
/// URL: its slug is the reason of the first `ErrorInfo`. A status without a
/// typed `ErrorInfo` has the slug `unknown`.
pub proof fn law_grpc_error_type_slug(
    code: i32,
    message: Seq<char>,
    infos: Seq<ErrorInfoView>,
    http_status: u16,
)
    ensures
        slug_of(problem_of_status(code, message, infos, http_status).problem_type) == (if has_typed_first_info(infos) {
            infos[0].reason
        } else {
            "unknown"@
        }),
{
    if has_typed_first_info(infos) {
        lemma_slug_of_type_url(infos[0].reason);
    } else {
        lemma_slug_of_type_url("unknown"@);
    }
}

/// A Problem Details body whose type is a documentation URL reads back as error
/// details with that URL's slug, the body's title, detail and invalid parameters.
pub proof fn law_problem_document_reads_back(
    slug: Seq<char>,
    title: String,
    detail: Option<String>,
    status: Option<u16>,
    instance: Option<String>,
    invalid_params: Vec<InvalidParam>,
    type_url: String,
)
    requires
        type_url@ == ERROR_TYPE_BASE_URL@ + slug,
    ensures
        details_of_document(
            ProblemDocument {
                problem_type: Some(type_url),
                title: Some(title),
                status,
                detail,
                instance,
                invalid_params,
            },
        ) == Some(
            ErrorDetailsView {
                error_type: slug,
                title: title@,
                message: crate::problem::opt_view(detail),
                invalid_params: param_views(invalid_params@),
            },
        ),
{
    lemma_slug_of_type_url(slug);
}

/// When a failed response's body decodes as Problem Details with a type, the
/// error depends on the status and those details alone: neither the typed error
/// body that the client may have decoded nor the raw text matters.
pub proof fn law_problem_details_decide(
    status: u16,
    content1: String,
    content2: String,
    entity1: Option<ErrorEntity>,
    entity2: Option<ErrorEntity>,
    doc: ProblemDocument,
    profile: ErrorProfile,
)
    requires
        details_of_document(doc) is Some,
    ensures
        problem_first_error_view(ApiFailure::Response { status, content: content1, entity: entity1 }, Some(doc), profile)
            == problem_first_error_view(ApiFailure::Response { status, content: content2, entity: entity2 }, Some(doc), profile),
        problem_first_error_view(ApiFailure::Response { status, content: content1, entity: entity1 }, Some(doc), profile)
            == problem_error_view(status, details_of_document(doc)->0, profile),
{
}

/// A server error status (500 to 599) is reported as a service error, with the
/// Problem Details message (or title) when the body is Problem Details, and with
/// the raw body when it is neither Problem Details nor a typed error body.
pub proof fn law_server_error_status(
    status: u16,
    content: String,
    entity: Option<ErrorEntity>,
    document: Option<ProblemDocument>,
    profile: ErrorProfile,
)
    requires
        500 <= status <= 599,
    ensures
        ({
            let failure = ApiFailure::Response { status, content, entity };
            let problem = match document {
                Some(d) => details_of_document(d),
                None => None,
            };
            &&& problem matches Some(p) ==> problem_first_error_view(failure, document, profile)
                == AdminErrorView::ServiceError(message_or_title(p))
            &&& (problem is None && !is_typed(entity)) ==> problem_first_error_view(failure, document, profile)
                == AdminErrorView::ServiceError(content@)
            &&& entity is None ==> api_error_view(failure, profile) == AdminErrorView::ServiceError(content@)
        }),
{
}

/// A failure to reach the server is reported as the service being unavailable,
/// with the transport's message, whatever the operation and classification.
pub proof fn law_transport_failure(message: String, document: Option<ProblemDocument>, profile: ErrorProfile)
    ensures
        problem_first_error_view(ApiFailure::Transport(message), document, profile)
            == AdminErrorView::ServiceUnavailable(message@),
        api_error_view(ApiFailure::Transport(message), profile) == AdminErrorView::ServiceUnavailable(message@),
{
}

/// The status code alone decides the error for a body that is neither Problem
/// Details nor a typed error: it is the fallback classification of that status.
pub proof fn law_untyped_body_falls_back(
    status: u16,
    content: String,
    entity: Option<ErrorEntity>,
    document: Option<ProblemDocument>,
    profile: ErrorProfile,
)
    requires
        !is_typed(entity),
        match document {
            Some(d) => details_of_document(d) is None,
            None => true,
        },
    ensures
        problem_first_error_view(ApiFailure::Response { status, content, entity }, document, profile)
            == fallback_error_view(status, content@, profile),
{
}

/// The second factor names that a tenant is read with are all known to the
/// request builders, which send the same factors back, in order.
pub proof fn law_mfa_names_roundtrip(methods: Seq<MfaMethod>)
    ensures
        known_mfa_methods(mfa_method_names(methods)) == methods,
    decreases methods.len(),
{
    reveal_strlit("phone");
    reveal_strlit("totp");
    if methods.len() > 0 {
        let init = methods.drop_last();
        law_mfa_names_roundtrip(init);
        assert(mfa_method_names(methods).drop_last() =~= mfa_method_names(init));
        assert(mfa_method_names(methods).last() == crate::project::mfa_method_name(methods.last()));
        assert("phone"@ != "totp"@) by {
            assert("phone"@[0] != "totp"@[0]);
        }
        assert(methods =~= init.push(methods.last()));
    } else {
        assert(mfa_method_names(methods) =~= Seq::<Seq<char>>::empty());
        assert(methods =~= Seq::<MfaMethod>::empty());
    }
}

/// The project of a tenant resource name built from a project and a tenant
/// identifier (both non-empty, neither holding '/') is that project.
pub proof fn law_tenant_name_project(project: Seq<char>, tenant: Seq<char>)
    requires
        project.len() > 0,
        tenant.len() > 0,
        !project.contains('/'),
        !tenant.contains('/'),
    ensures
        tenant_name_project("projects/"@ + project + "/tenants/"@ + tenant) == Some(project),
{
    reveal_strlit("projects/");
    reveal_strlit("/tenants/");
    reveal_strlit("projects");
    reveal_strlit("tenants");
    let a = "projects"@;
    let b = "tenants"@;
    let name = "projects/"@ + project + "/tenants/"@ + tenant;
    let rest2 = b.push('/') + tenant;
    let rest1 = project.push('/') + rest2;
    assert(name =~= a.push('/') + rest1);
    lemma_split_on_concat(a, rest1, '/');
    lemma_split_on_concat(project, rest2, '/');
    lemma_split_on_concat(b, tenant, '/');
    assert(!a.contains('/')) by {
        if a.contains('/') {
            let k = choose|k: int| 0 <= k < a.len() && a[k] == '/';
            assert(a[k] != '/');
        }
    }
    assert(!b.contains('/')) by {
        if b.contains('/') {
            let k = choose|k: int| 0 <= k < b.len() && b[k] == '/';
            assert(b[k] != '/');
        }
    }
    lemma_split_on_without_sep(a, '/');
    lemma_split_on_without_sep(project, '/');
    lemma_split_on_without_sep(b, '/');
    lemma_split_on_without_sep(tenant, '/');
    assert(split_on(name, '/') =~= seq![a, project, b, tenant]);
}

/// Every key algorithm that can be requested explicitly comes back as itself
/// when the server reports it, and every reported algorithm can be requested.
pub proof fn law_key_algorithm_roundtrip(a: KeyAlgorithm, w: WireKeyAlgorithm)
    ensures
        a != KeyAlgorithm::Unspecified ==> algorithm_of_wire(wire_of_algorithm(a)) == a,
        wire_of_algorithm(algorithm_of_wire(w)) == w,
{
}

/// Whatever the operation, a failure to reach the server is reported as the
/// service being unavailable, with the transport's message.
pub proof fn law_operation_transport_failure(op: AdminOperation, message: String, document: Option<ProblemDocument>)
    ensures
        operation_error_view(op, ApiFailure::Transport(message), document)
            == AdminErrorView::ServiceUnavailable(message@),
{
}

/// An operation that creates a resource reports HTTP 409 as "already exists",
/// whether the body is Problem Details, the typed 409 body, or neither. (A body
/// of no known shape is reported as such by the operations that trust the typed
/// body first.)
pub proof fn law_creation_conflict(
    op: AdminOperation,
    content: String,
    entity: Option<ErrorEntity>,
    document: Option<ProblemDocument>,
)
    requires
        creates_resource(op),
        match entity {
            None => true,
            Some(ErrorEntity::Status409(_)) => true,
            Some(ErrorEntity::UnknownValue(_)) => operation_policy(op) == FailurePolicy::ProblemFirst,
            Some(_) => false,
        },
    ensures
        operation_error_view(op, ApiFailure::Response { status: 409, content, entity }, document)
            == AdminErrorView::AlreadyExists,
{
}

/// The text that a typed error body carries: its detail, or its title when it
/// has no detail.
pub open spec fn body_text(e: ProblemResponse) -> Seq<char> {
    match e.detail {
        Some(d) => d@,
        None => e.title@,
    }
}

/// A typed 403 body is reported as "permission denied" and a typed 401 body as
/// "unauthenticated", each with the body's detail (or title), whatever the
/// operation's rules, the status line and the raw text; this holds when the typed
/// body is read first, and when it is read after a body that is not Problem Details.
pub proof fn law_typed_auth_bodies(
    e: ProblemResponse,
    profile: ErrorProfile,
    status: u16,
    content: String,
    document: Option<ProblemDocument>,
)
    requires
        match document {
            Some(d) => details_of_document(d) is None,
            None => true,
        },
    ensures
        api_error_view(ApiFailure::Response { status, content, entity: Some(ErrorEntity::Status403(e)) }, profile)
            == AdminErrorView::PermissionDenied(body_text(e)),
        api_error_view(ApiFailure::Response { status, content, entity: Some(ErrorEntity::Status401(e)) }, profile)
            == AdminErrorView::Unauthenticated(body_text(e)),
        problem_first_error_view(
            ApiFailure::Response { status, content, entity: Some(ErrorEntity::Status403(e)) },
            document,
            profile,
        ) == AdminErrorView::PermissionDenied(body_text(e)),
        problem_first_error_view(
            ApiFailure::Response { status, content, entity: Some(ErrorEntity::Status401(e)) },
            document,
            profile,
        ) == AdminErrorView::Unauthenticated(body_text(e)),
{
}

/// Whether an `ErrorInfo` describes an invalid parameter (has a `field.key`).
pub open spec fn describes_param(i: ErrorInfoView) -> bool {
    i.metadata.contains_key("field.key"@)
}

/// The invalid parameter an `ErrorInfo` describes: the `field.key` entry is its
/// name, an absent reason is empty, and the expected values are the
/// comma-separated pieces of `field.expected_values`.
pub open spec fn described_param(i: ErrorInfoView) -> InvalidParamView {
    InvalidParamView {
        name: i.metadata["field.key"@],
        reason: if i.metadata.contains_key("field.reason"@) {
            i.metadata["field.reason"@]
        } else {
            Seq::empty()
        },
        value: if i.metadata.contains_key("field.value"@) {
            Some(i.metadata["field.value"@])
        } else {
            None
        },
        expected_values: if i.metadata.contains_key("field.expected_values"@) {
            split_on(i.metadata["field.expected_values"@], ',')
        } else {
            Seq::empty()
        },
    }
}

/// The invalid parameters of a gRPC status are those of its `ErrorInfo`s that
/// have a `field.key`, one each and in order: the `ErrorInfo`s filtered by that
/// key, each mapped to the parameter it describes. So there are as many as such
/// `ErrorInfo`s, and those of `a + b` are those of `a` followed by those of `b`.
pub proof fn law_invalid_params_of_infos(infos: Seq<ErrorInfoView>, a: Seq<ErrorInfoView>, b: Seq<ErrorInfoView>)
    ensures
        params_of_infos(infos) == infos.filter(|i: ErrorInfoView| describes_param(i)).map_values(
            |i: ErrorInfoView| described_param(i),
        ),
        params_of_infos(infos).len() == infos.filter(|i: ErrorInfoView| describes_param(i)).len(),
        params_of_infos(a + b) == params_of_infos(a) + params_of_infos(b),
        forall|code: i32, message: Seq<char>, http_status: u16|
            #[trigger] problem_of_status(code, message, infos, http_status).invalid_params
                == infos.filter(|i: ErrorInfoView| describes_param(i)).map_values(|i: ErrorInfoView| described_param(i)),
{
    lemma_params_filter(infos);
    lemma_params_filter(a);
    lemma_params_filter(b);
    lemma_params_filter(a + b);
    let pred = |i: ErrorInfoView| describes_param(i);
    let f = |i: ErrorInfoView| described_param(i);
    Seq::filter_distributes_over_add(a, b, pred);
    assert((a.filter(pred) + b.filter(pred)).map_values(f) =~= a.filter(pred).map_values(f) + b.filter(pred).map_values(f));
}

proof fn lemma_params_filter(infos: Seq<ErrorInfoView>)
    ensures
        params_of_infos(infos) == infos.filter(|i: ErrorInfoView| describes_param(i)).map_values(
            |i: ErrorInfoView| described_param(i),
        ),
    decreases infos.len(),
{
    let pred = |i: ErrorInfoView| describes_param(i);
    let f = |i: ErrorInfoView| described_param(i);
    reveal_with_fuel(Seq::<ErrorInfoView>::filter, 1);
    if infos.len() == 0 {
        assert(infos.filter(pred) =~= Seq::<ErrorInfoView>::empty());
        assert(infos.filter(pred).map_values(f) =~= Seq::<InvalidParamView>::empty());
    } else {
        lemma_params_filter(infos.drop_last());
        let rest = infos.drop_last().filter(pred);
        if pred(infos.last()) {
            assert(invalid_param_of(infos.last().metadata) == Some(f(infos.last())));
            assert(rest.push(infos.last()).map_values(f) =~= rest.map_values(f).push(f(infos.last())));
        } else {
            assert(invalid_param_of(infos.last().metadata) is None);
        }
    }
}

/// Reading a project keeps its lifecycle state: a wire state Active reads as
/// Active, Deleted as Deleted, and an absent state as Unspecified; in particular
/// a deleted project never reads as active, nor an active one as deleted.
pub proof fn law_project_state_kept(j: ProjectJson)
    ensures
        project_of_json(j) matches Ok(p) ==> {
            &&& j.state == Some(WireProjectState::Active) ==> p.state == ProjectState::Active
            &&& j.state == Some(WireProjectState::Deleted) ==> p.state == ProjectState::Deleted
            &&& j.state is None ==> p.state == ProjectState::Unspecified
        },
{
}

/// Each quota of a project reads as its limit and its current count, member for
/// member: the user, service account, tenant and app quotas give the matching
/// max and current fields, the user quota also the monthly active users, and the
/// per-second, per-minute and per-day request quotas give the API, signup and
/// password reset rate limits.
pub proof fn law_quota_fields(
    project_id: Seq<char>,
    users: (i64, i64),
    service_accounts: (i64, i64),
    tenants: (i64, i64),
    apps: (i64, i64),
    per_second: (i64, i64),
    per_minute: (i64, i64),
    per_day: (i64, i64),
    r: ProjectQuotas,
)
    requires
        quotas_of_pairs(project_id, users, service_accounts, tenants, apps, per_second, per_minute, per_day, r),
    ensures
        r.project_id@ == project_id,
        r.user_quotas.max_users == users.0 && r.user_quotas.current_users == users.1,
        r.user_quotas.max_service_accounts == service_accounts.0,
        r.user_quotas.current_service_accounts == service_accounts.1,
        r.user_quotas.max_tenants == tenants.0 && r.user_quotas.current_tenants == tenants.1,
        r.user_quotas.max_apps == apps.0 && r.user_quotas.current_apps == apps.1,
        r.auth_quotas.max_monthly_active_users == users.0,
        r.auth_quotas.current_monthly_active_users == users.1,
        r.rate_limits.max_api_requests_per_second == per_second.0,
        r.rate_limits.max_signups_per_hour == per_minute.0,
        r.rate_limits.max_password_resets_per_hour == per_day.0,
{
}

/// A wire quota reads as (limit, current), each zero when absent; a protobuf
/// quota as its (limit, current), and (0, 0) when absent.
pub proof fn law_quota_pairs(limit: Option<i64>, current: Option<i64>, proto: ProtoQuotaLimit)
    ensures
        quota_pair(Some(QuotaJson { limit, current })).0 == (match limit {
            Some(l) => l,
            None => 0,
        }),
        quota_pair(Some(QuotaJson { limit, current })).1 == (match current {
            Some(c) => c,
            None => 0,
        }),
        quota_pair(None) == (0i64, 0i64),
        proto_quota_pair(Some(proto)) == (proto.limit, proto.current),
        proto_quota_pair(None) == (0i64, 0i64),
{
}

/// A decoded token expires at its integer `exp` claim, when chrono can hold it,
/// whatever the current time; only without such a claim does it expire now.
/// Likewise it was issued at its `iat` claim.
pub proof fn law_token_times(
    r: Result<crate::token::DecodedIdToken, crate::problem::ValidationError>,
    id: String,
    email: Option<Option<String>>,
    email_verified: Option<bool>,
    claims: Vec<Claim>,
    now: UtcInstant,
    fallback: Seq<char>,
    exp: i64,
    iat: i64,
)
    requires
        token_matches(r, Some(id), email, email_verified, Some(claims), now, fallback),
    ensures
        r is Ok,
        (find_claim(claims@, "exp"@) matches Some(c) && c.integer == Some(exp) && utc_seconds_in_range(exp))
            ==> r->Ok_0.expires_at == (UtcInstant { seconds: exp, nanos: 0 }),
        find_claim(claims@, "exp"@) is None ==> r->Ok_0.expires_at == now,
        (find_claim(claims@, "iat"@) matches Some(c) && c.integer == Some(iat) && utc_seconds_in_range(iat))
            ==> r->Ok_0.issued_at == (UtcInstant { seconds: iat, nanos: 0 }),
        find_claim(claims@, "iat"@) is None ==> r->Ok_0.issued_at == now,
{
}

} // verus!

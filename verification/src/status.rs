//! gRPC status to RFC 7807 Problem Details conversion, including the parsing of
//! structured details from `ErrorInfo` metadata.

use vstd::prelude::*;
use crate::json::names_distinct;
use crate::string_map::StringMap;
use crate::problem::{
    param_views, InvalidParam, InvalidParamView, ProblemDetails, ProblemDetailsView,
    ERROR_TYPE_BASE_URL,
};
use crate::text::{split_on, split_on_char, str_eq};

verus! {

broadcast use vstd::string::group_string_axioms;

/// gRPC status code numbers, as `tonic::Code` assigns them.
pub const CODE_OK: i32 = 0;
pub const CODE_INVALID_ARGUMENT: i32 = 3;
pub const CODE_NOT_FOUND: i32 = 5;
pub const CODE_ALREADY_EXISTS: i32 = 6;
pub const CODE_PERMISSION_DENIED: i32 = 7;
pub const CODE_RESOURCE_EXHAUSTED: i32 = 8;
pub const CODE_FAILED_PRECONDITION: i32 = 9;
pub const CODE_INTERNAL: i32 = 13;
pub const CODE_UNAVAILABLE: i32 = 14;
pub const CODE_UNAUTHENTICATED: i32 = 16;

#[verifier::external_type_specification]
#[verifier::external_body]
pub struct ExCode(tonic::Code);

#[verifier::external_type_specification]
#[verifier::external_body]
pub struct ExStatus(tonic::Status);

#[verifier::external_type_specification]
#[verifier::external_body]
pub struct ExErrorDetail(tonic_types::ErrorDetail);

/// The human-readable title of an error slug, used when the server gives none.
pub open spec fn slug_title(slug: Seq<char>) -> Seq<char> {
    if slug == "not_found"@ {
        "Not found"@
    } else if slug == "project_not_found"@ {
        "Project not found"@
    } else if slug == "tenant_not_found"@ {
        "Tenant not found"@
    } else if slug == "app_not_found"@ {
        "App not found"@
    } else if slug == "already_exists"@ {
        "Already exists"@
    } else if slug == "not_deleted"@ {
        "Resource not deleted"@
    } else if slug == "invalid_request"@ {
        "Invalid request"@
    } else if slug == "invalid_parameter"@ {
        "Invalid parameter"@
    } else if slug == "invalid_sort_field"@ {
        "Invalid sort field"@
    } else if slug == "unauthenticated"@ {
        "Authentication required"@
    } else if slug == "permission_denied"@ {
        "Permission denied"@
    } else if slug == "service_unavailable"@ {
        "Service unavailable"@
    } else if slug == "internal_error"@ {
        "Internal server error"@
    } else {
        "Error"@
    }
}

/// Maps an error slug to a human-readable title.
///
/// This is the fallback used when the server does not give a title in the error
/// metadata; a server-provided title always takes precedence.
pub fn error_slug_to_title(slug: &str) -> (title: &'static str)
    ensures
        title@ == slug_title(slug@),
{
    if str_eq(slug, "not_found") {
        "Not found"
    } else if str_eq(slug, "project_not_found") {
        "Project not found"
    } else if str_eq(slug, "tenant_not_found") {
        "Tenant not found"
    } else if str_eq(slug, "app_not_found") {
        "App not found"
    } else if str_eq(slug, "already_exists") {
        "Already exists"
    } else if str_eq(slug, "not_deleted") {
        "Resource not deleted"
    } else if str_eq(slug, "invalid_request") {
        "Invalid request"
    } else if str_eq(slug, "invalid_parameter") {
        "Invalid parameter"
    } else if str_eq(slug, "invalid_sort_field") {
        "Invalid sort field"
    } else if str_eq(slug, "unauthenticated") {
        "Authentication required"
    } else if str_eq(slug, "permission_denied") {
        "Permission denied"
    } else if str_eq(slug, "service_unavailable") {
        "Service unavailable"
    } else if str_eq(slug, "internal_error") {
        "Internal server error"
    } else {
        "Error"
    }
}

/// The title used for a gRPC status code when the status carries no `ErrorInfo`.
pub open spec fn code_title(code: i32) -> Seq<char> {
    if code == CODE_NOT_FOUND {
        "Not found"@
    } else if code == CODE_INVALID_ARGUMENT {
        "Bad request"@
    } else if code == CODE_UNAUTHENTICATED {
        "Authentication required"@
    } else if code == CODE_PERMISSION_DENIED {
        "Permission denied"@
    } else if code == CODE_INTERNAL {
        "Internal server error"@
    } else if code == CODE_UNAVAILABLE {
        "Service unavailable"@
    } else if code == CODE_ALREADY_EXISTS {
        "Already exists"@
    } else if code == CODE_FAILED_PRECONDITION {
        "Failed precondition"@
    } else {
        "Error"@
    }
}

/// The fallback title of a gRPC status code, given by its number.
pub fn fallback_title_from_code_number(code: i32) -> (title: &'static str)
    ensures
        title@ == code_title(code),
{
    if code == CODE_NOT_FOUND {
        "Not found"
    } else if code == CODE_INVALID_ARGUMENT {
        "Bad request"
    } else if code == CODE_UNAUTHENTICATED {
        "Authentication required"
    } else if code == CODE_PERMISSION_DENIED {
        "Permission denied"
    } else if code == CODE_INTERNAL {
        "Internal server error"
    } else if code == CODE_UNAVAILABLE {
        "Service unavailable"
    } else if code == CODE_ALREADY_EXISTS {
        "Already exists"
    } else if code == CODE_FAILED_PRECONDITION {
        "Failed precondition"
    } else {
        "Error"
    }
}

/// The number that the gRPC specification gives a status code, as
/// `i32::from(tonic::Code)` returns it.
pub uninterp spec fn code_number_of(code: tonic::Code) -> i32;

/// `i32::from(tonic::Code)`: the number that the gRPC specification gives the code,
/// one of 0 to 16.
#[verifier::external_body]
fn code_number(code: tonic::Code) -> (n: i32)
    ensures
        n == code_number_of(code),
        CODE_OK <= n <= CODE_UNAUTHENTICATED,
{
    i32::from(code)
}

/// The fallback title of a gRPC status code, used when no `ErrorInfo` is available.
pub fn fallback_title_from_code(code: tonic::Code) -> (title: &'static str)
    ensures
        title@ == code_title(code_number_of(code)),
{
    let n = code_number(code);
    fallback_title_from_code_number(n)
}

/// The invalid parameter described by the `field.*` entries of `ErrorInfo` metadata:
/// none without a `field.key`; an absent reason is empty, and the expected
/// values are the comma-separated pieces of `field.expected_values`.
pub open spec fn invalid_param_of(m: Map<Seq<char>, Seq<char>>) -> Option<InvalidParamView> {
    if m.contains_key("field.key"@) {
        Some(InvalidParamView {
            name: m["field.key"@],
            reason: if m.contains_key("field.reason"@) {
                m["field.reason"@]
            } else {
                Seq::empty()
            },
            value: if m.contains_key("field.value"@) {
                Some(m["field.value"@])
            } else {
                None
            },
            expected_values: if m.contains_key("field.expected_values"@) {
                split_on(m["field.expected_values"@], ',')
            } else {
                Seq::empty()
            },
        })
    } else {
        None
    }
}

/// Extracts a single RFC 7807 invalid parameter from `ErrorInfo` metadata, which
/// uses the keys `field.key`, `field.reason`, `field.value` and
/// `field.expected_values` (comma-separated).
pub fn extract_invalid_param(metadata: &StringMap) -> (param: Option<InvalidParam>)
    ensures
        match param {
            Some(p) => invalid_param_of(metadata@) == Some(p@),
            None => invalid_param_of(metadata@) is None,
        },
{
    let field_key = match metadata.get("field.key") {
        Some(k) => k,
        None => return None,
    };
    let reason = match metadata.get("field.reason") {
        Some(r) => r.clone(),
        None => String::new(),
    };
    let value = match metadata.get("field.value") {
        Some(v) => Some(v.clone()),
        None => None,
    };
    let expected_values = match metadata.get("field.expected_values") {
        Some(v) => split_on_char(v.as_str(), ','),
        None => Vec::new(),
    };
    let param = InvalidParam { name: field_key.clone(), reason, value, expected_values };
    assert(param@.expected_values =~= invalid_param_of(metadata@)->0.expected_values);
    Some(param)
}


/// The parts of a gRPC `ErrorInfo` detail that error conversion reads.
#[derive(Debug, Clone)]
pub struct StatusErrorInfo {
    pub reason: String,
    pub metadata: StringMap,
}

/// The mathematical value of an `ErrorInfo`: its reason and its metadata.
pub struct ErrorInfoView {
    pub reason: Seq<char>,
    pub metadata: Map<Seq<char>, Seq<char>>,
}

impl View for StatusErrorInfo {
    type V = ErrorInfoView;

    open spec fn view(&self) -> ErrorInfoView {
        ErrorInfoView { reason: self.reason@, metadata: self.metadata@ }
    }
}

/// The views of a list of `ErrorInfo`s.
pub open spec fn info_views(infos: Seq<StatusErrorInfo>) -> Seq<ErrorInfoView> {
    infos.map_values(|i: StatusErrorInfo| i@)
}

/// The invalid parameters described by a list of `ErrorInfo` details, in order;
/// details without a `field.key` contribute none.
pub open spec fn params_of_infos(infos: Seq<ErrorInfoView>) -> Seq<InvalidParamView>
    decreases infos.len(),
{
    if infos.len() == 0 {
        Seq::empty()
    } else {
        let rest = params_of_infos(infos.drop_last());
        match invalid_param_of(infos.last().metadata) {
            Some(p) => rest.push(p),
            None => rest,
        }
    }
}

/// Whether the first `ErrorInfo` names an error type (has a non-empty reason).
pub open spec fn has_typed_first_info(infos: Seq<ErrorInfoView>) -> bool {
    infos.len() > 0 && infos[0].reason.len() > 0
}

/// The Problem Details that a gRPC status stands for. The first `ErrorInfo`, when
/// its reason is not empty, gives the error type and, through its `title`
/// metadata or else the slug's title, the title; otherwise the type is
/// `unknown` and the title comes from the status code. Every `ErrorInfo` may add
/// an invalid parameter.
pub open spec fn problem_of_status(
    code: i32,
    message: Seq<char>,
    infos: Seq<ErrorInfoView>,
    http_status: u16,
) -> ProblemDetailsView {
    ProblemDetailsView {
        problem_type: if has_typed_first_info(infos) {
            ERROR_TYPE_BASE_URL@ + infos[0].reason
        } else {
            ERROR_TYPE_BASE_URL@ + "unknown"@
        },
        title: if has_typed_first_info(infos) {
            if infos[0].metadata.contains_key("title"@) {
                infos[0].metadata["title"@]
            } else {
                slug_title(infos[0].reason)
            }
        } else {
            code_title(code)
        },
        status: http_status,
        detail: Some(message),
        instance: None,
        invalid_params: params_of_infos(infos),
    }
}

/// Builds Problem Details from the code number, message and `ErrorInfo` details
/// of a gRPC status.
pub fn problem_details_from_parts(
    code: i32,
    message: String,
    infos: &Vec<StatusErrorInfo>,
    http_status: u16,
) -> (problem: ProblemDetails)
    ensures
        problem@ == problem_of_status(code, message@, info_views(infos@), http_status),
{
    let typed = infos.len() > 0 && !infos[0].reason.as_str().is_empty();
    let mut problem_type = ERROR_TYPE_BASE_URL.to_string();
    let title;
    if typed {
        let slug = &infos[0].reason;
        problem_type.append(slug.as_str());
        title = match infos[0].metadata.get("title") {
            Some(t) => t.clone(),
            None => error_slug_to_title(slug.as_str()).to_string(),
        };
    } else {
        problem_type.append("unknown");
        title = fallback_title_from_code_number(code).to_string();
    }
    let mut invalid_params: Vec<InvalidParam> = Vec::new();
    let mut i: usize = 0;
    while i < infos.len()
        invariant
            i <= infos@.len(),
            param_views(invalid_params@) == params_of_infos(info_views(infos@).take(i as int)),
        decreases infos@.len() - i,
    {
        let ghost before = invalid_params@;
        assert(info_views(infos@).take(i + 1).drop_last() =~= info_views(infos@).take(i as int));
        assert(info_views(infos@).take(i + 1).last() == infos@[i as int]@);
        match extract_invalid_param(&infos[i].metadata) {
            Some(p) => {
                invalid_params.push(p);
                assert(param_views(invalid_params@) =~= param_views(before).push(p@));
            },
            None => {},
        }
        i = i + 1;
    }
    assert(info_views(infos@).take(infos@.len() as int) =~= info_views(infos@));
    ProblemDetails {
        problem_type,
        title,
        status: http_status,
        detail: Some(message),
        instance: None,
        invalid_params,
    }
}

/// The code number of a gRPC status, as `i32::from(status.code())` gives it.
pub uninterp spec fn status_code_of(status: tonic::Status) -> i32;

/// The message of a gRPC status, as `tonic::Status::message` gives it.
pub uninterp spec fn status_message_of(status: tonic::Status) -> Seq<char>;

/// The details of a gRPC status, as `StatusExt::get_error_details_vec` decodes them.
pub uninterp spec fn status_details_of(status: tonic::Status) -> Seq<tonic_types::ErrorDetail>;

/// The reason and metadata of a detail that is an `ErrorInfo`; `None` for the
/// other kinds of detail.
pub uninterp spec fn error_info_of(detail: tonic_types::ErrorDetail) -> Option<(Seq<char>, Map<Seq<char>, Seq<char>>)>;

/// `tonic::Status::code`, as its number (one of 0 to 16).
#[verifier::external_body]
pub(crate) fn status_code_number(status: &tonic::Status) -> (n: i32)
    ensures
        n == status_code_of(*status),
        CODE_OK <= n <= CODE_UNAUTHENTICATED,
{
    i32::from(status.code())
}

/// `tonic::Status::message`, copied.
#[verifier::external_body]
pub(crate) fn status_message(status: &tonic::Status) -> (m: String)
    ensures
        m@ == status_message_of(*status),
{
    status.message().to_string()
}

/// `tonic_types::StatusExt::get_error_details_vec`: the decoded details of the
/// status, empty when they do not decode.
#[verifier::external_body]
fn status_error_details(status: &tonic::Status) -> (details: Vec<tonic_types::ErrorDetail>)
    ensures
        details@ == status_details_of(*status),
{
    tonic_types::StatusExt::get_error_details_vec(status)
}

/// The metadata map of `ErrorInfo` entries, as read from the last entry to the
/// first: where a name occurs twice, its first entry gives the value.
pub open spec fn entries_map(entries: Seq<(String, String)>) -> Map<Seq<char>, Seq<char>>
    decreases entries.len(),
{
    if entries.len() == 0 {
        Map::empty()
    } else {
        entries_map(entries.drop_first()).insert(entries[0].0@, entries[0].1@)
    }
}

/// The reason and the metadata entries of an `ErrorInfo` detail; `None` for the
/// other kinds of detail. The entries come from a map, so no name occurs twice
/// and their order does not change the map they stand for.
#[verifier::external_body]
fn error_info_parts(detail: &tonic_types::ErrorDetail) -> (r: Option<(String, Vec<(String, String)>)>)
    ensures
        match r {
            Some((reason, entries)) => error_info_of(*detail) == Some((reason@, entries_map(entries@)))
                && names_distinct(entries@),
            None => error_info_of(*detail) is None,
        },
{
    match detail {
        tonic_types::ErrorDetail::ErrorInfo(info) => Some(
            (info.reason.clone(), info.metadata.clone().into_iter().collect()),
        ),
        _ => None,
    }
}

/// The `ErrorInfo`s among the reason and metadata of details, in order; the
/// other kinds of detail (`None`) contribute nothing.
pub open spec fn known_infos(details: Seq<Option<(Seq<char>, Map<Seq<char>, Seq<char>>)>>) -> Seq<ErrorInfoView>
    decreases details.len(),
{
    if details.len() == 0 {
        Seq::empty()
    } else {
        let rest = known_infos(details.drop_last());
        match details.last() {
            Some((reason, metadata)) => rest.push(ErrorInfoView { reason, metadata }),
            None => rest,
        }
    }
}

/// The reason and metadata that a part of status details stands for.
pub open spec fn part_view(part: Option<(String, Vec<(String, String)>)>) -> Option<(Seq<char>, Map<Seq<char>, Seq<char>>)> {
    match part {
        Some((reason, entries)) => Some((reason@, entries_map(entries@))),
        None => None,
    }
}

/// The `ErrorInfo`s that parts of status details stand for, in order.
pub open spec fn infos_of_parts(parts: Seq<Option<(String, Vec<(String, String)>)>>) -> Seq<ErrorInfoView> {
    known_infos(parts.map_values(|p: Option<(String, Vec<(String, String)>)>| part_view(p)))
}

/// The `ErrorInfo` details of a gRPC status, in order.
pub open spec fn status_infos_of(status: tonic::Status) -> Seq<ErrorInfoView> {
    known_infos(status_details_of(status).map_values(|d: tonic_types::ErrorDetail| error_info_of(d)))
}

/// Builds the metadata map of an `ErrorInfo` from its entries.
fn metadata_from_entries(entries: Vec<(String, String)>) -> (m: StringMap)
    ensures
        m@ == entries_map(entries@),
{
    let ghost all = entries@;
    let mut rest = entries;
    let mut metadata = StringMap::new();
    assert(all.skip(all.len() as int) =~= Seq::<(String, String)>::empty());
    while rest.len() > 0
        invariant
            rest@ == all.take(rest@.len() as int),
            rest@.len() <= all.len(),
            metadata@ == entries_map(all.skip(rest@.len() as int)),
        decreases rest@.len(),
    {
        let ghost n = rest@.len() as int;
        let (k, v) = rest.pop().unwrap();
        proof {
            assert((k, v) == all[n - 1]);
            assert(all.skip(n - 1)[0] == all[n - 1]);
            assert(all.skip(n - 1).drop_first() =~= all.skip(n));
            assert(rest@ =~= all.take(n - 1));
        }
        metadata.insert(k, v);
    }
    assert(all.skip(0) =~= all);
    metadata
}

/// Turns the parts of status details (reason and metadata entries of each
/// `ErrorInfo`, `None` for other kinds of detail) into `ErrorInfo`s, in order.
pub fn error_infos_from_parts(parts: Vec<Option<(String, Vec<(String, String)>)>>) -> (infos: Vec<StatusErrorInfo>)
    ensures
        info_views(infos@) == infos_of_parts(parts@),
{
    let ghost all = parts@;
    let ghost views = all.map_values(|p: Option<(String, Vec<(String, String)>)>| part_view(p));
    let mut rest = parts;
    let mut infos: Vec<StatusErrorInfo> = Vec::new();
    let mut k: usize = 0;
    let n: usize = rest.len();
    assert(all.skip(0) =~= all);
    assert(views.take(0) =~= Seq::<Option<(Seq<char>, Map<Seq<char>, Seq<char>>)>>::empty());
    while rest.len() > 0
        invariant
            all.len() == n,
            views == all.map_values(|p: Option<(String, Vec<(String, String)>)>| part_view(p)),
            k + rest@.len() == all.len(),
            rest@ == all.skip(k as int),
            info_views(infos@) == known_infos(views.take(k as int)),
        decreases rest@.len(),
    {
        let ghost before = infos@;
        let part = rest.remove(0);
        proof {
            assert(part == all[k as int]);
            assert(views.take(k + 1).drop_last() =~= views.take(k as int));
            assert(views.take(k + 1).last() == part_view(part));
        }
        match part {
            Some((reason, entries)) => {
                let metadata = metadata_from_entries(entries);
                infos.push(StatusErrorInfo { reason, metadata });
                assert(info_views(infos@) =~= info_views(before).push(infos@.last()@));
            },
            None => {},
        }
        k = k + 1;
        assert(rest@ =~= all.skip(k as int));
    }
    assert(views.take(all.len() as int) =~= views);
    infos
}

/// The `ErrorInfo` details of a gRPC status, in order.
pub(crate) fn status_error_infos(status: &tonic::Status) -> (infos: Vec<StatusErrorInfo>)
    ensures
        info_views(infos@) == status_infos_of(*status),
{
    let details = status_error_details(status);
    let ghost infos_of = details@.map_values(|d: tonic_types::ErrorDetail| error_info_of(d));
    let mut parts: Vec<Option<(String, Vec<(String, String)>)>> = Vec::new();
    let mut i: usize = 0;
    while i < details.len()
        invariant
            i <= details@.len(),
            infos_of == details@.map_values(|d: tonic_types::ErrorDetail| error_info_of(d)),
            parts@.len() == i,
            forall|j: int| 0 <= j < i ==> #[trigger] part_view(parts@[j]) == infos_of[j],
        decreases details@.len() - i,
    {
        parts.push(error_info_parts(&details[i]));
        i = i + 1;
    }
    let ghost ps = parts@;
    assert(ps.map_values(|p: Option<(String, Vec<(String, String)>)>| part_view(p)) =~= infos_of);
    let infos = error_infos_from_parts(parts);
    infos
}

/// Creates Problem Details from a gRPC status, with the given HTTP status code.
///
/// The error type comes from the first `ErrorInfo`'s reason, the title from its
/// `title` metadata or the slug's fallback title, and the invalid parameters from
/// the `field.*` metadata of every `ErrorInfo` (see `problem_of_status`); the
/// detail is the status message.
pub fn problem_details_from_status(status: &tonic::Status, http_status: u16) -> (problem: ProblemDetails)
    ensures
        problem@ == problem_of_status(
            status_code_of(*status),
            status_message_of(*status),
            status_infos_of(*status),
            http_status,
        ),
{
    let code = status_code_number(status);
    let message = status_message(status);
    let infos = status_error_infos(status);
    problem_details_from_parts(code, message, &infos, http_status)
}

} // verus!

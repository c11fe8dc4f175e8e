//! API keys: their platform restrictions, the request bodies that carry them,
//! and the conversion of API key responses.

use vstd::prelude::*;
use crate::lists::{empty_if_none, opt_views};
use crate::pagination::{pagination_from_json, PaginationJson, PaginationMeta};
use crate::problem::{opt_view, ValidationError};
use crate::text::{string_or_empty, text_or_empty, views};
use crate::timestamp::{parse_timestamp_ok, rfc3339_instant, UtcInstant};

verus! {

/// An Android application allowed to use a key.
#[derive(Debug, Clone, PartialEq, Eq)]
pub struct AndroidApplication {
    pub package_name: String,
    pub sha256_cert_fingerprint: String,
}

/// The platform restrictions of an API key.
#[derive(Debug, Clone, PartialEq, Eq)]
pub enum PlatformRestrictions {
    /// Allowed HTTP referrers.
    Browser(Vec<String>),
    /// Allowed IP addresses.
    Server(Vec<String>),
    /// Allowed Android applications.
    Android(Vec<AndroidApplication>),
    /// Allowed iOS bundle identifiers.
    Ios(Vec<String>),
}

/// The restrictions of an API key.
#[derive(Debug, Clone, PartialEq, Eq)]
pub struct ApiKeyRestrictions {
    pub platform_restrictions: Option<PlatformRestrictions>,
}

/// An Android application as the wire model holds it.
#[derive(Debug, Clone, PartialEq, Eq)]
pub struct AndroidApplicationJson {
    pub package_name: Option<String>,
    pub sha256_cert_fingerprint: Option<String>,
}

/// API key restrictions as the wire model holds them: one optional member per
/// platform, each with an optional list.
#[derive(Debug, Clone, PartialEq, Eq)]
pub struct RestrictionsJson {
    pub browser_allowed_referrers: Option<Option<Vec<String>>>,
    pub server_allowed_ips: Option<Option<Vec<String>>>,
    pub android_allowed_applications: Option<Option<Vec<AndroidApplicationJson>>>,
    pub ios_allowed_bundle_ids: Option<Option<Vec<String>>>,
}

/// The mathematical value of platform restrictions.
pub enum PlatformRestrictionsView {
    Browser(Seq<Seq<char>>),
    Server(Seq<Seq<char>>),
    Android(Seq<(Seq<char>, Seq<char>)>),
    Ios(Seq<Seq<char>>),
}

/// The view of a list of Android applications.
pub open spec fn app_views(v: Seq<AndroidApplication>) -> Seq<(Seq<char>, Seq<char>)> {
    v.map_values(|a: AndroidApplication| (a.package_name@, a.sha256_cert_fingerprint@))
}

impl View for PlatformRestrictions {
    type V = PlatformRestrictionsView;

    open spec fn view(&self) -> PlatformRestrictionsView {
        match self {
            PlatformRestrictions::Browser(v) => PlatformRestrictionsView::Browser(views(v@)),
            PlatformRestrictions::Server(v) => PlatformRestrictionsView::Server(views(v@)),
            PlatformRestrictions::Android(v) => PlatformRestrictionsView::Android(app_views(v@)),
            PlatformRestrictions::Ios(v) => PlatformRestrictionsView::Ios(views(v@)),
        }
    }
}

/// The view of API key restrictions.
pub open spec fn restrictions_view(r: ApiKeyRestrictions) -> Option<PlatformRestrictionsView> {
    match r.platform_restrictions {
        Some(p) => Some(p@),
        None => None,
    }
}

/// The domain value of a wire Android application: absent members are empty.
pub open spec fn app_of_json(a: AndroidApplicationJson) -> (Seq<char>, Seq<char>) {
    (text_or_empty(a.package_name), text_or_empty(a.sha256_cert_fingerprint))
}

/// The view of an optional list of wire Android applications, empty when absent.
pub open spec fn apps_of_json(o: Option<Vec<AndroidApplicationJson>>) -> Seq<(Seq<char>, Seq<char>)> {
    match o {
        Some(v) => v@.map_values(|a: AndroidApplicationJson| app_of_json(a)),
        None => Seq::empty(),
    }
}

/// The restrictions that wire restrictions stand for: the first present member,
/// in the order browser, server, Android, iOS; absent lists are empty.
pub open spec fn restrictions_of_json(r: RestrictionsJson) -> Option<PlatformRestrictionsView> {
    match r.browser_allowed_referrers {
        Some(l) => Some(PlatformRestrictionsView::Browser(empty_if_none(opt_views(l)))),
        None => match r.server_allowed_ips {
            Some(l) => Some(PlatformRestrictionsView::Server(empty_if_none(opt_views(l)))),
            None => match r.android_allowed_applications {
                Some(l) => Some(PlatformRestrictionsView::Android(apps_of_json(l))),
                None => match r.ios_allowed_bundle_ids {
                    Some(l) => Some(PlatformRestrictionsView::Ios(empty_if_none(opt_views(l)))),
                    None => None,
                },
            },
        },
    }
}

/// A list that may be absent, read as empty when absent.
fn strings_or_empty(o: Option<Vec<String>>) -> (v: Vec<String>)
    ensures
        views(v@) == empty_if_none(opt_views(o)),
{
    crate::lists::list_or_empty(o)
}

/// Converts wire Android applications, absent members as empty.
fn apps_from_json(o: Option<Vec<AndroidApplicationJson>>) -> (out: Vec<AndroidApplication>)
    ensures
        app_views(out@) == apps_of_json(o),
{
    let mut v = match o {
        Some(v) => v,
        None => {
            let out: Vec<AndroidApplication> = Vec::new();
            assert(app_views(out@) =~= apps_of_json(o));
            return out;
        },
    };
    let ghost all = v@;
    let mut out: Vec<AndroidApplication> = Vec::new();
    while v.len() > 0
        invariant
            out@.len() + v@.len() == all.len(),
            v@ == all.skip(out@.len() as int),
            forall|i: int| 0 <= i < out@.len() ==> ((#[trigger] out@[i]).package_name@, out@[i].sha256_cert_fingerprint@) == app_of_json(all[i]),
        decreases v@.len(),
    {
        let ghost k = out@.len() as int;
        let a = v.remove(0);
        assert(a == all[k]);
        out.push(AndroidApplication {
            package_name: string_or_empty(a.package_name),
            sha256_cert_fingerprint: string_or_empty(a.sha256_cert_fingerprint),
        });
        assert(v@ =~= all.skip(out@.len() as int));
    }
    assert(app_views(out@) =~= apps_of_json(o));
    out
}

/// Converts wire API key restrictions into the domain type.
pub fn convert_restrictions(r: RestrictionsJson) -> (out: ApiKeyRestrictions)
    ensures
        restrictions_view(out) == restrictions_of_json(r),
{
    let RestrictionsJson {
        browser_allowed_referrers,
        server_allowed_ips,
        android_allowed_applications,
        ios_allowed_bundle_ids,
    } = r;
    let platform = if let Some(l) = browser_allowed_referrers {
        Some(PlatformRestrictions::Browser(strings_or_empty(l)))
    } else if let Some(l) = server_allowed_ips {
        Some(PlatformRestrictions::Server(strings_or_empty(l)))
    } else if let Some(l) = android_allowed_applications {
        Some(PlatformRestrictions::Android(apps_from_json(l)))
    } else if let Some(l) = ios_allowed_bundle_ids {
        Some(PlatformRestrictions::Ios(strings_or_empty(l)))
    } else {
        None
    };
    ApiKeyRestrictions { platform_restrictions: platform }
}

/// A copy of a list of strings.
fn clone_strings(v: &Vec<String>) -> (out: Vec<String>)
    ensures
        views(out@) == views(v@),
{
    let mut out: Vec<String> = Vec::new();
    let mut i: usize = 0;
    while i < v.len()
        invariant
            i <= v@.len(),
            out@.len() == i,
            forall|j: int| 0 <= j < i ==> (#[trigger] out@[j])@ == v@[j]@,
        decreases v@.len() - i,
    {
        out.push(v[i].clone());
        i = i + 1;
    }
    assert(views(out@) =~= views(v@));
    out
}

/// The wire model of domain restrictions: the member of the platform only,
/// with every list present.
pub open spec fn json_of_restrictions(r: Option<PlatformRestrictionsView>) -> RestrictionsJsonView {
    match r {
        Some(PlatformRestrictionsView::Browser(l)) => RestrictionsJsonView { browser: Some(Some(l)), ..no_restrictions() },
        Some(PlatformRestrictionsView::Server(l)) => RestrictionsJsonView { server: Some(Some(l)), ..no_restrictions() },
        Some(PlatformRestrictionsView::Android(l)) => RestrictionsJsonView {
            android: Some(Some(l.map_values(|a: (Seq<char>, Seq<char>)| (Some(a.0), Some(a.1))))),
            ..no_restrictions()
        },
        Some(PlatformRestrictionsView::Ios(l)) => RestrictionsJsonView { ios: Some(Some(l)), ..no_restrictions() },
        None => no_restrictions(),
    }
}

/// The mathematical value of wire restrictions.
pub struct RestrictionsJsonView {
    pub browser: Option<Option<Seq<Seq<char>>>>,
    pub server: Option<Option<Seq<Seq<char>>>>,
    pub android: Option<Option<Seq<(Option<Seq<char>>, Option<Seq<char>>)>>>,
    pub ios: Option<Option<Seq<Seq<char>>>>,
}

/// Wire restrictions with no member.
pub open spec fn no_restrictions() -> RestrictionsJsonView {
    RestrictionsJsonView { browser: None, server: None, android: None, ios: None }
}

/// The view of an optional optional list of strings.
pub open spec fn opt_opt_views(o: Option<Option<Vec<String>>>) -> Option<Option<Seq<Seq<char>>>> {
    match o {
        Some(l) => Some(opt_views(l)),
        None => None,
    }
}

/// The view of wire Android applications.
pub open spec fn json_app_views(v: Seq<AndroidApplicationJson>) -> Seq<(Option<Seq<char>>, Option<Seq<char>>)> {
    v.map_values(|a: AndroidApplicationJson| (opt_view(a.package_name), opt_view(a.sha256_cert_fingerprint)))
}

impl View for RestrictionsJson {
    type V = RestrictionsJsonView;

    open spec fn view(&self) -> RestrictionsJsonView {
        RestrictionsJsonView {
            browser: opt_opt_views(self.browser_allowed_referrers),
            server: opt_opt_views(self.server_allowed_ips),
            android: match self.android_allowed_applications {
                Some(Some(v)) => Some(Some(json_app_views(v@))),
                Some(None) => Some(None),
                None => None,
            },
            ios: opt_opt_views(self.ios_allowed_bundle_ids),
        }
    }
}

/// Converts domain restrictions into their wire model.
pub fn convert_restrictions_to_openapi(r: &ApiKeyRestrictions) -> (out: RestrictionsJson)
    ensures
        out@ == json_of_restrictions(restrictions_view(*r)),
{
    let mut out = RestrictionsJson {
        browser_allowed_referrers: None,
        server_allowed_ips: None,
        android_allowed_applications: None,
        ios_allowed_bundle_ids: None,
    };
    match &r.platform_restrictions {
        Some(PlatformRestrictions::Browser(l)) => {
            out.browser_allowed_referrers = Some(Some(clone_strings(l)));
        },
        Some(PlatformRestrictions::Server(l)) => {
            out.server_allowed_ips = Some(Some(clone_strings(l)));
        },
        Some(PlatformRestrictions::Android(apps)) => {
            let mut v: Vec<AndroidApplicationJson> = Vec::new();
            let mut i: usize = 0;
            while i < apps.len()
                invariant
                    i <= apps@.len(),
                    v@.len() == i,
                    forall|j: int| 0 <= j < i ==> (opt_view((#[trigger] v@[j]).package_name), opt_view(v@[j].sha256_cert_fingerprint)) == (
                        Some(apps@[j].package_name@),
                        Some(apps@[j].sha256_cert_fingerprint@),
                    ),
                decreases apps@.len() - i,
            {
                v.push(AndroidApplicationJson {
                    package_name: Some(apps[i].package_name.clone()),
                    sha256_cert_fingerprint: Some(apps[i].sha256_cert_fingerprint.clone()),
                });
                i = i + 1;
            }
            assert(json_app_views(v@) =~= app_views(apps@).map_values(
                |a: (Seq<char>, Seq<char>)| (Some(a.0), Some(a.1)),
            ));
            out.android_allowed_applications = Some(Some(v));
        },
        Some(PlatformRestrictions::Ios(l)) => {
            out.ios_allowed_bundle_ids = Some(Some(clone_strings(l)));
        },
        None => {},
    }
    out
}

/// Converting restrictions to their wire model and back gives them unchanged.
pub proof fn lemma_restrictions_roundtrip(r: ApiKeyRestrictions, j: RestrictionsJson)
    requires
        j@ == json_of_restrictions(restrictions_view(r)),
    ensures
        restrictions_of_json(j) == restrictions_view(r),
{
    match r.platform_restrictions {
        Some(PlatformRestrictions::Android(apps)) => {
            let l = j.android_allowed_applications->0->0;
            assert(json_app_views(l@) == app_views(apps@).map_values(
                |a: (Seq<char>, Seq<char>)| (Some(a.0), Some(a.1)),
            ));
            assert(json_app_views(l@).len() == l@.len());
            assert forall|i: int| 0 <= i < l@.len() implies #[trigger] app_of_json(l@[i]) == app_views(apps@)[i] by {
                assert(json_app_views(l@)[i] == (opt_view(l@[i].package_name), opt_view(l@[i].sha256_cert_fingerprint)));
            }
            assert(apps_of_json(Some(l)) =~= app_views(apps@));
        },
        Some(PlatformRestrictions::Browser(v)) => {
            assert(j.browser_allowed_referrers is Some);
        },
        Some(PlatformRestrictions::Server(v)) => {
            assert(j.server_allowed_ips is Some);
        },
        Some(PlatformRestrictions::Ios(v)) => {
            assert(j.ios_allowed_bundle_ids is Some);
        },
        None => {},
    }
}


/// The view of an optional string that may be explicitly null, absent or null alike.
pub open spec fn flat_view(o: Option<Option<String>>) -> Option<Seq<char>> {
    match o {
        Some(Some(s)) => Some(s@),
        _ => None,
    }
}

/// An optional string that may be explicitly null, absent or null alike.
pub fn flatten_string(o: Option<Option<String>>) -> (r: Option<String>)
    ensures
        opt_view(r) == flat_view(o),
{
    match o {
        Some(Some(s)) => Some(s),
        _ => None,
    }
}

/// The instant of optional RFC 3339 text that may be null; text that does not
/// parse is dropped.
pub open spec fn flat_instant(o: Option<Option<String>>) -> Option<UtcInstant> {
    match o {
        Some(Some(s)) => rfc3339_instant(s@),
        _ => None,
    }
}

/// The view of optional restrictions.
pub open spec fn opt_restrictions_view(o: Option<ApiKeyRestrictions>) -> Option<Option<PlatformRestrictionsView>> {
    match o {
        Some(r) => Some(restrictions_view(r)),
        None => None,
    }
}

/// The domain value of optional wire restrictions.
pub open spec fn opt_restrictions_of_json(o: Option<RestrictionsJson>) -> Option<Option<PlatformRestrictionsView>> {
    match o {
        Some(r) => Some(restrictions_of_json(r)),
        None => None,
    }
}

/// Converts optional wire restrictions.
fn opt_restrictions(o: Option<RestrictionsJson>) -> (r: Option<ApiKeyRestrictions>)
    ensures
        opt_restrictions_view(r) == opt_restrictions_of_json(o),
{
    match o {
        Some(j) => Some(convert_restrictions(j)),
        None => None,
    }
}

/// A newly created or rotated API key, with its full key string, as the wire model holds it.
#[derive(Debug, Clone, PartialEq, Eq)]
pub struct ApiKeyJson {
    pub name: String,
    pub key_id: String,
    pub key_string: String,
    pub display_name: Option<Option<String>>,
    pub restrictions: Option<RestrictionsJson>,
    pub created_at: String,
    pub updated_at: Option<Option<String>>,
}

/// A newly created or rotated API key, with its full key string.
#[derive(Debug, Clone, PartialEq, Eq)]
pub struct ApiKey {
    pub name: String,
    pub key_id: String,
    pub key_string: String,
    pub display_name: Option<String>,
    pub restrictions: Option<ApiKeyRestrictions>,
    pub created_at: Option<UtcInstant>,
    pub updated_at: Option<UtcInstant>,
}

/// A stored API key, known only by its prefix, as the wire model holds it.
#[derive(Debug, Clone, PartialEq, Eq)]
pub struct ApiKeyInfoJson {
    pub name: String,
    pub key_id: String,
    pub key_prefix: String,
    pub display_name: Option<Option<String>>,
    pub restrictions: Option<RestrictionsJson>,
    pub created_at: String,
    pub updated_at: Option<Option<String>>,
}

/// A stored API key, known only by its prefix.
#[derive(Debug, Clone, PartialEq, Eq)]
pub struct ApiKeyInfo {
    pub name: String,
    pub key_id: String,
    pub key_prefix: String,
    pub display_name: Option<String>,
    pub restrictions: Option<ApiKeyRestrictions>,
    pub created_at: Option<UtcInstant>,
    pub updated_at: Option<UtcInstant>,
}

/// What converting a wire API key gives: fields as they are, null display name
/// and update time as absent, and timestamps that do not parse as absent.
pub open spec fn api_key_matches(k: ApiKey, j: ApiKeyJson) -> bool {
    &&& k.name@ == j.name@
    &&& k.key_id@ == j.key_id@
    &&& k.key_string@ == j.key_string@
    &&& opt_view(k.display_name) == flat_view(j.display_name)
    &&& opt_restrictions_view(k.restrictions) == opt_restrictions_of_json(j.restrictions)
    &&& k.created_at == rfc3339_instant(j.created_at@)
    &&& k.updated_at == flat_instant(j.updated_at)
}

/// What converting a wire stored API key gives, as for `api_key_matches`.
pub open spec fn api_key_info_matches(k: ApiKeyInfo, j: ApiKeyInfoJson) -> bool {
    &&& k.name@ == j.name@
    &&& k.key_id@ == j.key_id@
    &&& k.key_prefix@ == j.key_prefix@
    &&& opt_view(k.display_name) == flat_view(j.display_name)
    &&& opt_restrictions_view(k.restrictions) == opt_restrictions_of_json(j.restrictions)
    &&& k.created_at == rfc3339_instant(j.created_at@)
    &&& k.updated_at == flat_instant(j.updated_at)
}

/// Parses RFC 3339 text that may be absent or null, dropping text that does not parse.
fn flat_timestamp(o: Option<Option<String>>) -> (r: Option<UtcInstant>)
    ensures
        r == flat_instant(o),
{
    match o {
        Some(Some(s)) => parse_timestamp_ok(Some(s)),
        _ => None,
    }
}

/// Converts a newly created or rotated API key.
pub fn api_key_from_json(json: ApiKeyJson) -> (k: ApiKey)
    ensures
        api_key_matches(k, json),
{
    ApiKey {
        name: json.name,
        key_id: json.key_id,
        key_string: json.key_string,
        display_name: flatten_string(json.display_name),
        restrictions: opt_restrictions(json.restrictions),
        created_at: parse_timestamp_ok(Some(json.created_at)),
        updated_at: flat_timestamp(json.updated_at),
    }
}

/// Converts a stored API key.
pub fn api_key_info_from_json(json: ApiKeyInfoJson) -> (k: ApiKeyInfo)
    ensures
        api_key_info_matches(k, json),
{
    ApiKeyInfo {
        name: json.name,
        key_id: json.key_id,
        key_prefix: json.key_prefix,
        display_name: flatten_string(json.display_name),
        restrictions: opt_restrictions(json.restrictions),
        created_at: parse_timestamp_ok(Some(json.created_at)),
        updated_at: flat_timestamp(json.updated_at),
    }
}

/// Converts a response that wraps a new API key (create): the key must be present.
pub fn created_api_key_from_json(api_key: Option<ApiKeyJson>) -> (r: Result<ApiKey, ValidationError>)
    ensures
        match r {
            Ok(k) => api_key matches Some(j) && api_key_matches(k, j),
            Err(e) => api_key is None && e == ValidationError::MissingField("api_key"),
        },
{
    match api_key {
        Some(j) => Ok(api_key_from_json(j)),
        None => Err(ValidationError::MissingField("api_key")),
    }
}

/// Converts a response that wraps a stored API key (get, update): the key must be present.
pub fn api_key_info_response_from_json(api_key: Option<ApiKeyInfoJson>) -> (r: Result<ApiKeyInfo, ValidationError>)
    ensures
        match r {
            Ok(k) => api_key matches Some(j) && api_key_info_matches(k, j),
            Err(e) => api_key is None && e == ValidationError::MissingField("api_key"),
        },
{
    match api_key {
        Some(j) => Ok(api_key_info_from_json(j)),
        None => Err(ValidationError::MissingField("api_key")),
    }
}

/// A page of stored API keys.
#[derive(Debug, Clone, PartialEq, Eq)]
pub struct ListApiKeysResponse {
    pub api_keys: Vec<ApiKeyInfo>,
    pub pagination: PaginationMeta,
}

/// Converts a page of stored API keys: an absent list is empty, and the keys keep their order.
pub fn list_api_keys_from_json(api_keys: Option<Vec<ApiKeyInfoJson>>, pagination: Option<PaginationJson>) -> (r: ListApiKeysResponse)
    ensures
        r.api_keys@.len() == (match api_keys {
            Some(v) => v@.len(),
            None => 0,
        }),
        forall|i: int| 0 <= i < r.api_keys@.len() ==> api_key_info_matches(#[trigger] r.api_keys@[i], api_keys->0@[i]),
        opt_view(r.pagination.next_cursor) == (match pagination {
            Some(p) => opt_view(p.next_cursor),
            None => None,
        }),
        r.pagination.total_count == (match pagination {
            Some(p) => p.total_count,
            None => None,
        }),
{
    let mut v = match api_keys {
        Some(v) => v,
        None => Vec::new(),
    };
    let ghost all = v@;
    let mut out: Vec<ApiKeyInfo> = Vec::new();
    while v.len() > 0
        invariant
            out@.len() + v@.len() == all.len(),
            v@ == all.skip(out@.len() as int),
            forall|i: int| 0 <= i < out@.len() ==> api_key_info_matches(#[trigger] out@[i], all[i]),
        decreases v@.len(),
    {
        let ghost k = out@.len() as int;
        let j = v.remove(0);
        assert(j == all[k]);
        out.push(api_key_info_from_json(j));
        assert(v@ =~= all.skip(out@.len() as int));
    }
    ListApiKeysResponse { api_keys: out, pagination: pagination_from_json(pagination) }
}

/// A rotated API key and the end of the old key's grace period.
#[derive(Debug, Clone, PartialEq, Eq)]
pub struct RotateApiKeyResponse {
    pub api_key: ApiKey,
    pub grace_period_expires_at: Option<UtcInstant>,
}

/// Converts the response to a key rotation: the key must be present; a grace
/// period end that does not parse is dropped.
pub fn rotate_api_key_from_json(api_key: Option<ApiKeyJson>, grace_period_expires_at: Option<String>) -> (r: Result<RotateApiKeyResponse, ValidationError>)
    ensures
        match r {
            Ok(resp) => api_key matches Some(j) && api_key_matches(resp.api_key, j)
                && resp.grace_period_expires_at == (match grace_period_expires_at {
                    Some(s) => rfc3339_instant(s@),
                    None => None,
                }),
            Err(e) => api_key is None && e == ValidationError::MissingField("api_key"),
        },
{
    match api_key {
        Some(j) => Ok(RotateApiKeyResponse {
            api_key: api_key_from_json(j),
            grace_period_expires_at: parse_timestamp_ok(grace_period_expires_at),
        }),
        None => Err(ValidationError::MissingField("api_key")),
    }
}

/// The body of a create or update API key request.
#[derive(Debug, Clone, PartialEq, Eq)]
pub struct ApiKeyBody {
    pub display_name: Option<String>,
    pub restrictions: Option<RestrictionsJson>,
}

/// Builds the body of a create or update API key request.
pub fn build_api_key_body(display_name: Option<String>, restrictions: Option<ApiKeyRestrictions>) -> (b: ApiKeyBody)
    ensures
        opt_view(b.display_name) == opt_view(display_name),
        match restrictions {
            Some(r) => b.restrictions matches Some(j) && j@ == json_of_restrictions(restrictions_view(r)),
            None => b.restrictions is None,
        },
{
    let restrictions = match restrictions {
        Some(r) => Some(convert_restrictions_to_openapi(&r)),
        None => None,
    };
    ApiKeyBody { display_name, restrictions }
}

} // verus!

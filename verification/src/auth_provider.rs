//! Authentication providers: their configurations, the request bodies that
//! carry them, and the conversion of provider responses.

use vstd::prelude::*;
use crate::lists::{empty_if_none, list_or_empty, opt_views};
use crate::convert::{flatten, FromJson};
use crate::problem::{opt_view, ValidationError};
use crate::string_map::StringMap;
use crate::text::{text_or_empty, views};
use crate::timestamp::{parse_timestamp, rfc3339_instant, UtcInstant};

verus! {

/// The default anonymous session length, in seconds, when a response omits it.
pub const DEFAULT_SESSION_DURATION_SECONDS: i64 = 3600;

/// Password (PDPKA) sign-in settings.
#[derive(Debug, Clone, Copy, PartialEq, Eq, Structural)]
pub struct PdpkaConfig {
    pub allow_signup: bool,
}

/// Anonymous sign-in settings.
#[derive(Debug, Clone, Copy, PartialEq, Eq, Structural)]
pub struct AnonymousConfig {
    pub session_duration_seconds: i64,
    pub auto_upgrade: bool,
}

/// OAuth sign-in settings.
#[derive(Debug, Clone)]
pub struct OAuthConfig {
    pub client_id: String,
    pub scopes: Vec<String>,
    pub allowed_hosted_domains: Vec<String>,
}

/// OpenID Connect sign-in settings.
#[derive(Debug, Clone)]
pub struct OidcConfig {
    pub display_name: String,
    pub issuer_url: String,
    pub client_id: String,
    pub scopes: Vec<String>,
    pub additional_params: StringMap,
}

/// The settings of a provider for its kind.
#[derive(Debug, Clone)]
pub enum AuthProviderConfig {
    Pdpka(PdpkaConfig),
    Anonymous(AnonymousConfig),
    OAuth(OAuthConfig),
    Oidc(OidcConfig),
}

/// Password settings as the wire model holds them.
#[derive(Debug, Clone, Copy, PartialEq, Eq, Structural)]
pub struct PdpkaJson {
    pub allow_signup: Option<bool>,
}

/// Anonymous settings as the wire model holds them.
#[derive(Debug, Clone, Copy, PartialEq, Eq, Structural)]
pub struct AnonymousJson {
    pub session_duration_seconds: Option<i64>,
    pub auto_upgrade: Option<bool>,
}

/// OAuth settings as the wire model holds them.
#[derive(Debug, Clone)]
pub struct OAuthJson {
    pub client_id: Option<String>,
    pub scopes: Option<Vec<String>>,
    pub allowed_hosted_domains: Option<Vec<String>>,
}

/// OpenID Connect settings as the wire model holds them.
#[derive(Debug, Clone)]
pub struct OidcJson {
    pub display_name: Option<String>,
    pub issuer_url: Option<String>,
    pub client_id: Option<String>,
    pub scopes: Option<Vec<String>>,
    pub additional_params: Option<StringMap>,
}

/// The per-kind members of provider bodies; the client puts at most one in a body.
#[derive(Debug, Clone)]
pub struct ConfigFields {
    pub pdpka: Option<PdpkaJson>,
    pub anonymous: Option<AnonymousJson>,
    pub oauth: Option<OAuthJson>,
    pub oidc: Option<OidcJson>,
}

pub struct OAuthView {
    pub client_id: Seq<char>,
    pub scopes: Seq<Seq<char>>,
    pub allowed_hosted_domains: Seq<Seq<char>>,
}

pub struct OidcView {
    pub display_name: Seq<char>,
    pub issuer_url: Seq<char>,
    pub client_id: Seq<char>,
    pub scopes: Seq<Seq<char>>,
    pub additional_params: Map<Seq<char>, Seq<char>>,
}

/// The mathematical value of a provider configuration.
pub enum AuthProviderConfigView {
    Pdpka(PdpkaConfig),
    Anonymous(AnonymousConfig),
    OAuth(OAuthView),
    Oidc(OidcView),
}

impl View for AuthProviderConfig {
    type V = AuthProviderConfigView;

    open spec fn view(&self) -> AuthProviderConfigView {
        match self {
            AuthProviderConfig::Pdpka(c) => AuthProviderConfigView::Pdpka(*c),
            AuthProviderConfig::Anonymous(c) => AuthProviderConfigView::Anonymous(*c),
            AuthProviderConfig::OAuth(c) => AuthProviderConfigView::OAuth(OAuthView {
                client_id: c.client_id@,
                scopes: views(c.scopes@),
                allowed_hosted_domains: views(c.allowed_hosted_domains@),
            }),
            AuthProviderConfig::Oidc(c) => AuthProviderConfigView::Oidc(OidcView {
                display_name: c.display_name@,
                issuer_url: c.issuer_url@,
                client_id: c.client_id@,
                scopes: views(c.scopes@),
                additional_params: c.additional_params@,
            }),
        }
    }
}

/// The view of an optional configuration.
pub open spec fn opt_config_view(o: Option<AuthProviderConfig>) -> Option<AuthProviderConfigView> {
    match o {
        Some(c) => Some(c@),
        None => None,
    }
}

/// The view of an optional string map, empty when absent.
pub open spec fn map_or_empty(o: Option<StringMap>) -> Map<Seq<char>, Seq<char>> {
    match o {
        Some(m) => m@,
        None => Map::empty(),
    }
}

/// The configuration that the per-kind members stand for: the first present
/// member in the order password, anonymous, OAuth, OIDC, with absent settings
/// at their defaults (false, 3600 seconds, empty).
pub open spec fn config_of_fields(f: ConfigFields) -> Option<AuthProviderConfigView> {
    match f.pdpka {
        Some(p) => Some(AuthProviderConfigView::Pdpka(PdpkaConfig {
            allow_signup: match p.allow_signup {
                Some(b) => b,
                None => false,
            },
        })),
        None => match f.anonymous {
            Some(a) => Some(AuthProviderConfigView::Anonymous(AnonymousConfig {
                session_duration_seconds: match a.session_duration_seconds {
                    Some(d) => d,
                    None => DEFAULT_SESSION_DURATION_SECONDS,
                },
                auto_upgrade: match a.auto_upgrade {
                    Some(b) => b,
                    None => false,
                },
            })),
            None => match f.oauth {
                Some(o) => Some(AuthProviderConfigView::OAuth(OAuthView {
                    client_id: text_or_empty(o.client_id),
                    scopes: empty_if_none(opt_views(o.scopes)),
                    allowed_hosted_domains: empty_if_none(opt_views(o.allowed_hosted_domains)),
                })),
                None => match f.oidc {
                    Some(o) => Some(AuthProviderConfigView::Oidc(OidcView {
                        display_name: text_or_empty(o.display_name),
                        issuer_url: text_or_empty(o.issuer_url),
                        client_id: text_or_empty(o.client_id),
                        scopes: empty_if_none(opt_views(o.scopes)),
                        additional_params: map_or_empty(o.additional_params),
                    })),
                    None => None,
                },
            },
        },
    }
}

/// A copy of an optional string, empty when absent.
fn copy_or_empty(o: &Option<String>) -> (s: String)
    ensures
        s@ == text_or_empty(*o),
{
    match o {
        Some(s) => s.clone(),
        None => String::new(),
    }
}

/// A copy of a string map that may be absent, empty when absent.
fn map_copy_or_empty(o: &Option<StringMap>) -> (m: StringMap)
    ensures
        m@ == map_or_empty(*o),
{
    match o {
        Some(m) => m.copy(),
        None => StringMap::new(),
    }
}

/// Reads the provider configuration from the per-kind members of a response.
pub fn parse_provider_config(f: &ConfigFields) -> (c: Option<AuthProviderConfig>)
    ensures
        opt_config_view(c) == config_of_fields(*f),
{
    if let Some(p) = &f.pdpka {
        return Some(AuthProviderConfig::Pdpka(PdpkaConfig {
            allow_signup: match p.allow_signup {
                Some(b) => b,
                None => false,
            },
        }));
    }
    if let Some(a) = &f.anonymous {
        return Some(AuthProviderConfig::Anonymous(AnonymousConfig {
            session_duration_seconds: match a.session_duration_seconds {
                Some(d) => d,
                None => DEFAULT_SESSION_DURATION_SECONDS,
            },
            auto_upgrade: match a.auto_upgrade {
                Some(b) => b,
                None => false,
            },
        }));
    }
    if let Some(o) = &f.oauth {
        return Some(AuthProviderConfig::OAuth(OAuthConfig {
            client_id: copy_or_empty(&o.client_id),
            scopes: list_or_empty(o.scopes.clone()),
            allowed_hosted_domains: list_or_empty(o.allowed_hosted_domains.clone()),
        }));
    }
    if let Some(o) = &f.oidc {
        return Some(AuthProviderConfig::Oidc(OidcConfig {
            display_name: copy_or_empty(&o.display_name),
            issuer_url: copy_or_empty(&o.issuer_url),
            client_id: copy_or_empty(&o.client_id),
            scopes: list_or_empty(o.scopes.clone()),
            additional_params: map_copy_or_empty(&o.additional_params),
        }));
    }
    None
}

/// A copy of a list of strings.
fn copy_strings(v: &Vec<String>) -> (out: Vec<String>)
    ensures
        views(out@) == views(v@),
{
    let mut out: Vec<String> = Vec::new();
    let mut i: usize = 0;
    while i < v.len()
        invariant
            i <= v@.len(),
            out@.len() == i,
            forall|j: int| 0 <= j < i ==> (#[trigger] out@[j])@ == v@[j]@,
        decreases v@.len() - i,
    {
        out.push(v[i].clone());
        i = i + 1;
    }
    assert(views(out@) =~= views(v@));
    out
}

/// Whether the per-kind members carry exactly the given configuration: only its
/// kind's member is present, with every setting given.
pub open spec fn fields_carry(f: ConfigFields, c: AuthProviderConfigView) -> bool {
    match c {
        AuthProviderConfigView::Pdpka(p) => f.pdpka == Some(PdpkaJson { allow_signup: Some(p.allow_signup) })
            && f.anonymous is None && f.oauth is None && f.oidc is None,
        AuthProviderConfigView::Anonymous(a) => f.pdpka is None && f.anonymous == Some(
            AnonymousJson {
                session_duration_seconds: Some(a.session_duration_seconds),
                auto_upgrade: Some(a.auto_upgrade),
            },
        ) && f.oauth is None && f.oidc is None,
        AuthProviderConfigView::OAuth(o) => {
            &&& f.pdpka is None && f.anonymous is None && f.oidc is None
            &&& f.oauth matches Some(j) && {
                &&& opt_view(j.client_id) == Some(o.client_id)
                &&& opt_views(j.scopes) == Some(o.scopes)
                &&& opt_views(j.allowed_hosted_domains) == Some(o.allowed_hosted_domains)
            }
        },
        AuthProviderConfigView::Oidc(o) => {
            &&& f.pdpka is None && f.anonymous is None && f.oauth is None
            &&& f.oidc matches Some(j) && {
                &&& opt_view(j.display_name) == Some(o.display_name)
                &&& opt_view(j.issuer_url) == Some(o.issuer_url)
                &&& opt_view(j.client_id) == Some(o.client_id)
                &&& opt_views(j.scopes) == Some(o.scopes)
                &&& j.additional_params matches Some(m) && m@ == o.additional_params
            }
        },
    }
}

/// No per-kind member.
fn no_config_fields() -> (f: ConfigFields)
    ensures
        f.pdpka is None && f.anonymous is None && f.oauth is None && f.oidc is None,
{
    ConfigFields { pdpka: None, anonymous: None, oauth: None, oidc: None }
}

/// Puts a provider configuration into the per-kind members of a request body.
pub fn config_to_request(config: &AuthProviderConfig) -> (f: ConfigFields)
    ensures
        fields_carry(f, config@),
{
    let mut f = no_config_fields();
    match config {
        AuthProviderConfig::Pdpka(p) => {
            f.pdpka = Some(PdpkaJson { allow_signup: Some(p.allow_signup) });
        },
        AuthProviderConfig::Anonymous(a) => {
            f.anonymous = Some(AnonymousJson {
                session_duration_seconds: Some(a.session_duration_seconds),
                auto_upgrade: Some(a.auto_upgrade),
            });
        },
        AuthProviderConfig::OAuth(o) => {
            f.oauth = Some(OAuthJson {
                client_id: Some(o.client_id.clone()),
                scopes: Some(copy_strings(&o.scopes)),
                allowed_hosted_domains: Some(copy_strings(&o.allowed_hosted_domains)),
            });
        },
        AuthProviderConfig::Oidc(o) => {
            f.oidc = Some(OidcJson {
                display_name: Some(o.display_name.clone()),
                issuer_url: Some(o.issuer_url.clone()),
                client_id: Some(o.client_id.clone()),
                scopes: Some(copy_strings(&o.scopes)),
                additional_params: Some(o.additional_params.copy()),
            });
        },
    }
    f
}

/// Reading back the members that carry a configuration gives that configuration.
pub proof fn lemma_provider_config_roundtrip(c: AuthProviderConfigView, f: ConfigFields)
    requires
        fields_carry(f, c),
    ensures
        config_of_fields(f) == Some(c),
{
}


/// What reading optional RFC 3339 text strictly gives: absent stays absent, and
/// text that does not parse is an invalid value.
pub open spec fn strict_instant(o: Option<String>) -> Result<Option<UtcInstant>, ValidationError> {
    match o {
        Some(s) => match rfc3339_instant(s@) {
            Some(i) => Ok(Some(i)),
            None => Err(ValidationError::InvalidValue("timestamp")),
        },
        None => Ok(None),
    }
}

/// Reads optional RFC 3339 text strictly.
pub fn optional_timestamp_strict(o: Option<String>) -> (r: Result<Option<UtcInstant>, ValidationError>)
    ensures
        r == strict_instant(o),
{
    match o {
        Some(s) => match parse_timestamp(Some(s)) {
            Ok(i) => Ok(Some(i)),
            Err(e) => Err(e),
        },
        None => Ok(None),
    }
}

/// A provider of a project as the wire model holds it.
#[derive(Debug, Clone)]
pub struct ProviderJson {
    pub provider_id: Option<String>,
    pub enabled: Option<bool>,
    pub display_order: Option<i32>,
    pub config: ConfigFields,
    pub created_at: Option<String>,
    pub updated_at: Option<String>,
}

/// An authentication provider of a project.
#[derive(Debug, Clone)]
pub struct AuthProvider {
    pub provider_id: String,
    pub enabled: bool,
    pub display_order: i32,
    pub config: Option<AuthProviderConfig>,
    pub created_at: Option<UtcInstant>,
    pub updated_at: Option<UtcInstant>,
}

/// The mathematical value of a project's provider.
pub struct AuthProviderView {
    pub provider_id: Seq<char>,
    pub enabled: bool,
    pub display_order: i32,
    pub config: Option<AuthProviderConfigView>,
    pub created_at: Option<UtcInstant>,
    pub updated_at: Option<UtcInstant>,
}

impl View for AuthProvider {
    type V = AuthProviderView;

    open spec fn view(&self) -> AuthProviderView {
        AuthProviderView {
            provider_id: self.provider_id@,
            enabled: self.enabled,
            display_order: self.display_order,
            config: opt_config_view(self.config),
            created_at: self.created_at,
            updated_at: self.updated_at,
        }
    }
}

/// What reading a provider gives: the identifier must be present, then both
/// timestamps, when present, must parse (the first failure is the error); it is
/// disabled and at order 0 when those are absent, and its settings are those of
/// its kind.
pub open spec fn provider_of_json(j: ProviderJson) -> Result<AuthProviderView, ValidationError> {
    if j.provider_id is None {
        Err(ValidationError::MissingField("providerId"))
    } else {
        match strict_instant(j.created_at) {
            Err(e) => Err(e),
            Ok(created_at) => match strict_instant(j.updated_at) {
                Err(e) => Err(e),
                Ok(updated_at) => Ok(AuthProviderView {
                    provider_id: j.provider_id->0@,
                    enabled: match j.enabled {
                        Some(b) => b,
                        None => false,
                    },
                    display_order: match j.display_order {
                        Some(n) => n,
                        None => 0,
                    },
                    config: config_of_fields(j.config),
                    created_at,
                    updated_at,
                }),
            },
        }
    }
}

impl FromJson for AuthProvider {
    type Json = ProviderJson;

    open spec fn json_result(json: ProviderJson) -> Result<AuthProviderView, ValidationError> {
        provider_of_json(json)
    }

    /// Converts a project's provider from its wire model.
    fn from_json(json: ProviderJson) -> (r: Result<AuthProvider, ValidationError>) {
        let config = parse_provider_config(&json.config);
        let provider_id = match json.provider_id {
            Some(p) => p,
            None => return Err(ValidationError::MissingField("providerId")),
        };
        let created_at = match optional_timestamp_strict(json.created_at) {
            Ok(t) => t,
            Err(e) => return Err(e),
        };
        let updated_at = match optional_timestamp_strict(json.updated_at) {
            Ok(t) => t,
            Err(e) => return Err(e),
        };
        Ok(AuthProvider {
            provider_id,
            enabled: match json.enabled {
                Some(b) => b,
                None => false,
            },
            display_order: match json.display_order {
                Some(n) => n,
                None => 0,
            },
            config,
            created_at,
            updated_at,
        })
    }
}

/// A tenant's override of a provider as the wire model holds it: enabled and
/// order may be explicitly null.
#[derive(Debug, Clone)]
pub struct OverrideJson {
    pub provider_id: Option<String>,
    pub enabled: Option<Option<bool>>,
    pub display_order: Option<Option<i32>>,
    pub config: ConfigFields,
    pub created_at: Option<String>,
    pub updated_at: Option<String>,
}

/// A tenant's override of a project provider; absent settings are inherited.
#[derive(Debug, Clone)]
pub struct TenantAuthProviderOverride {
    pub provider_id: String,
    pub enabled: Option<bool>,
    pub display_order: Option<i32>,
    pub config: Option<AuthProviderConfig>,
    pub created_at: Option<UtcInstant>,
    pub updated_at: Option<UtcInstant>,
}

/// The mathematical value of a tenant's override.
pub struct OverrideView {
    pub provider_id: Seq<char>,
    pub enabled: Option<bool>,
    pub display_order: Option<i32>,
    pub config: Option<AuthProviderConfigView>,
    pub created_at: Option<UtcInstant>,
    pub updated_at: Option<UtcInstant>,
}

impl View for TenantAuthProviderOverride {
    type V = OverrideView;

    open spec fn view(&self) -> OverrideView {
        OverrideView {
            provider_id: self.provider_id@,
            enabled: self.enabled,
            display_order: self.display_order,
            config: opt_config_view(self.config),
            created_at: self.created_at,
            updated_at: self.updated_at,
        }
    }
}

/// What reading an override gives: the identifier must be present, then both
/// timestamps, when present, must parse (the first failure is the error); null
/// settings are absent, that is inherited from the project.
pub open spec fn override_of_json(j: OverrideJson) -> Result<OverrideView, ValidationError> {
    if j.provider_id is None {
        Err(ValidationError::MissingField("providerId"))
    } else {
        match strict_instant(j.created_at) {
            Err(e) => Err(e),
            Ok(created_at) => match strict_instant(j.updated_at) {
                Err(e) => Err(e),
                Ok(updated_at) => Ok(OverrideView {
                    provider_id: j.provider_id->0@,
                    enabled: flatten(j.enabled),
                    display_order: flatten(j.display_order),
                    config: config_of_fields(j.config),
                    created_at,
                    updated_at,
                }),
            },
        }
    }
}

impl FromJson for TenantAuthProviderOverride {
    type Json = OverrideJson;

    open spec fn json_result(json: OverrideJson) -> Result<OverrideView, ValidationError> {
        override_of_json(json)
    }

    /// Converts a tenant's provider override from its wire model.
    fn from_json(json: OverrideJson) -> (r: Result<TenantAuthProviderOverride, ValidationError>) {
        let config = parse_provider_config(&json.config);
        let provider_id = match json.provider_id {
            Some(p) => p,
            None => return Err(ValidationError::MissingField("providerId")),
        };
        let created_at = match optional_timestamp_strict(json.created_at) {
            Ok(t) => t,
            Err(e) => return Err(e),
        };
        let updated_at = match optional_timestamp_strict(json.updated_at) {
            Ok(t) => t,
            Err(e) => return Err(e),
        };
        Ok(TenantAuthProviderOverride {
            provider_id,
            enabled: match json.enabled {
                Some(Some(b)) => Some(b),
                _ => None,
            },
            display_order: match json.display_order {
                Some(Some(n)) => Some(n),
                _ => None,
            },
            config,
            created_at,
            updated_at,
        })
    }
}

/// Where an effective provider's settings come from.
#[derive(Debug, Clone, Copy, PartialEq, Eq, Structural)]
pub enum ConfigSource {
    Project,
    Tenant,
}

/// A provider as it applies to a tenant.
#[derive(Debug, Clone)]
pub struct EffectiveAuthProvider {
    pub provider: AuthProvider,
    pub source: ConfigSource,
}

/// An effective provider as the wire model holds it.
#[derive(Debug, Clone)]
pub struct EffectiveProviderJson {
    pub provider: Option<ProviderJson>,
    pub source: Option<ConfigSource>,
}

impl View for EffectiveAuthProvider {
    type V = (AuthProviderView, ConfigSource);

    open spec fn view(&self) -> (AuthProviderView, ConfigSource) {
        (self.provider@, self.source)
    }
}

/// What reading an effective provider gives: the provider must be present and
/// convert, and an absent source means the project.
pub open spec fn effective_of_json(j: EffectiveProviderJson) -> Result<(AuthProviderView, ConfigSource), ValidationError> {
    match j.provider {
        None => Err(ValidationError::MissingField("provider")),
        Some(p) => match provider_of_json(p) {
            Err(e) => Err(e),
            Ok(v) => Ok((v, match j.source {
                Some(s) => s,
                None => ConfigSource::Project,
            })),
        },
    }
}

impl FromJson for EffectiveAuthProvider {
    type Json = EffectiveProviderJson;

    open spec fn json_result(json: EffectiveProviderJson) -> Result<(AuthProviderView, ConfigSource), ValidationError> {
        effective_of_json(json)
    }

    /// Converts an effective provider from its wire model.
    fn from_json(json: EffectiveProviderJson) -> (r: Result<EffectiveAuthProvider, ValidationError>) {
        let EffectiveProviderJson { provider, source } = json;
        let provider_json = match provider {
            Some(p) => p,
            None => return Err(ValidationError::MissingField("provider")),
        };
        let provider = match AuthProvider::from_json(provider_json) {
            Ok(p) => p,
            Err(e) => return Err(e),
        };
        let source = match source {
            Some(s) => s,
            None => ConfigSource::Project,
        };
        Ok(EffectiveAuthProvider { provider, source })
    }
}


/// The body of a request to update a project's provider.
#[derive(Debug, Clone)]
pub struct UpdateProjectAuthProviderBody {
    pub enabled: Option<bool>,
    pub display_order: Option<i32>,
    pub config: ConfigFields,
    pub client_secret: Option<String>,
}

/// Whether the per-kind members carry the optional configuration (none when absent).
pub open spec fn fields_carry_opt(f: ConfigFields, c: Option<AuthProviderConfigView>) -> bool {
    match c {
        Some(c) => fields_carry(f, c),
        None => f.pdpka is None && f.anonymous is None && f.oauth is None && f.oidc is None,
    }
}

/// The per-kind members for an optional configuration.
fn opt_config_fields(config: Option<&AuthProviderConfig>) -> (f: ConfigFields)
    ensures
        fields_carry_opt(f, match config {
            Some(c) => Some(c@),
            None => None,
        }),
{
    match config {
        Some(c) => config_to_request(c),
        None => no_config_fields(),
    }
}

/// Builds the body of a request to update a project's provider.
pub fn build_update_project_request(
    enabled: Option<bool>,
    display_order: Option<i32>,
    config: Option<&AuthProviderConfig>,
    client_secret: Option<String>,
) -> (b: UpdateProjectAuthProviderBody)
    ensures
        b.enabled == enabled,
        b.display_order == display_order,
        fields_carry_opt(b.config, match config {
            Some(c) => Some(c@),
            None => None,
        }),
        opt_view(b.client_secret) == opt_view(client_secret),
{
    UpdateProjectAuthProviderBody { enabled, display_order, config: opt_config_fields(config), client_secret }
}

/// The body of a request to update a tenant's provider override; its enabled and
/// order members are nullable.
#[derive(Debug, Clone)]
pub struct UpdateTenantAuthProviderBody {
    pub enabled: Option<Option<bool>>,
    pub display_order: Option<Option<i32>>,
    pub config: ConfigFields,
    pub client_secret: Option<String>,
}

/// Builds the body of a request to update a tenant's provider override.
pub fn build_update_tenant_request(
    enabled: Option<bool>,
    display_order: Option<i32>,
    config: Option<&AuthProviderConfig>,
    client_secret: Option<String>,
) -> (b: UpdateTenantAuthProviderBody)
    ensures
        b.enabled == (match enabled {
            Some(e) => Some(Some(e)),
            None => None,
        }),
        b.display_order == (match display_order {
            Some(n) => Some(Some(n)),
            None => None,
        }),
        fields_carry_opt(b.config, match config {
            Some(c) => Some(c@),
            None => None,
        }),
        opt_view(b.client_secret) == opt_view(client_secret),
{
    UpdateTenantAuthProviderBody {
        enabled: match enabled {
            Some(e) => Some(Some(e)),
            None => None,
        },
        display_order: match display_order {
            Some(n) => Some(Some(n)),
            None => None,
        },
        config: opt_config_fields(config),
        client_secret,
    }
}

/// A request to update a tenant's override of a project provider; absent
/// settings are left unchanged.
#[derive(Debug, Clone)]
pub struct UpdateTenantAuthProviderRequest {
    pub project_id: String,
    pub tenant_id: String,
    pub provider_id: String,
    pub enabled: Option<bool>,
    pub display_order: Option<i32>,
    pub config: Option<AuthProviderConfig>,
    pub client_secret: Option<String>,
}

/// The protobuf request that updates a tenant's provider override. The
/// configuration is carried as the domain value; its protobuf encoding is done
/// where the message is built.
#[derive(Debug, Clone)]
pub struct ProtoUpdateTenantAuthProviderRequest {
    pub project_id: String,
    pub tenant_id: String,
    pub provider_id: String,
    pub enabled: Option<bool>,
    pub display_order: Option<i32>,
    pub config: Option<AuthProviderConfig>,
    pub client_secret: Option<String>,
}

/// Converts a request to update a tenant's provider override to its protobuf
/// message, member for member.
pub fn update_tenant_auth_provider_into_proto(req: UpdateTenantAuthProviderRequest) -> (p: ProtoUpdateTenantAuthProviderRequest)
    ensures
        p.project_id@ == req.project_id@,
        p.tenant_id@ == req.tenant_id@,
        p.provider_id@ == req.provider_id@,
        p.enabled == req.enabled,
        p.display_order == req.display_order,
        opt_config_view(p.config) == opt_config_view(req.config),
        opt_view(p.client_secret) == opt_view(req.client_secret),
{
    let UpdateTenantAuthProviderRequest {
        project_id,
        tenant_id,
        provider_id,
        enabled,
        display_order,
        config,
        client_secret,
    } = req;
    ProtoUpdateTenantAuthProviderRequest {
        project_id,
        tenant_id,
        provider_id,
        enabled,
        display_order,
        config,
        client_secret,
    }
}

/// Reads the response to a tenant provider override update over gRPC: the
/// override must be present.
pub fn update_tenant_auth_provider_response_from_proto(
    override_: Option<TenantAuthProviderOverride>,
) -> (r: Result<TenantAuthProviderOverride, ValidationError>)
    ensures
        match override_ {
            Some(o) => r matches Ok(p) && p@ == o@,
            None => r == Err::<TenantAuthProviderOverride, ValidationError>(ValidationError::MissingField("override")),
        },
{
    match override_ {
        Some(o) => Ok(o),
        None => Err(ValidationError::MissingField("override")),
    }
}

} // verus!

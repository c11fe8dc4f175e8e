//! Apps: platform configurations, the request bodies that carry them, and the
//! conversion of app responses.

use vstd::prelude::*;
use crate::lists::{
    empty_if_none, lemma_list_roundtrip, list_or_empty, list_or_none, none_if_empty, opt_views,
};
use crate::convert::FromJson;
use crate::problem::{opt_view, ValidationError};
use crate::text::views;
use crate::timestamp::{parse_timestamp, parse_timestamp_result, UtcInstant};

verus! {

/// The platform an app is built for.
#[derive(Debug, Clone, Copy, PartialEq, Eq, Structural)]
pub enum Platform {
    Ios,
    Android,
    Macos,
    Windows,
    Linux,
    Web,
}

/// Whether an app is live or deleted.
#[derive(Debug, Clone, Copy, PartialEq, Eq, Structural)]
pub enum AppState {
    Active,
    Deleted,
}

/// iOS app settings; the wire model has the same fields.
#[derive(Debug, Clone, PartialEq, Eq)]
pub struct IosAppConfig {
    pub bundle_id: String,
    pub app_store_id: Option<String>,
    pub team_id: Option<String>,
}

/// Android app settings.
#[derive(Debug, Clone, PartialEq, Eq)]
pub struct AndroidAppConfig {
    pub package_name: String,
    pub sha1_hashes: Vec<String>,
    pub sha256_hashes: Vec<String>,
}

/// macOS app settings; the wire model has the same fields.
#[derive(Debug, Clone, PartialEq, Eq)]
pub struct MacosAppConfig {
    pub bundle_id: String,
    pub team_id: Option<String>,
    pub mac_app_store_id: Option<String>,
}

/// Windows app settings.
#[derive(Debug, Clone, PartialEq, Eq)]
pub struct WindowsAppConfig {
    pub package_family_name: String,
    pub publisher_id: Option<String>,
    pub cert_thumbprints: Vec<String>,
    pub microsoft_store_id: Option<String>,
}

/// Linux app settings; the wire model has the same fields.
#[derive(Debug, Clone, PartialEq, Eq)]
pub struct LinuxAppConfig {
    pub app_name: String,
    pub flatpak_id: Option<String>,
    pub snap_name: Option<String>,
}

/// Web app settings.
#[derive(Debug, Clone, PartialEq, Eq)]
pub struct WebAppConfig {
    pub authorized_domains: Vec<String>,
    pub auth_domain: Option<String>,
}

/// The settings of an app for its platform.
#[derive(Debug, Clone, PartialEq, Eq)]
pub enum PlatformConfig {
    Ios(IosAppConfig),
    Android(AndroidAppConfig),
    Macos(MacosAppConfig),
    Windows(WindowsAppConfig),
    Linux(LinuxAppConfig),
    Web(WebAppConfig),
}

/// Android settings as the wire model holds them: empty lists may be absent.
#[derive(Debug, Clone, PartialEq, Eq)]
pub struct AndroidJson {
    pub package_name: String,
    pub sha1_hashes: Option<Vec<String>>,
    pub sha256_hashes: Option<Vec<String>>,
}

/// Windows settings as the wire model holds them.
#[derive(Debug, Clone, PartialEq, Eq)]
pub struct WindowsJson {
    pub package_family_name: String,
    pub publisher_id: Option<String>,
    pub cert_thumbprints: Option<Vec<String>>,
    pub microsoft_store_id: Option<String>,
}

/// Web settings as the wire model holds them.
#[derive(Debug, Clone, PartialEq, Eq)]
pub struct WebJson {
    pub authorized_domains: Option<Vec<String>>,
    pub auth_domain: Option<String>,
}

/// The per-platform members of app request and response bodies; at most one is
/// present in a body the client builds.
#[derive(Debug, Clone, PartialEq, Eq)]
pub struct PlatformFields {
    pub ios: Option<IosAppConfig>,
    pub android: Option<AndroidJson>,
    pub macos: Option<MacosAppConfig>,
    pub windows: Option<WindowsJson>,
    pub linux: Option<LinuxAppConfig>,
    pub web: Option<WebJson>,
}

pub struct IosView {
    pub bundle_id: Seq<char>,
    pub app_store_id: Option<Seq<char>>,
    pub team_id: Option<Seq<char>>,
}

pub struct AndroidView {
    pub package_name: Seq<char>,
    pub sha1_hashes: Seq<Seq<char>>,
    pub sha256_hashes: Seq<Seq<char>>,
}

pub struct MacosView {
    pub bundle_id: Seq<char>,
    pub team_id: Option<Seq<char>>,
    pub mac_app_store_id: Option<Seq<char>>,
}

pub struct WindowsView {
    pub package_family_name: Seq<char>,
    pub publisher_id: Option<Seq<char>>,
    pub cert_thumbprints: Seq<Seq<char>>,
    pub microsoft_store_id: Option<Seq<char>>,
}

pub struct LinuxView {
    pub app_name: Seq<char>,
    pub flatpak_id: Option<Seq<char>>,
    pub snap_name: Option<Seq<char>>,
}

pub struct WebView {
    pub authorized_domains: Seq<Seq<char>>,
    pub auth_domain: Option<Seq<char>>,
}

/// The mathematical value of a platform configuration.
pub enum PlatformConfigView {
    Ios(IosView),
    Android(AndroidView),
    Macos(MacosView),
    Windows(WindowsView),
    Linux(LinuxView),
    Web(WebView),
}

pub struct AndroidJsonView {
    pub package_name: Seq<char>,
    pub sha1_hashes: Option<Seq<Seq<char>>>,
    pub sha256_hashes: Option<Seq<Seq<char>>>,
}

pub struct WindowsJsonView {
    pub package_family_name: Seq<char>,
    pub publisher_id: Option<Seq<char>>,
    pub cert_thumbprints: Option<Seq<Seq<char>>>,
    pub microsoft_store_id: Option<Seq<char>>,
}

pub struct WebJsonView {
    pub authorized_domains: Option<Seq<Seq<char>>>,
    pub auth_domain: Option<Seq<char>>,
}

/// The mathematical value of the per-platform members of a body.
pub struct PlatformFieldsView {
    pub ios: Option<IosView>,
    pub android: Option<AndroidJsonView>,
    pub macos: Option<MacosView>,
    pub windows: Option<WindowsJsonView>,
    pub linux: Option<LinuxView>,
    pub web: Option<WebJsonView>,
}

impl View for IosAppConfig {
    type V = IosView;

    open spec fn view(&self) -> IosView {
        IosView {
            bundle_id: self.bundle_id@,
            app_store_id: opt_view(self.app_store_id),
            team_id: opt_view(self.team_id),
        }
    }
}

impl View for AndroidAppConfig {
    type V = AndroidView;

    open spec fn view(&self) -> AndroidView {
        AndroidView {
            package_name: self.package_name@,
            sha1_hashes: views(self.sha1_hashes@),
            sha256_hashes: views(self.sha256_hashes@),
        }
    }
}

impl View for MacosAppConfig {
    type V = MacosView;

    open spec fn view(&self) -> MacosView {
        MacosView {
            bundle_id: self.bundle_id@,
            team_id: opt_view(self.team_id),
            mac_app_store_id: opt_view(self.mac_app_store_id),
        }
    }
}

impl View for WindowsAppConfig {
    type V = WindowsView;

    open spec fn view(&self) -> WindowsView {
        WindowsView {
            package_family_name: self.package_family_name@,
            publisher_id: opt_view(self.publisher_id),
            cert_thumbprints: views(self.cert_thumbprints@),
            microsoft_store_id: opt_view(self.microsoft_store_id),
        }
    }
}

impl View for LinuxAppConfig {
    type V = LinuxView;

    open spec fn view(&self) -> LinuxView {
        LinuxView {
            app_name: self.app_name@,
            flatpak_id: opt_view(self.flatpak_id),
            snap_name: opt_view(self.snap_name),
        }
    }
}

impl View for WebAppConfig {
    type V = WebView;

    open spec fn view(&self) -> WebView {
        WebView {
            authorized_domains: views(self.authorized_domains@),
            auth_domain: opt_view(self.auth_domain),
        }
    }
}

impl View for PlatformConfig {
    type V = PlatformConfigView;

    open spec fn view(&self) -> PlatformConfigView {
        match self {
            PlatformConfig::Ios(c) => PlatformConfigView::Ios(c@),
            PlatformConfig::Android(c) => PlatformConfigView::Android(c@),
            PlatformConfig::Macos(c) => PlatformConfigView::Macos(c@),
            PlatformConfig::Windows(c) => PlatformConfigView::Windows(c@),
            PlatformConfig::Linux(c) => PlatformConfigView::Linux(c@),
            PlatformConfig::Web(c) => PlatformConfigView::Web(c@),
        }
    }
}

impl View for AndroidJson {
    type V = AndroidJsonView;

    open spec fn view(&self) -> AndroidJsonView {
        AndroidJsonView {
            package_name: self.package_name@,
            sha1_hashes: opt_views(self.sha1_hashes),
            sha256_hashes: opt_views(self.sha256_hashes),
        }
    }
}

impl View for WindowsJson {
    type V = WindowsJsonView;

    open spec fn view(&self) -> WindowsJsonView {
        WindowsJsonView {
            package_family_name: self.package_family_name@,
            publisher_id: opt_view(self.publisher_id),
            cert_thumbprints: opt_views(self.cert_thumbprints),
            microsoft_store_id: opt_view(self.microsoft_store_id),
        }
    }
}

impl View for WebJson {
    type V = WebJsonView;

    open spec fn view(&self) -> WebJsonView {
        WebJsonView {
            authorized_domains: opt_views(self.authorized_domains),
            auth_domain: opt_view(self.auth_domain),
        }
    }
}

/// The view of an optional member.
pub open spec fn opt_member<T: View>(o: Option<T>) -> Option<T::V> {
    match o {
        Some(t) => Some(t@),
        None => None,
    }
}

impl View for PlatformFields {
    type V = PlatformFieldsView;

    open spec fn view(&self) -> PlatformFieldsView {
        PlatformFieldsView {
            ios: opt_member(self.ios),
            android: opt_member(self.android),
            macos: opt_member(self.macos),
            windows: opt_member(self.windows),
            linux: opt_member(self.linux),
            web: opt_member(self.web),
        }
    }
}

/// The platform that a configuration is for.
pub open spec fn platform_of(c: PlatformConfigView) -> Platform {
    match c {
        PlatformConfigView::Ios(_) => Platform::Ios,
        PlatformConfigView::Android(_) => Platform::Android,
        PlatformConfigView::Macos(_) => Platform::Macos,
        PlatformConfigView::Windows(_) => Platform::Windows,
        PlatformConfigView::Linux(_) => Platform::Linux,
        PlatformConfigView::Web(_) => Platform::Web,
    }
}

/// No per-platform member.
pub open spec fn no_fields() -> PlatformFieldsView {
    PlatformFieldsView { ios: None, android: None, macos: None, windows: None, linux: None, web: None }
}

/// The per-platform members that carry a configuration: only the member of its
/// platform is present, and empty lists are omitted.
pub open spec fn fields_of_config(c: PlatformConfigView) -> PlatformFieldsView {
    match c {
        PlatformConfigView::Ios(i) => PlatformFieldsView { ios: Some(i), ..no_fields() },
        PlatformConfigView::Android(a) => PlatformFieldsView {
            android: Some(AndroidJsonView {
                package_name: a.package_name,
                sha1_hashes: none_if_empty(a.sha1_hashes),
                sha256_hashes: none_if_empty(a.sha256_hashes),
            }),
            ..no_fields()
        },
        PlatformConfigView::Macos(m) => PlatformFieldsView { macos: Some(m), ..no_fields() },
        PlatformConfigView::Windows(w) => PlatformFieldsView {
            windows: Some(WindowsJsonView {
                package_family_name: w.package_family_name,
                publisher_id: w.publisher_id,
                cert_thumbprints: none_if_empty(w.cert_thumbprints),
                microsoft_store_id: w.microsoft_store_id,
            }),
            ..no_fields()
        },
        PlatformConfigView::Linux(l) => PlatformFieldsView { linux: Some(l), ..no_fields() },
        PlatformConfigView::Web(w) => PlatformFieldsView {
            web: Some(WebJsonView {
                authorized_domains: none_if_empty(w.authorized_domains),
                auth_domain: w.auth_domain,
            }),
            ..no_fields()
        },
    }
}

/// The configuration that the member of `platform` holds; a missing member is a missing field.
pub open spec fn config_of_fields(platform: Platform, f: PlatformFieldsView) -> Result<PlatformConfigView, ValidationError> {
    match platform {
        Platform::Ios => match f.ios {
            Some(i) => Ok(PlatformConfigView::Ios(i)),
            None => Err(ValidationError::MissingField("ios")),
        },
        Platform::Android => match f.android {
            Some(a) => Ok(PlatformConfigView::Android(AndroidView {
                package_name: a.package_name,
                sha1_hashes: empty_if_none(a.sha1_hashes),
                sha256_hashes: empty_if_none(a.sha256_hashes),
            })),
            None => Err(ValidationError::MissingField("android")),
        },
        Platform::Macos => match f.macos {
            Some(m) => Ok(PlatformConfigView::Macos(m)),
            None => Err(ValidationError::MissingField("macos")),
        },
        Platform::Windows => match f.windows {
            Some(w) => Ok(PlatformConfigView::Windows(WindowsView {
                package_family_name: w.package_family_name,
                publisher_id: w.publisher_id,
                cert_thumbprints: empty_if_none(w.cert_thumbprints),
                microsoft_store_id: w.microsoft_store_id,
            })),
            None => Err(ValidationError::MissingField("windows")),
        },
        Platform::Linux => match f.linux {
            Some(l) => Ok(PlatformConfigView::Linux(l)),
            None => Err(ValidationError::MissingField("linux")),
        },
        Platform::Web => match f.web {
            Some(w) => Ok(PlatformConfigView::Web(WebView {
                authorized_domains: empty_if_none(w.authorized_domains),
                auth_domain: w.auth_domain,
            })),
            None => Err(ValidationError::MissingField("web")),
        },
    }
}

/// Empty per-platform members.
fn empty_fields() -> (f: PlatformFields)
    ensures
        f@ == no_fields(),
{
    PlatformFields { ios: None, android: None, macos: None, windows: None, linux: None, web: None }
}

/// Puts a platform configuration into the per-platform members of a request body.
pub fn platform_fields(config: PlatformConfig) -> (f: PlatformFields)
    ensures
        f@ == fields_of_config(config@),
{
    let mut f = empty_fields();
    match config {
        PlatformConfig::Ios(c) => {
            f.ios = Some(c);
        },
        PlatformConfig::Android(c) => {
            f.android = Some(AndroidJson {
                package_name: c.package_name,
                sha1_hashes: list_or_none(c.sha1_hashes),
                sha256_hashes: list_or_none(c.sha256_hashes),
            });
        },
        PlatformConfig::Macos(c) => {
            f.macos = Some(c);
        },
        PlatformConfig::Windows(c) => {
            f.windows = Some(WindowsJson {
                package_family_name: c.package_family_name,
                publisher_id: c.publisher_id,
                cert_thumbprints: list_or_none(c.cert_thumbprints),
                microsoft_store_id: c.microsoft_store_id,
            });
        },
        PlatformConfig::Linux(c) => {
            f.linux = Some(c);
        },
        PlatformConfig::Web(c) => {
            f.web = Some(WebJson {
                authorized_domains: list_or_none(c.authorized_domains),
                auth_domain: c.auth_domain,
            });
        },
    }
    f
}

/// Reads the configuration of `platform` from the per-platform members of an app
/// response: the platform's member must be present, and omitted lists are empty.
pub fn parse_platform_config(fields: &PlatformFields, platform: Platform) -> (r: Result<PlatformConfig, ValidationError>)
    ensures
        match r {
            Ok(c) => config_of_fields(platform, fields@) == Ok::<PlatformConfigView, ValidationError>(c@),
            Err(e) => config_of_fields(platform, fields@) == Err::<PlatformConfigView, ValidationError>(e),
        },
{
    match platform {
        Platform::Ios => match &fields.ios {
            Some(c) => Ok(PlatformConfig::Ios(IosAppConfig {
                bundle_id: c.bundle_id.clone(),
                app_store_id: c.app_store_id.clone(),
                team_id: c.team_id.clone(),
            })),
            None => Err(ValidationError::MissingField("ios")),
        },
        Platform::Android => match &fields.android {
            Some(c) => Ok(PlatformConfig::Android(AndroidAppConfig {
                package_name: c.package_name.clone(),
                sha1_hashes: list_or_empty(c.sha1_hashes.clone()),
                sha256_hashes: list_or_empty(c.sha256_hashes.clone()),
            })),
            None => Err(ValidationError::MissingField("android")),
        },
        Platform::Macos => match &fields.macos {
            Some(c) => Ok(PlatformConfig::Macos(MacosAppConfig {
                bundle_id: c.bundle_id.clone(),
                team_id: c.team_id.clone(),
                mac_app_store_id: c.mac_app_store_id.clone(),
            })),
            None => Err(ValidationError::MissingField("macos")),
        },
        Platform::Windows => match &fields.windows {
            Some(c) => Ok(PlatformConfig::Windows(WindowsAppConfig {
                package_family_name: c.package_family_name.clone(),
                publisher_id: c.publisher_id.clone(),
                cert_thumbprints: list_or_empty(c.cert_thumbprints.clone()),
                microsoft_store_id: c.microsoft_store_id.clone(),
            })),
            None => Err(ValidationError::MissingField("windows")),
        },
        Platform::Linux => match &fields.linux {
            Some(c) => Ok(PlatformConfig::Linux(LinuxAppConfig {
                app_name: c.app_name.clone(),
                flatpak_id: c.flatpak_id.clone(),
                snap_name: c.snap_name.clone(),
            })),
            None => Err(ValidationError::MissingField("linux")),
        },
        Platform::Web => match &fields.web {
            Some(c) => Ok(PlatformConfig::Web(WebAppConfig {
                authorized_domains: list_or_empty(c.authorized_domains.clone()),
                auth_domain: c.auth_domain.clone(),
            })),
            None => Err(ValidationError::MissingField("web")),
        },
    }
}

/// Reading back the members that carry a configuration gives that configuration.
pub proof fn lemma_platform_config_roundtrip(c: PlatformConfigView)
    ensures
        config_of_fields(platform_of(c), fields_of_config(c)) == Ok::<PlatformConfigView, ValidationError>(c),
{
    match c {
        PlatformConfigView::Android(a) => {
            lemma_list_roundtrip(a.sha1_hashes);
            lemma_list_roundtrip(a.sha256_hashes);
        },
        PlatformConfigView::Windows(w) => {
            lemma_list_roundtrip(w.cert_thumbprints);
        },
        PlatformConfigView::Web(w) => {
            lemma_list_roundtrip(w.authorized_domains);
        },
        _ => {},
    }
}


/// The domain request to create an app.
#[derive(Debug, Clone, PartialEq, Eq)]
pub struct CreateAppRequest {
    pub project_id: String,
    pub display_name: String,
    pub platform_config: PlatformConfig,
}

/// The body of a create-app request.
#[derive(Debug, Clone, PartialEq, Eq)]
pub struct CreateAppBody {
    pub display_name: String,
    pub platform: Platform,
    pub fields: PlatformFields,
}

/// Builds the body of a create-app request: the platform of the configuration
/// and, in that platform's member only, its settings.
pub fn build_create_request(req: CreateAppRequest) -> (body: CreateAppBody)
    ensures
        body.display_name@ == req.display_name@,
        body.platform == platform_of(req.platform_config@),
        body.fields@ == fields_of_config(req.platform_config@),
{
    let platform = match &req.platform_config {
        PlatformConfig::Ios(_) => Platform::Ios,
        PlatformConfig::Android(_) => Platform::Android,
        PlatformConfig::Macos(_) => Platform::Macos,
        PlatformConfig::Windows(_) => Platform::Windows,
        PlatformConfig::Linux(_) => Platform::Linux,
        PlatformConfig::Web(_) => Platform::Web,
    };
    CreateAppBody {
        display_name: req.display_name,
        platform,
        fields: platform_fields(req.platform_config),
    }
}

/// The domain request to update an app; absent members are left unchanged.
#[derive(Debug, Clone, PartialEq, Eq)]
pub struct UpdateAppRequest {
    pub project_id: String,
    pub app_id: String,
    pub display_name: Option<String>,
    pub platform_config: Option<PlatformConfig>,
}

/// The body of an update-app request.
#[derive(Debug, Clone, PartialEq, Eq)]
pub struct UpdateAppBody {
    pub display_name: Option<String>,
    pub fields: PlatformFields,
}

/// Builds the body of an update-app request: the new display name, if any, and
/// the new platform settings, if any, in their platform's member.
pub fn build_update_request(req: UpdateAppRequest) -> (body: UpdateAppBody)
    ensures
        opt_view(body.display_name) == opt_view(req.display_name),
        body.fields@ == (match req.platform_config {
            Some(c) => fields_of_config(c@),
            None => no_fields(),
        }),
{
    let fields = match req.platform_config {
        Some(c) => platform_fields(c),
        None => empty_fields(),
    };
    UpdateAppBody { display_name: req.display_name, fields }
}

/// An app as the wire model holds it.
#[derive(Debug, Clone, PartialEq, Eq)]
pub struct AppJson {
    pub name: Option<String>,
    pub project_id: Option<String>,
    pub app_id: Option<String>,
    pub pistachio_id: Option<String>,
    pub display_name: Option<String>,
    pub platform: Option<Platform>,
    pub state: Option<AppState>,
    pub fields: PlatformFields,
    pub api_key: Option<String>,
    pub created_at: Option<String>,
    pub updated_at: Option<String>,
}

/// An app.
#[derive(Debug, Clone, PartialEq, Eq)]
pub struct App {
    pub project_id: String,
    pub app_id: String,
    pub name: String,
    pub pistachio_id: String,
    pub display_name: String,
    pub platform: Platform,
    pub platform_config: PlatformConfig,
    pub api_key: Option<String>,
    pub state: AppState,
    pub created_at: UtcInstant,
    pub updated_at: UtcInstant,
}

/// The mathematical value of an app.
pub struct AppView {
    pub project_id: Seq<char>,
    pub app_id: Seq<char>,
    pub name: Seq<char>,
    pub pistachio_id: Seq<char>,
    pub display_name: Seq<char>,
    pub platform: Platform,
    pub platform_config: PlatformConfigView,
    pub api_key: Option<Seq<char>>,
    pub state: AppState,
    pub created_at: UtcInstant,
    pub updated_at: UtcInstant,
}

impl View for App {
    type V = AppView;

    open spec fn view(&self) -> AppView {
        AppView {
            project_id: self.project_id@,
            app_id: self.app_id@,
            name: self.name@,
            pistachio_id: self.pistachio_id@,
            display_name: self.display_name@,
            platform: self.platform,
            platform_config: self.platform_config@,
            api_key: opt_view(self.api_key),
            state: self.state,
            created_at: self.created_at,
            updated_at: self.updated_at,
        }
    }
}

/// What reading an app gives: each required member in turn must be present
/// (name, project_id, app_id, pistachio_id, display_name, platform, state), then
/// the platform's settings, then both timestamps must parse; the first failure is the error.
pub open spec fn app_of_json(j: AppJson) -> Result<AppView, ValidationError> {
    if j.name is None {
        Err(ValidationError::MissingField("name"))
    } else if j.project_id is None {
        Err(ValidationError::MissingField("project_id"))
    } else if j.app_id is None {
        Err(ValidationError::MissingField("app_id"))
    } else if j.pistachio_id is None {
        Err(ValidationError::MissingField("pistachio_id"))
    } else if j.display_name is None {
        Err(ValidationError::MissingField("display_name"))
    } else if j.platform is None {
        Err(ValidationError::MissingField("platform"))
    } else if j.state is None {
        Err(ValidationError::MissingField("state"))
    } else {
        match config_of_fields(j.platform->0, j.fields@) {
            Err(e) => Err(e),
            Ok(config) => match parse_timestamp_result(opt_view(j.created_at)) {
                Err(e) => Err(e),
                Ok(created_at) => match parse_timestamp_result(opt_view(j.updated_at)) {
                    Err(e) => Err(e),
                    Ok(updated_at) => Ok(AppView {
                        project_id: j.project_id->0@,
                        app_id: j.app_id->0@,
                        name: j.name->0@,
                        pistachio_id: j.pistachio_id->0@,
                        display_name: j.display_name->0@,
                        platform: j.platform->0,
                        platform_config: config,
                        api_key: opt_view(j.api_key),
                        state: j.state->0,
                        created_at,
                        updated_at,
                    }),
                },
            },
        }
    }
}

impl FromJson for App {
    type Json = AppJson;

    open spec fn json_result(json: AppJson) -> Result<AppView, ValidationError> {
        app_of_json(json)
    }

    /// Converts an app from its wire model. Identifiers, name and display name
    /// are kept as the text the server sent: their syntax is not checked here.
    fn from_json(json: AppJson) -> (r: Result<App, ValidationError>) {
        let AppJson {
            name,
            project_id,
            app_id,
            pistachio_id,
            display_name,
            platform,
            state,
            fields,
            api_key,
            created_at,
            updated_at,
        } = json;
        let name = match name {
            Some(v) => v,
            None => return Err(ValidationError::MissingField("name")),
        };
        let project_id = match project_id {
            Some(v) => v,
            None => return Err(ValidationError::MissingField("project_id")),
        };
        let app_id = match app_id {
            Some(v) => v,
            None => return Err(ValidationError::MissingField("app_id")),
        };
        let pistachio_id = match pistachio_id {
            Some(v) => v,
            None => return Err(ValidationError::MissingField("pistachio_id")),
        };
        let display_name = match display_name {
            Some(v) => v,
            None => return Err(ValidationError::MissingField("display_name")),
        };
        let platform = match platform {
            Some(v) => v,
            None => return Err(ValidationError::MissingField("platform")),
        };
        let state = match state {
            Some(v) => v,
            None => return Err(ValidationError::MissingField("state")),
        };
        let platform_config = match parse_platform_config(&fields, platform) {
            Ok(c) => c,
            Err(e) => return Err(e),
        };
        let created_at = match parse_timestamp(created_at) {
            Ok(t) => t,
            Err(e) => return Err(e),
        };
        let updated_at = match parse_timestamp(updated_at) {
            Ok(t) => t,
            Err(e) => return Err(e),
        };
        Ok(App {
            project_id,
            app_id,
            name,
            pistachio_id,
            display_name,
            platform,
            platform_config,
            api_key,
            state,
            created_at,
            updated_at,
        })
    }
}

/// The configuration file of an app.
#[derive(Debug, Clone, PartialEq, Eq)]
pub struct AppConfigFile {
    pub config_file_contents: String,
    pub config_filename: String,
}

/// Reads the configuration file of an app: its contents and its file name must
/// both be present, the contents checked first.
pub fn app_config_from_json(
    config_file_contents: Option<String>,
    config_filename: Option<String>,
) -> (r: Result<AppConfigFile, ValidationError>)
    ensures
        match r {
            Ok(c) => config_file_contents == Some(c.config_file_contents)
                && config_filename == Some(c.config_filename),
            Err(e) => e == (if config_file_contents is None {
                ValidationError::MissingField("config_file_contents")
            } else {
                ValidationError::MissingField("config_filename")
            }) && (config_file_contents is None || config_filename is None),
        },
{
    let config_file_contents = match config_file_contents {
        Some(v) => v,
        None => return Err(ValidationError::MissingField("config_file_contents")),
    };
    let config_filename = match config_filename {
        Some(v) => v,
        None => return Err(ValidationError::MissingField("config_filename")),
    };
    Ok(AppConfigFile { config_file_contents, config_filename })
}

} // verus!

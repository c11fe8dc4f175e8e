//! Projects and tenants: reading them from responses, and the bodies of the
//! requests that create and update tenants.

use vstd::prelude::*;
use crate::convert::FromJson;
use crate::problem::{opt_view, ValidationError};
use crate::text::{split_on, split_on_char, str_eq, string_or_empty, text_or_empty, views};
use crate::timestamp::{parse_timestamp, parse_timestamp_result, UtcInstant};

verus! {

/// The lifecycle state of a project.
#[derive(Debug, Clone, Copy, PartialEq, Eq, Structural)]
pub enum ProjectState {
    Unspecified,
    Active,
    Deleted,
}

/// The project state of the wire model.
#[derive(Debug, Clone, Copy, PartialEq, Eq, Structural)]
pub enum WireProjectState {
    Active,
    Deleted,
}

/// The resources provisioned for a project.
#[derive(Debug, Clone, PartialEq, Eq)]
pub struct ProjectResources {
    pub hosting_site: String,
    pub realtime_database_instance: String,
    pub storage_bucket: String,
}

/// The resources of a project as the wire model holds them.
#[derive(Debug, Clone, PartialEq, Eq)]
pub struct ProjectResourcesJson {
    pub hosting_site: Option<String>,
    pub realtime_database_instance: Option<String>,
    pub storage_bucket: Option<String>,
}

/// A project.
#[derive(Debug, Clone, PartialEq, Eq)]
pub struct Project {
    pub project_id: String,
    pub name: String,
    pub pistachio_id: String,
    pub display_name: String,
    pub state: ProjectState,
    pub resources: Option<ProjectResources>,
    pub location_id: Option<String>,
    pub created_at: UtcInstant,
    pub updated_at: UtcInstant,
}

/// A project as the wire model holds it.
#[derive(Debug, Clone, PartialEq, Eq)]
pub struct ProjectJson {
    pub project_id: Option<String>,
    pub name: Option<String>,
    pub pistachio_id: Option<String>,
    pub display_name: Option<String>,
    pub state: Option<WireProjectState>,
    pub resources: Option<ProjectResourcesJson>,
    pub created_at: Option<String>,
    pub updated_at: Option<String>,
}

/// The mathematical value of project resources.
pub struct ProjectResourcesView {
    pub hosting_site: Seq<char>,
    pub realtime_database_instance: Seq<char>,
    pub storage_bucket: Seq<char>,
}

/// The mathematical value of a project.
pub struct ProjectView {
    pub project_id: Seq<char>,
    pub name: Seq<char>,
    pub pistachio_id: Seq<char>,
    pub display_name: Seq<char>,
    pub state: ProjectState,
    pub resources: Option<ProjectResourcesView>,
    pub location_id: Option<Seq<char>>,
    pub created_at: UtcInstant,
    pub updated_at: UtcInstant,
}

impl View for ProjectResources {
    type V = ProjectResourcesView;

    open spec fn view(&self) -> ProjectResourcesView {
        ProjectResourcesView {
            hosting_site: self.hosting_site@,
            realtime_database_instance: self.realtime_database_instance@,
            storage_bucket: self.storage_bucket@,
        }
    }
}

impl View for Project {
    type V = ProjectView;

    open spec fn view(&self) -> ProjectView {
        ProjectView {
            project_id: self.project_id@,
            name: self.name@,
            pistachio_id: self.pistachio_id@,
            display_name: self.display_name@,
            state: self.state,
            resources: match self.resources {
                Some(r) => Some(r@),
                None => None,
            },
            location_id: opt_view(self.location_id),
            created_at: self.created_at,
            updated_at: self.updated_at,
        }
    }
}

/// The domain value of wire resources: absent members are empty.
pub open spec fn resources_of_json(r: ProjectResourcesJson) -> ProjectResourcesView {
    ProjectResourcesView {
        hosting_site: text_or_empty(r.hosting_site),
        realtime_database_instance: text_or_empty(r.realtime_database_instance),
        storage_bucket: text_or_empty(r.storage_bucket),
    }
}

/// Reads project resources; absent members become empty.
pub fn resources_from_json(json: ProjectResourcesJson) -> (r: ProjectResources)
    ensures
        r@ == resources_of_json(json),
{
    ProjectResources {
        hosting_site: string_or_empty(json.hosting_site),
        realtime_database_instance: string_or_empty(json.realtime_database_instance),
        storage_bucket: string_or_empty(json.storage_bucket),
    }
}

/// The domain state of a wire state; an absent state is unspecified.
pub open spec fn project_state_of(s: Option<WireProjectState>) -> ProjectState {
    match s {
        Some(WireProjectState::Active) => ProjectState::Active,
        Some(WireProjectState::Deleted) => ProjectState::Deleted,
        None => ProjectState::Unspecified,
    }
}

/// What reading a project gives: the members pistachio_id, project_id, name and
/// display_name must be present, in that order, then both timestamps must parse;
/// the first failure is the error. Resources and state are read as they are.
pub open spec fn project_of_json(j: ProjectJson) -> Result<ProjectView, ValidationError> {
    if j.pistachio_id is None {
        Err(ValidationError::MissingField("pistachio_id"))
    } else if j.project_id is None {
        Err(ValidationError::MissingField("project_id"))
    } else if j.name is None {
        Err(ValidationError::MissingField("name"))
    } else if j.display_name is None {
        Err(ValidationError::MissingField("display_name"))
    } else {
        match parse_timestamp_result(opt_view(j.created_at)) {
            Err(e) => Err(e),
            Ok(created_at) => match parse_timestamp_result(opt_view(j.updated_at)) {
                Err(e) => Err(e),
                Ok(updated_at) => Ok(ProjectView {
                    project_id: j.project_id->0@,
                    name: j.name->0@,
                    pistachio_id: j.pistachio_id->0@,
                    display_name: j.display_name->0@,
                    state: project_state_of(j.state),
                    resources: match j.resources {
                        Some(r) => Some(resources_of_json(r)),
                        None => None,
                    },
                    location_id: None,
                    created_at,
                    updated_at,
                }),
            },
        }
    }
}

impl FromJson for Project {
    type Json = ProjectJson;

    open spec fn json_result(json: ProjectJson) -> Result<ProjectView, ValidationError> {
        project_of_json(json)
    }

    /// Reads a project from its wire model. Identifiers, name and display name
    /// are kept as the text the server sent: their syntax is not checked here.
    fn from_json(json: ProjectJson) -> (r: Result<Project, ValidationError>) {
        let ProjectJson {
            project_id,
            name,
            pistachio_id,
            display_name,
            state,
            resources,
            created_at,
            updated_at,
        } = json;
        let state = match state {
            Some(WireProjectState::Active) => ProjectState::Active,
            Some(WireProjectState::Deleted) => ProjectState::Deleted,
            None => ProjectState::Unspecified,
        };
        let resources = match resources {
            Some(r) => Some(resources_from_json(r)),
            None => None,
        };
        let pistachio_id = match pistachio_id {
            Some(v) => v,
            None => return Err(ValidationError::MissingField("pistachio_id")),
        };
        let project_id = match project_id {
            Some(v) => v,
            None => return Err(ValidationError::MissingField("project_id")),
        };
        let name = match name {
            Some(v) => v,
            None => return Err(ValidationError::MissingField("name")),
        };
        let display_name = match display_name {
            Some(v) => v,
            None => return Err(ValidationError::MissingField("display_name")),
        };
        let created_at = match parse_timestamp(created_at) {
            Ok(t) => t,
            Err(e) => return Err(e),
        };
        let updated_at = match parse_timestamp(updated_at) {
            Ok(t) => t,
            Err(e) => return Err(e),
        };
        Ok(Project {
            project_id,
            name,
            pistachio_id,
            display_name,
            state,
            resources,
            location_id: None,
            created_at,
            updated_at,
        })
    }
}

/// A second factor that a tenant can require, as the wire model names it.
#[derive(Debug, Clone, Copy, PartialEq, Eq, Structural)]
pub enum MfaMethod {
    Phone,
    Totp,
}

/// The name of a second factor.
pub open spec fn mfa_method_name(m: MfaMethod) -> Seq<char> {
    match m {
        MfaMethod::Phone => "phone"@,
        MfaMethod::Totp => "totp"@,
    }
}

/// The second factor of a name, if the name is known.
pub open spec fn mfa_method_named(name: Seq<char>) -> Option<MfaMethod> {
    if name == "phone"@ {
        Some(MfaMethod::Phone)
    } else if name == "totp"@ {
        Some(MfaMethod::Totp)
    } else {
        None
    }
}

/// The known second factors among names, in order; unknown names are dropped.
pub open spec fn known_mfa_methods(names: Seq<Seq<char>>) -> Seq<MfaMethod>
    decreases names.len(),
{
    if names.len() == 0 {
        Seq::empty()
    } else {
        let rest = known_mfa_methods(names.drop_last());
        match mfa_method_named(names.last()) {
            Some(m) => rest.push(m),
            None => rest,
        }
    }
}

/// The names of second factors, in order.
pub open spec fn mfa_method_names(methods: Seq<MfaMethod>) -> Seq<Seq<char>> {
    methods.map_values(|m: MfaMethod| mfa_method_name(m))
}

fn mfa_method_from_name(name: &str) -> (m: Option<MfaMethod>)
    ensures
        m == mfa_method_named(name@),
{
    proof {
        reveal_strlit("phone");
        reveal_strlit("totp");
    }
    if str_eq(name, "phone") {
        Some(MfaMethod::Phone)
    } else if str_eq(name, "totp") {
        Some(MfaMethod::Totp)
    } else {
        None
    }
}

/// Converts second factor names to the wire enum, dropping the names it does not know.
pub fn mfa_methods_from_names(names: Vec<String>) -> (methods: Vec<MfaMethod>)
    ensures
        methods@ == known_mfa_methods(views(names@)),
{
    let mut methods: Vec<MfaMethod> = Vec::new();
    let mut i: usize = 0;
    while i < names.len()
        invariant
            i <= names@.len(),
            methods@ == known_mfa_methods(views(names@).take(i as int)),
        decreases names@.len() - i,
    {
        let ghost prefix = views(names@).take(i as int + 1);
        assert(prefix.drop_last() =~= views(names@).take(i as int));
        assert(prefix.last() == names@[i as int]@);
        match mfa_method_from_name(names[i].as_str()) {
            Some(m) => methods.push(m),
            None => {},
        }
        i = i + 1;
    }
    assert(views(names@).take(names@.len() as int) =~= views(names@));
    methods
}

fn mfa_method_string(m: MfaMethod) -> (s: String)
    ensures
        s@ == mfa_method_name(m),
{
    match m {
        MfaMethod::Phone => "phone".to_string(),
        MfaMethod::Totp => "totp".to_string(),
    }
}

/// Converts second factors of the wire enum to their names, in order.
pub fn mfa_method_strings(methods: Vec<MfaMethod>) -> (names: Vec<String>)
    ensures
        views(names@) == mfa_method_names(methods@),
{
    let mut names: Vec<String> = Vec::new();
    let mut i: usize = 0;
    while i < methods.len()
        invariant
            i <= methods@.len(),
            names@.len() == i,
            forall|k: int| 0 <= k < i ==> #[trigger] names@[k]@ == mfa_method_name(methods@[k]),
        decreases methods@.len() - i,
    {
        names.push(mfa_method_string(methods[i]));
        i = i + 1;
    }
    assert(views(names@) =~= mfa_method_names(methods@));
    names
}

/// A tenant of a project.
#[derive(Debug, Clone, PartialEq, Eq)]
pub struct Tenant {
    pub project_id: String,
    pub tenant_id: String,
    pub name: String,
    pub pistachio_id: String,
    pub display_name: String,
    pub allow_pdpka_signup: bool,
    pub disable_auth: bool,
    pub mfa_config: Vec<String>,
    pub created_at: UtcInstant,
    pub updated_at: UtcInstant,
}

/// A tenant as the wire model holds it.
#[derive(Debug, Clone, PartialEq, Eq)]
pub struct TenantJson {
    pub name: Option<String>,
    pub tenant_id: Option<String>,
    pub pistachio_id: Option<String>,
    pub display_name: Option<String>,
    pub allow_pdpka_signup: Option<bool>,
    pub disable_auth: Option<bool>,
    pub mfa_config: Option<Vec<MfaMethod>>,
    pub created_at: Option<String>,
    pub updated_at: Option<String>,
}

/// The mathematical value of a tenant.
pub struct TenantView {
    pub project_id: Seq<char>,
    pub tenant_id: Seq<char>,
    pub name: Seq<char>,
    pub pistachio_id: Seq<char>,
    pub display_name: Seq<char>,
    pub allow_pdpka_signup: bool,
    pub disable_auth: bool,
    pub mfa_config: Seq<Seq<char>>,
    pub created_at: UtcInstant,
    pub updated_at: UtcInstant,
}

impl View for Tenant {
    type V = TenantView;

    open spec fn view(&self) -> TenantView {
        TenantView {
            project_id: self.project_id@,
            tenant_id: self.tenant_id@,
            name: self.name@,
            pistachio_id: self.pistachio_id@,
            display_name: self.display_name@,
            allow_pdpka_signup: self.allow_pdpka_signup,
            disable_auth: self.disable_auth,
            mfa_config: views(self.mfa_config@),
            created_at: self.created_at,
            updated_at: self.updated_at,
        }
    }
}

/// The project of a tenant resource name "projects/{project}/tenants/{tenant}",
/// when the name has that shape with both identifiers present.
pub open spec fn tenant_name_project(name: Seq<char>) -> Option<Seq<char>> {
    let parts = split_on(name, '/');
    if parts.len() == 4 && parts[0] == "projects"@ && parts[2] == "tenants"@ && parts[1].len() > 0
        && parts[3].len() > 0 {
        Some(parts[1])
    } else {
        None
    }
}

/// Reads the project identifier from a tenant resource name.
pub fn project_of_tenant_name(name: &str) -> (r: Option<String>)
    ensures
        opt_view(r) == tenant_name_project(name@),
{
    let mut parts = split_on_char(name, '/');
    let ghost pv = views(parts@);
    if parts.len() == 4 && str_eq(parts[0].as_str(), "projects") && str_eq(parts[2].as_str(), "tenants")
        && !parts[1].as_str().is_empty() && !parts[3].as_str().is_empty() {
        let project = parts.remove(1);
        assert(project@ == pv[1]);
        Some(project)
    } else {
        None
    }
}

/// The second factor names of a wire tenant; an absent list is empty.
pub open spec fn tenant_mfa_names(m: Option<Vec<MfaMethod>>) -> Seq<Seq<char>> {
    match m {
        Some(v) => mfa_method_names(v@),
        None => Seq::empty(),
    }
}

/// What reading a tenant gives. In order: the name must be present and have the
/// shape of a tenant resource name (its project is the tenant's project); then
/// tenant_id, pistachio_id and display_name must be present; both timestamps must
/// parse; and the security settings allow_pdpka_signup and disable_auth must be
/// given explicitly. The first failure is the error.
pub open spec fn tenant_of_json(j: TenantJson) -> Result<TenantView, ValidationError> {
    if j.name is None {
        Err(ValidationError::MissingField("name"))
    } else if tenant_name_project(j.name->0@) is None {
        Err(ValidationError::InvalidValue("name"))
    } else if j.tenant_id is None {
        Err(ValidationError::MissingField("tenant_id"))
    } else if j.pistachio_id is None {
        Err(ValidationError::MissingField("pistachio_id"))
    } else if j.display_name is None {
        Err(ValidationError::MissingField("display_name"))
    } else {
        match parse_timestamp_result(opt_view(j.created_at)) {
            Err(e) => Err(e),
            Ok(created_at) => match parse_timestamp_result(opt_view(j.updated_at)) {
                Err(e) => Err(e),
                Ok(updated_at) => if j.allow_pdpka_signup is None {
                    Err(ValidationError::MissingField("allow_pdpka_signup"))
                } else if j.disable_auth is None {
                    Err(ValidationError::MissingField("disable_auth"))
                } else {
                    Ok(TenantView {
                        project_id: tenant_name_project(j.name->0@)->0,
                        tenant_id: j.tenant_id->0@,
                        name: j.name->0@,
                        pistachio_id: j.pistachio_id->0@,
                        display_name: j.display_name->0@,
                        allow_pdpka_signup: j.allow_pdpka_signup->0,
                        disable_auth: j.disable_auth->0,
                        mfa_config: tenant_mfa_names(j.mfa_config),
                        created_at,
                        updated_at,
                    })
                },
            },
        }
    }
}

impl FromJson for Tenant {
    type Json = TenantJson;

    open spec fn json_result(json: TenantJson) -> Result<TenantView, ValidationError> {
        tenant_of_json(json)
    }

    /// Reads a tenant from its wire model. The name is checked for the shape of
    /// a tenant resource name only; identifiers and display name are kept as the
    /// text the server sent, their syntax not checked here.
    fn from_json(json: TenantJson) -> (r: Result<Tenant, ValidationError>) {
        let TenantJson {
            name,
            tenant_id,
            pistachio_id,
            display_name,
            allow_pdpka_signup,
            disable_auth,
            mfa_config,
            created_at,
            updated_at,
        } = json;
        let name = match name {
            Some(v) => v,
            None => return Err(ValidationError::MissingField("name")),
        };
        let project_id = match project_of_tenant_name(name.as_str()) {
            Some(p) => p,
            None => return Err(ValidationError::InvalidValue("name")),
        };
        let tenant_id = match tenant_id {
            Some(v) => v,
            None => return Err(ValidationError::MissingField("tenant_id")),
        };
        let pistachio_id = match pistachio_id {
            Some(v) => v,
            None => return Err(ValidationError::MissingField("pistachio_id")),
        };
        let display_name = match display_name {
            Some(v) => v,
            None => return Err(ValidationError::MissingField("display_name")),
        };
        let created_at = match parse_timestamp(created_at) {
            Ok(t) => t,
            Err(e) => return Err(e),
        };
        let updated_at = match parse_timestamp(updated_at) {
            Ok(t) => t,
            Err(e) => return Err(e),
        };
        let mfa_config = match mfa_config {
            Some(v) => mfa_method_strings(v),
            None => Vec::new(),
        };
        assert(views(mfa_config@) == tenant_mfa_names(json.mfa_config));
        let allow_pdpka_signup = match allow_pdpka_signup {
            Some(v) => v,
            None => return Err(ValidationError::MissingField("allow_pdpka_signup")),
        };
        let disable_auth = match disable_auth {
            Some(v) => v,
            None => return Err(ValidationError::MissingField("disable_auth")),
        };
        Ok(Tenant {
            project_id,
            tenant_id,
            name,
            pistachio_id,
            display_name,
            allow_pdpka_signup,
            disable_auth,
            mfa_config,
            created_at,
            updated_at,
        })
    }
}

/// A request to create a tenant.
#[derive(Debug, Clone, PartialEq, Eq)]
pub struct CreateTenantRequest {
    pub project_id: String,
    pub tenant_id: Option<String>,
    pub display_name: Option<String>,
    pub allow_pdpka_signup: Option<bool>,
    pub disable_auth: Option<bool>,
    pub mfa_config: Vec<String>,
}

/// The body of a create-tenant request. A display name that is given is sent
/// explicitly (`Some(Some(..))`); one that is not is left out for the server to choose.
#[derive(Debug, Clone, PartialEq, Eq)]
pub struct CreateTenantBody {
    pub tenant_id: Option<String>,
    pub display_name: Option<Option<String>>,
    pub allow_pdpka_signup: Option<bool>,
    pub disable_auth: Option<bool>,
    pub mfa_config: Option<Vec<MfaMethod>>,
}

/// Builds the body of a create-tenant request. No second factor names leaves
/// the member out; otherwise the known names are sent, unknown ones dropped.
pub fn build_create_tenant_body(req: CreateTenantRequest) -> (body: CreateTenantBody)
    ensures
        opt_view(body.tenant_id) == opt_view(req.tenant_id),
        body.display_name matches Some(d) ==> d is Some,
        (match body.display_name {
            Some(d) => opt_view(d),
            None => None,
        }) == opt_view(req.display_name),
        body.allow_pdpka_signup == req.allow_pdpka_signup,
        body.disable_auth == req.disable_auth,
        (match body.mfa_config {
            Some(v) => req.mfa_config@.len() > 0 && v@ == known_mfa_methods(views(req.mfa_config@)),
            None => req.mfa_config@.len() == 0,
        }),
{
    let CreateTenantRequest { project_id: _, tenant_id, display_name, allow_pdpka_signup, disable_auth, mfa_config } = req;
    let mfa_config = if mfa_config.len() == 0 {
        None
    } else {
        Some(mfa_methods_from_names(mfa_config))
    };
    let display_name = match display_name {
        Some(d) => Some(Some(d)),
        None => None,
    };
    CreateTenantBody { tenant_id, display_name, allow_pdpka_signup, disable_auth, mfa_config }
}

/// A request to update a tenant; absent members are left unchanged.
#[derive(Debug, Clone, PartialEq, Eq)]
pub struct UpdateTenantRequest {
    pub project_id: String,
    pub tenant_id: String,
    pub display_name: Option<String>,
    pub allow_pdpka_signup: Option<bool>,
    pub disable_auth: Option<bool>,
    pub mfa_config: Option<Vec<String>>,
}

/// The body of an update-tenant request. The second factors are a nullable
/// list: absent leaves them unchanged, an explicit list (even empty) replaces them.
#[derive(Debug, Clone, PartialEq, Eq)]
pub struct UpdateTenantBody {
    pub display_name: Option<String>,
    pub allow_pdpka_signup: Option<bool>,
    pub disable_auth: Option<bool>,
    pub mfa_config: Option<Option<Vec<MfaMethod>>>,
}

/// Builds the body of an update-tenant request; given second factor names are
/// sent explicitly, the known ones only.
pub fn build_update_tenant_body(req: UpdateTenantRequest) -> (body: UpdateTenantBody)
    ensures
        opt_view(body.display_name) == opt_view(req.display_name),
        body.allow_pdpka_signup == req.allow_pdpka_signup,
        body.disable_auth == req.disable_auth,
        (match req.mfa_config {
            Some(names) => body.mfa_config matches Some(Some(v)) && v@ == known_mfa_methods(views(names@)),
            None => body.mfa_config is None,
        }),
{
    let UpdateTenantRequest { project_id: _, tenant_id: _, display_name, allow_pdpka_signup, disable_auth, mfa_config } = req;
    let mfa_config = match mfa_config {
        Some(names) => Some(Some(mfa_methods_from_names(names))),
        None => None,
    };
    UpdateTenantBody { display_name, allow_pdpka_signup, disable_auth, mfa_config }
}

/// The update of the second factors of a tenant in the protobuf request.
#[derive(Debug, Clone, PartialEq, Eq)]
pub struct ProtoMfaConfigUpdate {
    pub providers: Vec<String>,
}

/// The protobuf request that updates a tenant.
#[derive(Debug, Clone, PartialEq, Eq)]
pub struct ProtoUpdateTenantRequest {
    pub project_id: String,
    pub tenant_id: String,
    pub display_name: Option<String>,
    pub allow_pdpka_signup: Option<bool>,
    pub disable_auth: Option<bool>,
    pub mfa_config: Option<ProtoMfaConfigUpdate>,
}

/// Converts an update-tenant request to its protobuf message; the second factor
/// names are passed on as they are.
pub fn update_tenant_request_into_proto(req: UpdateTenantRequest) -> (p: ProtoUpdateTenantRequest)
    ensures
        p.project_id@ == req.project_id@,
        p.tenant_id@ == req.tenant_id@,
        opt_view(p.display_name) == opt_view(req.display_name),
        p.allow_pdpka_signup == req.allow_pdpka_signup,
        p.disable_auth == req.disable_auth,
        (match req.mfa_config {
            Some(names) => p.mfa_config matches Some(u) && views(u.providers@) == views(names@),
            None => p.mfa_config is None,
        }),
{
    let UpdateTenantRequest { project_id, tenant_id, display_name, allow_pdpka_signup, disable_auth, mfa_config } = req;
    let mfa_config = match mfa_config {
        Some(providers) => Some(ProtoMfaConfigUpdate { providers }),
        None => None,
    };
    ProtoUpdateTenantRequest { project_id, tenant_id, display_name, allow_pdpka_signup, disable_auth, mfa_config }
}

/// The configuration that the admin SDK needs for a project.
#[derive(Debug, Clone, PartialEq, Eq)]
pub struct AdminSdkConfig {
    pub project_id: String,
    pub storage_bucket: String,
    pub location_id: String,
}

/// Reads the admin SDK configuration (the project identifier is kept as the
/// text the server sent, its syntax not checked here): project_id, storage_bucket and location_id
/// must be present, and the first missing one is the error.
pub fn admin_sdk_config_from_json(
    project_id: Option<String>,
    storage_bucket: Option<String>,
    location_id: Option<String>,
) -> (r: Result<AdminSdkConfig, ValidationError>)
    ensures
        match r {
            Ok(c) => project_id == Some(c.project_id) && storage_bucket == Some(c.storage_bucket)
                && location_id == Some(c.location_id),
            Err(e) => e == (if project_id is None {
                ValidationError::MissingField("project_id")
            } else if storage_bucket is None {
                ValidationError::MissingField("storage_bucket")
            } else {
                ValidationError::MissingField("location_id")
            }) && (project_id is None || storage_bucket is None || location_id is None),
        },
{
    let project_id = match project_id {
        Some(v) => v,
        None => return Err(ValidationError::MissingField("project_id")),
    };
    let storage_bucket = match storage_bucket {
        Some(v) => v,
        None => return Err(ValidationError::MissingField("storage_bucket")),
    };
    let location_id = match location_id {
        Some(v) => v,
        None => return Err(ValidationError::MissingField("location_id")),
    };
    Ok(AdminSdkConfig { project_id, storage_bucket, location_id })
}

} // verus!

//! Users: reading them from JSON and protobuf responses, the import of user
//! records, and the update of a tenant user.

use vstd::prelude::*;
use crate::convert::{
    all_from_json, all_json_results, flatten, flatten_option, items_or_empty, list_view, result_view, FromJson,
};
use crate::json::{json_string, json_string_value, names_distinct};
use crate::text::{string_or_empty, text_or_empty};
use crate::problem::{opt_view, ValidationError};
use crate::timestamp::{
    optional_proto_result, optional_timestamp_to_datetime, parse_timestamp_ok, rfc3339_instant,
    ProtoTimestamp, UtcInstant,
};

verus! {

/// Custom claims of a user: each name with its JSON value, in the order given.
pub type CustomClaims = Vec<(String, serde_json::Value)>;

/// The mathematical value of custom claims.
pub open spec fn claims_view(c: CustomClaims) -> Seq<(Seq<char>, serde_json::Value)> {
    c@.map_values(|p: (String, serde_json::Value)| (p.0@, p.1))
}

/// The mathematical value of optional custom claims.
pub open spec fn opt_claims_view(c: Option<CustomClaims>) -> Option<Seq<(Seq<char>, serde_json::Value)>> {
    match c {
        Some(v) => Some(claims_view(v)),
        None => None,
    }
}

/// A user of a project or of a tenant.
#[derive(Debug)]
pub struct User {
    pub name: String,
    pub pistachio_id: String,
    pub tenant_id: Option<String>,
    pub email: Option<String>,
    pub email_verified: bool,
    pub phone_number: Option<String>,
    pub display_name: Option<String>,
    pub photo_url: Option<String>,
    pub disabled: bool,
    pub custom_claims: Option<CustomClaims>,
    pub created_at: Option<UtcInstant>,
    pub last_sign_in_at: Option<UtcInstant>,
    pub last_refresh_at: Option<UtcInstant>,
    pub updated_at: Option<UtcInstant>,
}

/// The mathematical value of a user.
pub struct UserView {
    pub name: Seq<char>,
    pub pistachio_id: Seq<char>,
    pub tenant_id: Option<Seq<char>>,
    pub email: Option<Seq<char>>,
    pub email_verified: bool,
    pub phone_number: Option<Seq<char>>,
    pub display_name: Option<Seq<char>>,
    pub photo_url: Option<Seq<char>>,
    pub disabled: bool,
    pub custom_claims: Option<Seq<(Seq<char>, serde_json::Value)>>,
    pub created_at: Option<UtcInstant>,
    pub last_sign_in_at: Option<UtcInstant>,
    pub last_refresh_at: Option<UtcInstant>,
    pub updated_at: Option<UtcInstant>,
}

impl View for User {
    type V = UserView;

    open spec fn view(&self) -> UserView {
        UserView {
            name: self.name@,
            pistachio_id: self.pistachio_id@,
            tenant_id: opt_view(self.tenant_id),
            email: opt_view(self.email),
            email_verified: self.email_verified,
            phone_number: opt_view(self.phone_number),
            display_name: opt_view(self.display_name),
            photo_url: opt_view(self.photo_url),
            disabled: self.disabled,
            custom_claims: opt_claims_view(self.custom_claims),
            created_at: self.created_at,
            last_sign_in_at: self.last_sign_in_at,
            last_refresh_at: self.last_refresh_at,
            updated_at: self.updated_at,
        }
    }
}

/// A user as the JSON wire models hold it. Nullable members are double options:
/// absent, `null`, or a value.
#[derive(Debug)]
pub struct UserJson {
    pub name: String,
    pub pistachio_id: String,
    pub tenant_id: Option<Option<String>>,
    pub email: Option<Option<String>>,
    pub email_verified: bool,
    pub phone_number: Option<Option<String>>,
    pub display_name: Option<Option<String>>,
    pub photo_url: Option<Option<String>>,
    pub disabled: bool,
    pub custom_claims: Option<Option<CustomClaims>>,
    pub created_at: Option<String>,
    pub last_sign_in_at: Option<Option<String>>,
    pub last_refresh_at: Option<Option<String>>,
    pub updated_at: Option<String>,
}

/// A nullable text member read as optional text: absent, `null` and empty text
/// all mean no value.
pub open spec fn nonempty_text(s: Option<Option<String>>) -> Option<Seq<char>> {
    match s {
        Some(Some(t)) => if t@.len() == 0 {
            None
        } else {
            Some(t@)
        },
        _ => None,
    }
}

fn nonempty_string(s: Option<Option<String>>) -> (r: Option<String>)
    ensures
        opt_view(r) == nonempty_text(s),
{
    match s {
        Some(Some(t)) => if t.as_str().is_empty() {
            None
        } else {
            Some(t)
        },
        _ => None,
    }
}

/// The instant of optional RFC 3339 text, kept only when it parses.
pub open spec fn parsed_instant(s: Option<String>) -> Option<UtcInstant> {
    match s {
        Some(t) => rfc3339_instant(t@),
        None => None,
    }
}

/// What reading a user gives: empty or absent optional text is no value,
/// timestamps that do not parse are dropped, everything else is kept.
pub open spec fn user_of_json(j: UserJson) -> UserView {
    UserView {
        name: j.name@,
        pistachio_id: j.pistachio_id@,
        tenant_id: nonempty_text(j.tenant_id),
        email: nonempty_text(j.email),
        email_verified: j.email_verified,
        phone_number: nonempty_text(j.phone_number),
        display_name: nonempty_text(j.display_name),
        photo_url: nonempty_text(j.photo_url),
        disabled: j.disabled,
        custom_claims: opt_claims_view(flatten(j.custom_claims)),
        created_at: parsed_instant(j.created_at),
        last_sign_in_at: parsed_instant(flatten(j.last_sign_in_at)),
        last_refresh_at: parsed_instant(flatten(j.last_refresh_at)),
        updated_at: parsed_instant(j.updated_at),
    }
}

impl FromJson for User {
    type Json = UserJson;

    open spec fn json_result(json: UserJson) -> Result<UserView, ValidationError> {
        Ok(user_of_json(json))
    }

    /// Reads a user from its JSON wire model. The resource name, identifiers,
    /// email, phone number, display name and photo URL are kept as the text
    /// the server sent: their syntax is not checked here.
    fn from_json(json: UserJson) -> (r: Result<User, ValidationError>) {
        let UserJson {
            name,
            pistachio_id,
            tenant_id,
            email,
            email_verified,
            phone_number,
            display_name,
            photo_url,
            disabled,
            custom_claims,
            created_at,
            last_sign_in_at,
            last_refresh_at,
            updated_at,
        } = json;
        Ok(User {
            name,
            pistachio_id,
            tenant_id: nonempty_string(tenant_id),
            email: nonempty_string(email),
            email_verified,
            phone_number: nonempty_string(phone_number),
            display_name: nonempty_string(display_name),
            photo_url: nonempty_string(photo_url),
            disabled,
            custom_claims: flatten_option(custom_claims),
            created_at: parse_timestamp_ok(created_at),
            last_sign_in_at: parse_timestamp_ok(flatten_option(last_sign_in_at)),
            last_refresh_at: parse_timestamp_ok(flatten_option(last_refresh_at)),
            updated_at: parse_timestamp_ok(updated_at),
        })
    }
}

/// A user as the protobuf message holds it; empty text means no value. Its
/// custom claims are already read from the protobuf struct.
#[derive(Debug)]
pub struct ProtoUser {
    pub name: String,
    pub pistachio_id: String,
    pub tenant_id: String,
    pub email: String,
    pub email_verified: bool,
    pub phone_number: String,
    pub display_name: String,
    pub photo_url: String,
    pub disabled: bool,
    pub custom_claims: Option<CustomClaims>,
    pub created_at: Option<ProtoTimestamp>,
    pub last_sign_in_at: Option<ProtoTimestamp>,
    pub last_refresh_at: Option<ProtoTimestamp>,
    pub updated_at: Option<ProtoTimestamp>,
}

/// Protobuf text read as optional text: empty text is no value.
pub open spec fn text_if_nonempty(s: Seq<char>) -> Option<Seq<char>> {
    if s.len() == 0 {
        None
    } else {
        Some(s)
    }
}

fn string_if_nonempty(s: String) -> (r: Option<String>)
    ensures
        opt_view(r) == text_if_nonempty(s@),
{
    if s.as_str().is_empty() {
        None
    } else {
        Some(s)
    }
}

/// What reading a protobuf user gives: empty text is no value; the timestamps
/// created_at, last_sign_in_at, last_refresh_at and updated_at are converted in
/// that order and the first invalid one is the error.
pub open spec fn user_of_proto(p: ProtoUser) -> Result<UserView, ValidationError> {
    match optional_proto_result(p.created_at) {
        Err(e) => Err(e),
        Ok(created_at) => match optional_proto_result(p.last_sign_in_at) {
            Err(e) => Err(e),
            Ok(last_sign_in_at) => match optional_proto_result(p.last_refresh_at) {
                Err(e) => Err(e),
                Ok(last_refresh_at) => match optional_proto_result(p.updated_at) {
                    Err(e) => Err(e),
                    Ok(updated_at) => Ok(UserView {
                        name: p.name@,
                        pistachio_id: p.pistachio_id@,
                        tenant_id: text_if_nonempty(p.tenant_id@),
                        email: text_if_nonempty(p.email@),
                        email_verified: p.email_verified,
                        phone_number: text_if_nonempty(p.phone_number@),
                        display_name: text_if_nonempty(p.display_name@),
                        photo_url: text_if_nonempty(p.photo_url@),
                        disabled: p.disabled,
                        custom_claims: opt_claims_view(p.custom_claims),
                        created_at,
                        last_sign_in_at,
                        last_refresh_at,
                        updated_at,
                    }),
                },
            },
        },
    }
}

/// Reads a user from its protobuf message. The resource name, identifiers,
/// email, phone number, display name and photo URL are kept as the text the
/// server sent: their syntax is not checked here.
pub fn user_from_proto(proto: ProtoUser) -> (r: Result<User, ValidationError>)
    ensures
        result_view(r) == user_of_proto(proto),
{
    let ProtoUser {
        name,
        pistachio_id,
        tenant_id,
        email,
        email_verified,
        phone_number,
        display_name,
        photo_url,
        disabled,
        custom_claims,
        created_at,
        last_sign_in_at,
        last_refresh_at,
        updated_at,
    } = proto;
    let created_at = match optional_timestamp_to_datetime(created_at) {
        Ok(t) => t,
        Err(e) => return Err(e),
    };
    let last_sign_in_at = match optional_timestamp_to_datetime(last_sign_in_at) {
        Ok(t) => t,
        Err(e) => return Err(e),
    };
    let last_refresh_at = match optional_timestamp_to_datetime(last_refresh_at) {
        Ok(t) => t,
        Err(e) => return Err(e),
    };
    let updated_at = match optional_timestamp_to_datetime(updated_at) {
        Ok(t) => t,
        Err(e) => return Err(e),
    };
    Ok(User {
        name,
        pistachio_id,
        tenant_id: string_if_nonempty(tenant_id),
        email: string_if_nonempty(email),
        email_verified,
        phone_number: string_if_nonempty(phone_number),
        display_name: string_if_nonempty(display_name),
        photo_url: string_if_nonempty(photo_url),
        disabled,
        custom_claims,
        created_at,
        last_sign_in_at,
        last_refresh_at,
        updated_at,
    })
}

/// Reads the response to a tenant user update: the user must be present.
pub fn update_tenant_user_response_from_proto(user: Option<ProtoUser>) -> (r: Result<User, ValidationError>)
    ensures
        result_view(r) == (match user {
            Some(p) => user_of_proto(p),
            None => Err(ValidationError::MissingField("user")),
        }),
{
    match user {
        Some(p) => user_from_proto(p),
        None => Err(ValidationError::MissingField("user")),
    }
}

/// A request to update a tenant user; absent members are left unchanged, and
/// the custom claims, when given, are text values.
#[derive(Debug, Clone, PartialEq, Eq)]
pub struct UpdateTenantUserRequest {
    pub project_id: String,
    pub tenant_id: String,
    pub pistachio_id: String,
    pub email: Option<String>,
    pub email_verified: Option<bool>,
    pub phone_number: Option<String>,
    pub display_name: Option<String>,
    pub photo_url: Option<String>,
    pub disabled: Option<bool>,
    pub custom_claims: Option<Vec<(String, String)>>,
}

/// The protobuf request that updates a tenant user; its custom claims are a
/// struct whose every value is a string.
#[derive(Debug, Clone, PartialEq, Eq)]
pub struct ProtoUpdateTenantUserRequest {
    pub project_id: String,
    pub tenant_id: String,
    pub pistachio_id: String,
    pub email: Option<String>,
    pub email_verified: Option<bool>,
    pub phone_number: Option<String>,
    pub display_name: Option<String>,
    pub photo_url: Option<String>,
    pub disabled: Option<bool>,
    pub string_claims: Option<Vec<(String, String)>>,
}

/// The mathematical value of text claims.
pub open spec fn text_claims_view(c: Option<Vec<(String, String)>>) -> Option<Seq<(Seq<char>, Seq<char>)>> {
    match c {
        Some(v) => Some(v@.map_values(|p: (String, String)| (p.0@, p.1@))),
        None => None,
    }
}

/// Converts a tenant user update to its protobuf message, member for member.
pub fn update_tenant_user_request_into_proto(req: UpdateTenantUserRequest) -> (p: ProtoUpdateTenantUserRequest)
    ensures
        p.project_id@ == req.project_id@,
        p.tenant_id@ == req.tenant_id@,
        p.pistachio_id@ == req.pistachio_id@,
        opt_view(p.email) == opt_view(req.email),
        p.email_verified == req.email_verified,
        opt_view(p.phone_number) == opt_view(req.phone_number),
        opt_view(p.display_name) == opt_view(req.display_name),
        opt_view(p.photo_url) == opt_view(req.photo_url),
        p.disabled == req.disabled,
        text_claims_view(p.string_claims) == text_claims_view(req.custom_claims),
{
    let UpdateTenantUserRequest {
        project_id,
        tenant_id,
        pistachio_id,
        email,
        email_verified,
        phone_number,
        display_name,
        photo_url,
        disabled,
        custom_claims,
    } = req;
    ProtoUpdateTenantUserRequest {
        project_id,
        tenant_id,
        pistachio_id,
        email,
        email_verified,
        phone_number,
        display_name,
        photo_url,
        disabled,
        string_claims: custom_claims,
    }
}

/// A password hashing algorithm of imported users.
#[derive(Debug, Clone, Copy, PartialEq, Eq, Structural)]
pub enum HashAlgorithm {
    Scrypt,
    Bcrypt,
    Argon2,
    Pbkdf2Sha256,
}

/// The hashing algorithm of the JSON import request.
#[derive(Debug, Clone, Copy, PartialEq, Eq, Structural)]
pub enum WireHashAlgorithm {
    Scrypt,
    Bcrypt,
    Argon2,
    Pbkdf2Sha256,
}

/// The hashing algorithm of the protobuf import request.
#[derive(Debug, Clone, Copy, PartialEq, Eq, Structural)]
pub enum ProtoHashAlgorithm {
    Unspecified,
    Scrypt,
    Bcrypt,
    Argon2,
    Pbkdf2Sha256,
}

/// The JSON algorithm of the same name.
pub open spec fn wire_algorithm(a: HashAlgorithm) -> WireHashAlgorithm {
    match a {
        HashAlgorithm::Scrypt => WireHashAlgorithm::Scrypt,
        HashAlgorithm::Bcrypt => WireHashAlgorithm::Bcrypt,
        HashAlgorithm::Argon2 => WireHashAlgorithm::Argon2,
        HashAlgorithm::Pbkdf2Sha256 => WireHashAlgorithm::Pbkdf2Sha256,
    }
}

/// The protobuf algorithm of the same name.
pub open spec fn proto_algorithm(a: HashAlgorithm) -> ProtoHashAlgorithm {
    match a {
        HashAlgorithm::Scrypt => ProtoHashAlgorithm::Scrypt,
        HashAlgorithm::Bcrypt => ProtoHashAlgorithm::Bcrypt,
        HashAlgorithm::Argon2 => ProtoHashAlgorithm::Argon2,
        HashAlgorithm::Pbkdf2Sha256 => ProtoHashAlgorithm::Pbkdf2Sha256,
    }
}

/// Converts a hashing algorithm to the JSON enum.
pub fn hash_algorithm_to_openapi(a: HashAlgorithm) -> (w: WireHashAlgorithm)
    ensures
        w == wire_algorithm(a),
{
    match a {
        HashAlgorithm::Scrypt => WireHashAlgorithm::Scrypt,
        HashAlgorithm::Bcrypt => WireHashAlgorithm::Bcrypt,
        HashAlgorithm::Argon2 => WireHashAlgorithm::Argon2,
        HashAlgorithm::Pbkdf2Sha256 => WireHashAlgorithm::Pbkdf2Sha256,
    }
}

/// Converts a hashing algorithm to the protobuf enum; it is never unspecified.
pub fn hash_algorithm_into_proto(a: HashAlgorithm) -> (p: ProtoHashAlgorithm)
    ensures
        p == proto_algorithm(a),
        p != ProtoHashAlgorithm::Unspecified,
{
    match a {
        HashAlgorithm::Scrypt => ProtoHashAlgorithm::Scrypt,
        HashAlgorithm::Bcrypt => ProtoHashAlgorithm::Bcrypt,
        HashAlgorithm::Argon2 => ProtoHashAlgorithm::Argon2,
        HashAlgorithm::Pbkdf2Sha256 => ProtoHashAlgorithm::Pbkdf2Sha256,
    }
}

/// The parameters of the hashing algorithm of imported passwords.
#[derive(Debug, Clone, PartialEq, Eq)]
pub struct HashConfig {
    pub rounds: Option<i32>,
    pub memory_cost: Option<i32>,
    pub parallelization: Option<i32>,
    pub salt_separator: Option<String>,
    pub signer_key: Option<String>,
}

/// The hashing parameters of the JSON import request; each given member is sent explicitly.
#[derive(Debug, Clone, PartialEq, Eq)]
pub struct HashConfigBody {
    pub rounds: Option<Option<i32>>,
    pub memory_cost: Option<Option<i32>>,
    pub parallelization: Option<Option<i32>>,
    pub salt_separator: Option<Option<String>>,
    pub signer_key: Option<Option<String>>,
}

/// A member sent explicitly when given, left out otherwise.
pub open spec fn explicit<T>(o: Option<T>) -> Option<Option<T>> {
    match o {
        Some(t) => Some(Some(t)),
        None => None,
    }
}

/// Optional text sent explicitly when given.
pub open spec fn explicit_text(o: Option<String>) -> Option<Option<Seq<char>>> {
    match o {
        Some(t) => Some(Some(t@)),
        None => None,
    }
}

/// The view of a nullable text member.
pub open spec fn nullable_text(o: Option<Option<String>>) -> Option<Option<Seq<char>>> {
    match o {
        Some(Some(t)) => Some(Some(t@)),
        Some(None) => Some(None),
        None => None,
    }
}

fn explicit_value<T>(o: Option<T>) -> (r: Option<Option<T>>)
    ensures
        r == explicit(o),
{
    match o {
        Some(t) => Some(Some(t)),
        None => None,
    }
}

fn explicit_string(o: Option<String>) -> (r: Option<Option<String>>)
    ensures
        nullable_text(r) == explicit_text(o),
{
    match o {
        Some(t) => Some(Some(t)),
        None => None,
    }
}

/// Converts hashing parameters to the JSON request, member for member.
pub fn hash_config_body(c: HashConfig) -> (b: HashConfigBody)
    ensures
        b.rounds == explicit(c.rounds),
        b.memory_cost == explicit(c.memory_cost),
        b.parallelization == explicit(c.parallelization),
        nullable_text(b.salt_separator) == explicit_text(c.salt_separator),
        nullable_text(b.signer_key) == explicit_text(c.signer_key),
{
    let HashConfig { rounds, memory_cost, parallelization, salt_separator, signer_key } = c;
    HashConfigBody {
        rounds: explicit_value(rounds),
        memory_cost: explicit_value(memory_cost),
        parallelization: explicit_value(parallelization),
        salt_separator: explicit_string(salt_separator),
        signer_key: explicit_string(signer_key),
    }
}

/// A user record to import.
#[derive(Debug)]
pub struct ImportUserRecord {
    pub email: Option<String>,
    pub email_verified: bool,
    pub phone_number: Option<String>,
    pub display_name: Option<String>,
    pub photo_url: Option<String>,
    pub disabled: bool,
    pub custom_claims: Option<CustomClaims>,
    pub password_hash: Option<String>,
    pub password_salt: Option<String>,
}

/// A user record of the JSON import request.
#[derive(Debug)]
pub struct ImportUserRecordBody {
    pub email: Option<Option<String>>,
    pub email_verified: Option<bool>,
    pub phone_number: Option<Option<String>>,
    pub display_name: Option<Option<String>>,
    pub photo_url: Option<Option<String>>,
    pub disabled: Option<bool>,
    pub custom_claims: Option<CustomClaims>,
    pub password_hash: Option<Option<String>>,
    pub password_salt: Option<Option<String>>,
}

/// The mathematical value of a JSON import record.
pub struct ImportUserRecordBodyView {
    pub email: Option<Option<Seq<char>>>,
    pub email_verified: Option<bool>,
    pub phone_number: Option<Option<Seq<char>>>,
    pub display_name: Option<Option<Seq<char>>>,
    pub photo_url: Option<Option<Seq<char>>>,
    pub disabled: Option<bool>,
    pub custom_claims: Option<Seq<(Seq<char>, serde_json::Value)>>,
    pub password_hash: Option<Option<Seq<char>>>,
    pub password_salt: Option<Option<Seq<char>>>,
}

impl View for ImportUserRecordBody {
    type V = ImportUserRecordBodyView;

    open spec fn view(&self) -> ImportUserRecordBodyView {
        ImportUserRecordBodyView {
            email: nullable_text(self.email),
            email_verified: self.email_verified,
            phone_number: nullable_text(self.phone_number),
            display_name: nullable_text(self.display_name),
            photo_url: nullable_text(self.photo_url),
            disabled: self.disabled,
            custom_claims: opt_claims_view(self.custom_claims),
            password_hash: nullable_text(self.password_hash),
            password_salt: nullable_text(self.password_salt),
        }
    }
}

/// The JSON record of a user to import: given text is sent explicitly, the two
/// flags always, and the claims as they are.
pub open spec fn record_body(r: ImportUserRecord) -> ImportUserRecordBodyView {
    ImportUserRecordBodyView {
        email: explicit_text(r.email),
        email_verified: Some(r.email_verified),
        phone_number: explicit_text(r.phone_number),
        display_name: explicit_text(r.display_name),
        photo_url: explicit_text(r.photo_url),
        disabled: Some(r.disabled),
        custom_claims: opt_claims_view(r.custom_claims),
        password_hash: explicit_text(r.password_hash),
        password_salt: explicit_text(r.password_salt),
    }
}

/// Converts a user record to the JSON import request.
pub fn import_record_body(r: ImportUserRecord) -> (b: ImportUserRecordBody)
    ensures
        b@ == record_body(r),
{
    let ImportUserRecord {
        email,
        email_verified,
        phone_number,
        display_name,
        photo_url,
        disabled,
        custom_claims,
        password_hash,
        password_salt,
    } = r;
    ImportUserRecordBody {
        email: explicit_string(email),
        email_verified: Some(email_verified),
        phone_number: explicit_string(phone_number),
        display_name: explicit_string(display_name),
        photo_url: explicit_string(photo_url),
        disabled: Some(disabled),
        custom_claims,
        password_hash: explicit_string(password_hash),
        password_salt: explicit_string(password_salt),
    }
}

/// The body of a JSON user import request.
#[derive(Debug)]
pub struct ImportUsersBody {
    pub users: Vec<ImportUserRecordBody>,
    pub hash_algorithm: Option<WireHashAlgorithm>,
    pub hash_config: Option<HashConfigBody>,
}

/// Builds the body of a user import request from records whose claims are JSON
/// values (a tenant import): every record in order, the algorithm, and the
/// hashing parameters.
pub fn build_import_users_body(
    users: Vec<ImportUserRecord>,
    hash_algorithm: Option<HashAlgorithm>,
    hash_config: Option<HashConfig>,
) -> (body: ImportUsersBody)
    ensures
        list_view(body.users@) == users@.map_values(|r: ImportUserRecord| record_body(r)),
        body.hash_algorithm == (match hash_algorithm {
            Some(a) => Some(wire_algorithm(a)),
            None => None,
        }),
        body.hash_config is Some <==> hash_config is Some,
        body.hash_config matches Some(b) ==> {
            let c = hash_config->0;
            &&& b.rounds == explicit(c.rounds)
            &&& b.memory_cost == explicit(c.memory_cost)
            &&& b.parallelization == explicit(c.parallelization)
            &&& nullable_text(b.salt_separator) == explicit_text(c.salt_separator)
            &&& nullable_text(b.signer_key) == explicit_text(c.signer_key)
        },
{
    let ghost all = users@;
    let mut rest = users;
    let mut out: Vec<ImportUserRecordBody> = Vec::new();
    while rest.len() > 0
        invariant
            out@.len() + rest@.len() == all.len(),
            rest@ == all.skip(out@.len() as int),
            forall|k: int| 0 <= k < out@.len() ==> #[trigger] out@[k]@ == record_body(all[k]),
        decreases rest@.len(),
    {
        let ghost k = out@.len() as int;
        let r = rest.remove(0);
        assert(r == all[k]);
        out.push(import_record_body(r));
        assert(rest@ =~= all.skip(out@.len() as int));
    }
    assert(list_view(out@) =~= all.map_values(|r: ImportUserRecord| record_body(r)));
    let hash_algorithm = match hash_algorithm {
        Some(a) => Some(hash_algorithm_to_openapi(a)),
        None => None,
    };
    let hash_config = match hash_config {
        Some(c) => Some(hash_config_body(c)),
        None => None,
    };
    ImportUsersBody { users: out, hash_algorithm, hash_config }
}

/// A user record of the protobuf import request; absent text is empty.
#[derive(Debug)]
pub struct ProtoImportUserRecord {
    pub email: String,
    pub email_verified: bool,
    pub phone_number: String,
    pub display_name: String,
    pub photo_url: String,
    pub disabled: bool,
    pub custom_claims: Option<CustomClaims>,
    pub password_hash: String,
    pub password_salt: String,
}

/// Converts a user record to its protobuf message: absent text becomes empty.
pub fn import_record_into_proto(r: ImportUserRecord) -> (p: ProtoImportUserRecord)
    ensures
        p.email@ == text_or_empty(r.email),
        p.email_verified == r.email_verified,
        p.phone_number@ == text_or_empty(r.phone_number),
        p.display_name@ == text_or_empty(r.display_name),
        p.photo_url@ == text_or_empty(r.photo_url),
        p.disabled == r.disabled,
        opt_claims_view(p.custom_claims) == opt_claims_view(r.custom_claims),
        p.password_hash@ == text_or_empty(r.password_hash),
        p.password_salt@ == text_or_empty(r.password_salt),
{
    let ImportUserRecord {
        email,
        email_verified,
        phone_number,
        display_name,
        photo_url,
        disabled,
        custom_claims,
        password_hash,
        password_salt,
    } = r;
    ProtoImportUserRecord {
        email: string_or_empty(email),
        email_verified,
        phone_number: string_or_empty(phone_number),
        display_name: string_or_empty(display_name),
        photo_url: string_or_empty(photo_url),
        disabled,
        custom_claims,
        password_hash: string_or_empty(password_hash),
        password_salt: string_or_empty(password_salt),
    }
}

/// A record that could not be imported: its position, why, and the member at fault.
#[derive(Debug, Clone, PartialEq, Eq)]
pub struct ImportUserError {
    pub index: i32,
    pub message: String,
    pub field: Option<String>,
}

/// The mathematical value of an import error.
pub struct ImportUserErrorView {
    pub index: i32,
    pub message: Seq<char>,
    pub field: Option<Seq<char>>,
}

impl View for ImportUserError {
    type V = ImportUserErrorView;

    open spec fn view(&self) -> ImportUserErrorView {
        ImportUserErrorView { index: self.index, message: self.message@, field: opt_view(self.field) }
    }
}

/// An import error as the JSON wire model holds it; the member is nullable.
#[derive(Debug, Clone, PartialEq, Eq)]
pub struct ImportUserErrorJson {
    pub index: i32,
    pub message: String,
    pub field: Option<Option<String>>,
}

impl FromJson for ImportUserError {
    type Json = ImportUserErrorJson;

    open spec fn json_result(json: ImportUserErrorJson) -> Result<ImportUserErrorView, ValidationError> {
        Ok(ImportUserErrorView {
            index: json.index,
            message: json.message@,
            field: opt_view(flatten(json.field)),
        })
    }

    /// Reads an import error; a `null` member is no member.
    fn from_json(json: ImportUserErrorJson) -> (r: Result<ImportUserError, ValidationError>) {
        let ImportUserErrorJson { index, message, field } = json;
        Ok(ImportUserError { index, message, field: flatten_option(field) })
    }
}

/// Reads an import error from its protobuf message; an empty member is no member.
pub fn import_error_from_proto(index: i32, message: String, field: String) -> (e: ImportUserError)
    ensures
        e@ == (ImportUserErrorView { index, message: message@, field: text_if_nonempty(field@) }),
{
    ImportUserError { index, message, field: string_if_nonempty(field) }
}

/// The outcome of a user import.
#[derive(Debug, Clone, PartialEq, Eq)]
pub struct ImportUsersResponse {
    pub success_count: i32,
    pub failure_count: i32,
    pub errors: Vec<ImportUserError>,
}

/// The outcome of a user import as the JSON wire model holds it.
#[derive(Debug, Clone, PartialEq, Eq)]
pub struct ImportUsersJson {
    pub success_count: Option<i32>,
    pub failure_count: Option<i32>,
    pub errors: Option<Vec<ImportUserErrorJson>>,
}

/// A count that may be absent, zero when absent.
pub open spec fn count_or_zero(n: Option<i32>) -> i32 {
    match n {
        Some(c) => c,
        None => 0,
    }
}

/// Reads the outcome of a user import: absent counts are zero, absent errors
/// none, and every error is read in order.
pub fn import_users_response_from_json(json: ImportUsersJson) -> (r: Result<ImportUsersResponse, ValidationError>)
    ensures
        r matches Ok(resp) && {
            &&& resp.success_count == count_or_zero(json.success_count)
            &&& resp.failure_count == count_or_zero(json.failure_count)
            &&& all_json_results::<ImportUserError>(items_or_empty(json.errors))
                == Ok::<Seq<ImportUserErrorView>, ValidationError>(list_view(resp.errors@))
        },
{
    let ImportUsersJson { success_count, failure_count, errors } = json;
    let errors = match errors {
        Some(v) => v,
        None => Vec::new(),
    };
    proof {
        lemma_import_errors_convert(errors@);
    }
    let errors = match all_from_json::<ImportUserError>(errors) {
        Ok(v) => v,
        Err(e) => return Err(e),
    };
    let success_count = match success_count {
        Some(c) => c,
        None => 0,
    };
    let failure_count = match failure_count {
        Some(c) => c,
        None => 0,
    };
    Ok(ImportUsersResponse { success_count, failure_count, errors })
}

/// Every list of import errors converts.
pub proof fn lemma_import_errors_convert(items: Seq<ImportUserErrorJson>)
    ensures
        all_json_results::<ImportUserError>(items) is Ok,
    decreases items.len(),
{
    if items.len() > 0 {
        lemma_import_errors_convert(items.drop_first());
    }
}

/// A request to create a user of a project.
#[derive(Debug)]
pub struct CreateUserRequest {
    pub project_id: String,
    pub email: Option<String>,
    pub email_verified: bool,
    pub phone_number: Option<String>,
    pub display_name: Option<String>,
    pub photo_url: Option<String>,
    pub disabled: bool,
    pub custom_claims: Option<CustomClaims>,
}

/// The body of a create-user request.
#[derive(Debug)]
pub struct CreateUserBody {
    pub email: Option<Option<String>>,
    pub email_verified: Option<bool>,
    pub phone_number: Option<Option<String>>,
    pub display_name: Option<Option<String>>,
    pub photo_url: Option<Option<String>>,
    pub disabled: Option<bool>,
    pub custom_claims: Option<CustomClaims>,
}

/// Builds the body of a create-user request: given text is sent explicitly,
/// the two flags always, and the claims as they are.
pub fn build_create_user_body(req: CreateUserRequest) -> (b: CreateUserBody)
    ensures
        nullable_text(b.email) == explicit_text(req.email),
        b.email_verified == Some(req.email_verified),
        nullable_text(b.phone_number) == explicit_text(req.phone_number),
        nullable_text(b.display_name) == explicit_text(req.display_name),
        nullable_text(b.photo_url) == explicit_text(req.photo_url),
        b.disabled == Some(req.disabled),
        opt_claims_view(b.custom_claims) == opt_claims_view(req.custom_claims),
{
    let CreateUserRequest {
        project_id: _,
        email,
        email_verified,
        phone_number,
        display_name,
        photo_url,
        disabled,
        custom_claims,
    } = req;
    CreateUserBody {
        email: explicit_string(email),
        email_verified: Some(email_verified),
        phone_number: explicit_string(phone_number),
        display_name: explicit_string(display_name),
        photo_url: explicit_string(photo_url),
        disabled: Some(disabled),
        custom_claims,
    }
}

/// A user record of a project import, whose custom claims are text values.
#[derive(Debug, Clone, PartialEq, Eq)]
pub struct ProjectImportUserRecord {
    pub email: Option<String>,
    pub email_verified: bool,
    pub phone_number: Option<String>,
    pub display_name: Option<String>,
    pub photo_url: Option<String>,
    pub disabled: bool,
    pub custom_claims: Option<Vec<(String, String)>>,
    pub password_hash: Option<String>,
    pub password_salt: Option<String>,
}

/// Text claims as JSON claims: each value becomes a JSON string, in order.
pub open spec fn string_claims_json(c: Seq<(String, String)>) -> Seq<(Seq<char>, serde_json::Value)> {
    c.map_values(|p: (String, String)| (p.0@, json_string_value(p.1@)))
}

/// The JSON record of a project import: as for any import record, with each
/// text claim sent as a JSON string.
pub open spec fn project_record_body(r: ProjectImportUserRecord) -> ImportUserRecordBodyView {
    ImportUserRecordBodyView {
        email: explicit_text(r.email),
        email_verified: Some(r.email_verified),
        phone_number: explicit_text(r.phone_number),
        display_name: explicit_text(r.display_name),
        photo_url: explicit_text(r.photo_url),
        disabled: Some(r.disabled),
        custom_claims: match r.custom_claims {
            Some(c) => Some(string_claims_json(c@)),
            None => None,
        },
        password_hash: explicit_text(r.password_hash),
        password_salt: explicit_text(r.password_salt),
    }
}

/// Turns text claims into JSON claims whose values are JSON strings.
pub fn string_claims_to_json(claims: Vec<(String, String)>) -> (out: CustomClaims)
    ensures
        claims_view(out) == string_claims_json(claims@),
        names_distinct(claims@) ==> names_distinct(out@),
{
    let ghost all = claims@;
    let mut rest = claims;
    let mut out: CustomClaims = Vec::new();
    while rest.len() > 0
        invariant
            out@.len() + rest@.len() == all.len(),
            rest@ == all.skip(out@.len() as int),
            forall|k: int| 0 <= k < out@.len() ==> (#[trigger] out@[k]).0@ == all[k].0@
                && out@[k].1 == json_string_value(all[k].1@),
        decreases rest@.len(),
    {
        let ghost k = out@.len() as int;
        let (name, text) = rest.remove(0);
        assert((name, text) == all[k]);
        out.push((name, json_string(text)));
        assert(rest@ =~= all.skip(out@.len() as int));
    }
    assert(claims_view(out) =~= string_claims_json(all));
    assert(names_distinct(all) ==> names_distinct(out@)) by {
        if names_distinct(all) {
            assert forall|i: int, j: int| 0 <= i < j < out@.len() implies #[trigger] out@[i].0@ != #[trigger] out@[j].0@ by {
                assert(all[i].0@ != all[j].0@);
            }
        }
    }
    out
}

/// A project import record with its text claims turned into JSON strings.
fn project_record_to_import(r: ProjectImportUserRecord) -> (out: ImportUserRecord)
    ensures
        record_body(out) == project_record_body(r),
{
    let ProjectImportUserRecord {
        email,
        email_verified,
        phone_number,
        display_name,
        photo_url,
        disabled,
        custom_claims,
        password_hash,
        password_salt,
    } = r;
    let custom_claims = match custom_claims {
        Some(c) => Some(string_claims_to_json(c)),
        None => None,
    };
    ImportUserRecord {
        email,
        email_verified,
        phone_number,
        display_name,
        photo_url,
        disabled,
        custom_claims,
        password_hash,
        password_salt,
    }
}

/// Builds the body of a project's user import request: every record in order,
/// with its text claims sent as JSON strings, the algorithm, and the hashing
/// parameters.
pub fn build_project_import_users_body(
    users: Vec<ProjectImportUserRecord>,
    hash_algorithm: Option<HashAlgorithm>,
    hash_config: Option<HashConfig>,
) -> (body: ImportUsersBody)
    ensures
        list_view(body.users@) == users@.map_values(|r: ProjectImportUserRecord| project_record_body(r)),
        body.hash_algorithm == (match hash_algorithm {
            Some(a) => Some(wire_algorithm(a)),
            None => None,
        }),
        body.hash_config is Some <==> hash_config is Some,
        body.hash_config matches Some(b) ==> {
            let c = hash_config->0;
            &&& b.rounds == explicit(c.rounds)
            &&& b.memory_cost == explicit(c.memory_cost)
            &&& b.parallelization == explicit(c.parallelization)
            &&& nullable_text(b.salt_separator) == explicit_text(c.salt_separator)
            &&& nullable_text(b.signer_key) == explicit_text(c.signer_key)
        },
{
    let ghost all = users@;
    let mut rest = users;
    let mut records: Vec<ImportUserRecord> = Vec::new();
    while rest.len() > 0
        invariant
            records@.len() + rest@.len() == all.len(),
            rest@ == all.skip(records@.len() as int),
            forall|k: int| 0 <= k < records@.len() ==> #[trigger] record_body(records@[k]) == project_record_body(all[k]),
        decreases rest@.len(),
    {
        let ghost k = records@.len() as int;
        let r = rest.remove(0);
        assert(r == all[k]);
        records.push(project_record_to_import(r));
        assert(rest@ =~= all.skip(records@.len() as int));
    }
    let ghost converted = records@;
    let body = build_import_users_body(records, hash_algorithm, hash_config);
    assert(converted.map_values(|r: ImportUserRecord| record_body(r)) =~= all.map_values(
        |r: ProjectImportUserRecord| project_record_body(r),
    ));
    body
}

} // verus!

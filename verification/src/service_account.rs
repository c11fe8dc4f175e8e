//! Service accounts and their keys, and the second factors of users: reading
//! them from responses, and the body of a key generation request.

use vstd::prelude::*;
use crate::convert::{all_from_json, all_json_results, flatten, flatten_option, items_or_empty, list_view, FromJson};
use crate::pagination::{pagination_from_json, PaginationJson, PaginationMeta};
use crate::problem::{opt_view, ValidationError};
use crate::timestamp::{format_rfc3339, parse_timestamp_ok, rfc3339_instant, rfc3339_text, UtcInstant};
use crate::text::{string_or_empty, text_or_empty};
use crate::user::parsed_instant;

verus! {

/// A service account of a project.
#[derive(Debug, Clone, PartialEq, Eq)]
pub struct ServiceAccount {
    pub name: String,
    pub service_account_id: String,
    pub pistachio_id: String,
    pub display_name: String,
    pub description: Option<String>,
    pub email: String,
    pub disabled: bool,
    pub created_at: Option<UtcInstant>,
    pub updated_at: Option<UtcInstant>,
}

/// A service account as the wire model holds it.
#[derive(Debug, Clone, PartialEq, Eq)]
pub struct ServiceAccountJson {
    pub name: String,
    pub service_account_id: String,
    pub pistachio_id: Option<String>,
    pub display_name: String,
    pub description: Option<Option<String>>,
    pub email: Option<String>,
    pub disabled: bool,
    pub created_at: String,
    pub updated_at: String,
}

/// The mathematical value of a service account.
pub struct ServiceAccountView {
    pub name: Seq<char>,
    pub service_account_id: Seq<char>,
    pub pistachio_id: Seq<char>,
    pub display_name: Seq<char>,
    pub description: Option<Seq<char>>,
    pub email: Seq<char>,
    pub disabled: bool,
    pub created_at: Option<UtcInstant>,
    pub updated_at: Option<UtcInstant>,
}

impl View for ServiceAccount {
    type V = ServiceAccountView;

    open spec fn view(&self) -> ServiceAccountView {
        ServiceAccountView {
            name: self.name@,
            service_account_id: self.service_account_id@,
            pistachio_id: self.pistachio_id@,
            display_name: self.display_name@,
            description: opt_view(self.description),
            email: self.email@,
            disabled: self.disabled,
            created_at: self.created_at,
            updated_at: self.updated_at,
        }
    }
}

/// What reading a service account gives: absent identifier and email are empty,
/// a `null` description is none, and timestamps that do not parse are dropped.
pub open spec fn service_account_of_json(j: ServiceAccountJson) -> ServiceAccountView {
    ServiceAccountView {
        name: j.name@,
        service_account_id: j.service_account_id@,
        pistachio_id: text_or_empty(j.pistachio_id),
        display_name: j.display_name@,
        description: opt_view(flatten(j.description)),
        email: text_or_empty(j.email),
        disabled: j.disabled,
        created_at: rfc3339_instant(j.created_at@),
        updated_at: rfc3339_instant(j.updated_at@),
    }
}

impl FromJson for ServiceAccount {
    type Json = ServiceAccountJson;

    open spec fn json_result(json: ServiceAccountJson) -> Result<ServiceAccountView, ValidationError> {
        Ok(service_account_of_json(json))
    }

    /// Reads a service account from its wire model.
    fn from_json(json: ServiceAccountJson) -> (r: Result<ServiceAccount, ValidationError>) {
        let ServiceAccountJson {
            name,
            service_account_id,
            pistachio_id,
            display_name,
            description,
            email,
            disabled,
            created_at,
            updated_at,
        } = json;
        let created_at = parse_timestamp_ok(Some(created_at));
        let updated_at = parse_timestamp_ok(Some(updated_at));
        Ok(ServiceAccount {
            name,
            service_account_id,
            pistachio_id: string_or_empty(pistachio_id),
            display_name,
            description: flatten_option(description),
            email: string_or_empty(email),
            disabled,
            created_at,
            updated_at,
        })
    }
}

/// Reads one page of service accounts. The accounts are read in order, an absent
/// list being empty; the pagination metadata is kept as the server gave it.
pub fn service_accounts_page_from_json(
    accounts: Option<Vec<ServiceAccountJson>>,
    pagination: Option<PaginationJson>,
) -> (r: Result<(Vec<ServiceAccount>, PaginationMeta), ValidationError>)
    ensures
        match r {
            Ok((v, meta)) => {
                &&& all_json_results::<ServiceAccount>(items_or_empty(accounts))
                    == Ok::<Seq<ServiceAccountView>, ValidationError>(list_view(v@))
                &&& opt_view(meta.next_cursor) == (match pagination {
                    Some(q) => opt_view(q.next_cursor),
                    None => None,
                })
                &&& meta.total_count == (match pagination {
                    Some(q) => q.total_count,
                    None => None,
                })
            },
            Err(e) => all_json_results::<ServiceAccount>(items_or_empty(accounts))
                == Err::<Seq<ServiceAccountView>, ValidationError>(e),
        },
{
    let accounts = match accounts {
        Some(v) => v,
        None => Vec::new(),
    };
    let accounts = match all_from_json::<ServiceAccount>(accounts) {
        Ok(v) => v,
        Err(e) => return Err(e),
    };
    Ok((accounts, pagination_from_json(pagination)))
}

/// The algorithm of a service account key.
#[derive(Debug, Clone, Copy, PartialEq, Eq, Structural)]
pub enum KeyAlgorithm {
    Unspecified,
    Rsa2048,
    Rsa4096,
    EcP256,
    EcP384,
    Ed25519,
}

/// The key algorithm of the wire model, which has no unspecified value.
#[derive(Debug, Clone, Copy, PartialEq, Eq, Structural)]
pub enum WireKeyAlgorithm {
    Rsa2048,
    Rsa4096,
    EcP256,
    EcP384,
    Ed25519,
}

/// Who provided a service account key.
#[derive(Debug, Clone, Copy, PartialEq, Eq, Structural)]
pub enum KeyOrigin {
    SystemProvided,
    UserProvided,
}

/// The domain algorithm of a wire algorithm.
pub open spec fn algorithm_of_wire(a: WireKeyAlgorithm) -> KeyAlgorithm {
    match a {
        WireKeyAlgorithm::Rsa2048 => KeyAlgorithm::Rsa2048,
        WireKeyAlgorithm::Rsa4096 => KeyAlgorithm::Rsa4096,
        WireKeyAlgorithm::EcP256 => KeyAlgorithm::EcP256,
        WireKeyAlgorithm::EcP384 => KeyAlgorithm::EcP384,
        WireKeyAlgorithm::Ed25519 => KeyAlgorithm::Ed25519,
    }
}

/// The wire algorithm requested for a domain algorithm; unspecified asks for RSA 2048.
pub open spec fn wire_of_algorithm(a: KeyAlgorithm) -> WireKeyAlgorithm {
    match a {
        KeyAlgorithm::Unspecified => WireKeyAlgorithm::Rsa2048,
        KeyAlgorithm::Rsa2048 => WireKeyAlgorithm::Rsa2048,
        KeyAlgorithm::Rsa4096 => WireKeyAlgorithm::Rsa4096,
        KeyAlgorithm::EcP256 => WireKeyAlgorithm::EcP256,
        KeyAlgorithm::EcP384 => WireKeyAlgorithm::EcP384,
        KeyAlgorithm::Ed25519 => WireKeyAlgorithm::Ed25519,
    }
}

/// A key of a service account.
#[derive(Debug, Clone, PartialEq, Eq)]
pub struct ServiceAccountKey {
    pub name: String,
    pub key_id: String,
    pub key_algorithm: KeyAlgorithm,
    pub key_origin: KeyOrigin,
    pub valid_after_time: Option<UtcInstant>,
    pub valid_before_time: Option<UtcInstant>,
    pub disabled: bool,
}

/// A service account key as the wire model holds it.
#[derive(Debug, Clone, PartialEq, Eq)]
pub struct ServiceAccountKeyJson {
    pub name: String,
    pub key_id: String,
    pub key_algorithm: WireKeyAlgorithm,
    pub key_origin: Option<KeyOrigin>,
    pub valid_after_time: String,
    pub valid_before_time: Option<Option<String>>,
    pub disabled: Option<bool>,
}

/// The mathematical value of a service account key.
pub struct ServiceAccountKeyView {
    pub name: Seq<char>,
    pub key_id: Seq<char>,
    pub key_algorithm: KeyAlgorithm,
    pub key_origin: KeyOrigin,
    pub valid_after_time: Option<UtcInstant>,
    pub valid_before_time: Option<UtcInstant>,
    pub disabled: bool,
}

impl View for ServiceAccountKey {
    type V = ServiceAccountKeyView;

    open spec fn view(&self) -> ServiceAccountKeyView {
        ServiceAccountKeyView {
            name: self.name@,
            key_id: self.key_id@,
            key_algorithm: self.key_algorithm,
            key_origin: self.key_origin,
            valid_after_time: self.valid_after_time,
            valid_before_time: self.valid_before_time,
            disabled: self.disabled,
        }
    }
}

/// What reading a key gives: an absent origin means the system provided it, an
/// absent `disabled` means enabled, and timestamps that do not parse are dropped.
pub open spec fn key_of_json(j: ServiceAccountKeyJson) -> ServiceAccountKeyView {
    ServiceAccountKeyView {
        name: j.name@,
        key_id: j.key_id@,
        key_algorithm: algorithm_of_wire(j.key_algorithm),
        key_origin: match j.key_origin {
            Some(o) => o,
            None => KeyOrigin::SystemProvided,
        },
        valid_after_time: rfc3339_instant(j.valid_after_time@),
        valid_before_time: parsed_instant(flatten(j.valid_before_time)),
        disabled: match j.disabled {
            Some(d) => d,
            None => false,
        },
    }
}

impl FromJson for ServiceAccountKey {
    type Json = ServiceAccountKeyJson;

    open spec fn json_result(json: ServiceAccountKeyJson) -> Result<ServiceAccountKeyView, ValidationError> {
        Ok(key_of_json(json))
    }

    /// Reads a service account key from its wire model.
    fn from_json(json: ServiceAccountKeyJson) -> (r: Result<ServiceAccountKey, ValidationError>) {
        let ServiceAccountKeyJson {
            name,
            key_id,
            key_algorithm,
            key_origin,
            valid_after_time,
            valid_before_time,
            disabled,
        } = json;
        let key_algorithm = match key_algorithm {
            WireKeyAlgorithm::Rsa2048 => KeyAlgorithm::Rsa2048,
            WireKeyAlgorithm::Rsa4096 => KeyAlgorithm::Rsa4096,
            WireKeyAlgorithm::EcP256 => KeyAlgorithm::EcP256,
            WireKeyAlgorithm::EcP384 => KeyAlgorithm::EcP384,
            WireKeyAlgorithm::Ed25519 => KeyAlgorithm::Ed25519,
        };
        let key_origin = match key_origin {
            Some(o) => o,
            None => KeyOrigin::SystemProvided,
        };
        let valid_after_time = parse_timestamp_ok(Some(valid_after_time));
        let valid_before_time = parse_timestamp_ok(flatten_option(valid_before_time));
        let disabled = match disabled {
            Some(d) => d,
            None => false,
        };
        Ok(ServiceAccountKey {
            name,
            key_id,
            key_algorithm,
            key_origin,
            valid_after_time,
            valid_before_time,
            disabled,
        })
    }
}

/// A newly generated key with its private material.
#[derive(Debug, Clone, PartialEq, Eq)]
pub struct GeneratedKey {
    pub key: ServiceAccountKey,
    pub private_key_data: Vec<u8>,
    pub key_file_json: String,
}

/// What reading a key generation response gives: the key must be present;
/// absent private material is empty.
pub open spec fn generated_key_result(
    key: Option<ServiceAccountKeyJson>,
    private_key_data: Option<Vec<u8>>,
    key_file_json: Option<String>,
) -> Result<(ServiceAccountKeyView, Seq<u8>, Seq<char>), ValidationError> {
    match key {
        Some(k) => Ok((
            key_of_json(k),
            match private_key_data {
                Some(d) => d@,
                None => Seq::empty(),
            },
            text_or_empty(key_file_json),
        )),
        None => Err(ValidationError::MissingField("key")),
    }
}

/// Reads the response to a key generation request.
pub fn generated_key_from_json(
    key: Option<ServiceAccountKeyJson>,
    private_key_data: Option<Vec<u8>>,
    key_file_json: Option<String>,
) -> (r: Result<GeneratedKey, ValidationError>)
    ensures
        match r {
            Ok(g) => generated_key_result(key, private_key_data, key_file_json)
                == Ok::<(ServiceAccountKeyView, Seq<u8>, Seq<char>), ValidationError>((g.key@, g.private_key_data@, g.key_file_json@)),
            Err(e) => generated_key_result(key, private_key_data, key_file_json)
                == Err::<(ServiceAccountKeyView, Seq<u8>, Seq<char>), ValidationError>(e),
        },
{
    let key = match key {
        Some(k) => match ServiceAccountKey::from_json(k) {
            Ok(v) => v,
            Err(e) => return Err(e),
        },
        None => return Err(ValidationError::MissingField("key")),
    };
    let private_key_data = match private_key_data {
        Some(d) => d,
        None => Vec::new(),
    };
    Ok(GeneratedKey { key, private_key_data, key_file_json: string_or_empty(key_file_json) })
}

/// Converts a requested key algorithm to the wire enum; unspecified asks for RSA 2048.
pub fn key_algorithm_to_openapi(a: KeyAlgorithm) -> (w: WireKeyAlgorithm)
    ensures
        w == wire_of_algorithm(a),
{
    match a {
        KeyAlgorithm::Unspecified | KeyAlgorithm::Rsa2048 => WireKeyAlgorithm::Rsa2048,
        KeyAlgorithm::Rsa4096 => WireKeyAlgorithm::Rsa4096,
        KeyAlgorithm::EcP256 => WireKeyAlgorithm::EcP256,
        KeyAlgorithm::EcP384 => WireKeyAlgorithm::EcP384,
        KeyAlgorithm::Ed25519 => WireKeyAlgorithm::Ed25519,
    }
}

/// A request to generate a key for a service account.
#[derive(Debug, Clone, PartialEq, Eq)]
pub struct GenerateKeyRequest {
    pub project_id: String,
    pub service_account_id: String,
    pub key_algorithm: KeyAlgorithm,
    pub valid_before_time: Option<UtcInstant>,
}

/// The body of a key generation request.
#[derive(Debug, Clone, PartialEq, Eq)]
pub struct GenerateKeyBody {
    pub key_algorithm: Option<WireKeyAlgorithm>,
    pub valid_before_time: Option<String>,
}

/// Builds the body of a key generation request: the algorithm is always sent
/// (unspecified asks for RSA 2048), and the expiry as RFC 3339 text.
pub fn build_generate_key_body(req: GenerateKeyRequest) -> (body: GenerateKeyBody)
    requires
        req.valid_before_time matches Some(t) ==> t.wf(),
    ensures
        body.key_algorithm == Some(wire_of_algorithm(req.key_algorithm)),
        opt_view(body.valid_before_time) == (match req.valid_before_time {
            Some(t) => Some(rfc3339_text(t.seconds, t.nanos)),
            None => None,
        }),
{
    let valid_before_time = match req.valid_before_time {
        Some(t) => Some(format_rfc3339(t)),
        None => None,
    };
    GenerateKeyBody { key_algorithm: Some(key_algorithm_to_openapi(req.key_algorithm)), valid_before_time }
}

/// The kind of a second factor.
#[derive(Debug, Clone, Copy, PartialEq, Eq, Structural)]
pub enum MfaFactorType {
    Totp,
    Sms,
    Email,
}

/// A second factor enrolled by a user.
#[derive(Debug, Clone, PartialEq, Eq)]
pub struct MfaFactor {
    pub factor_id: String,
    pub factor_type: MfaFactorType,
    pub display_name: Option<String>,
    pub phone_number: Option<String>,
    pub email: Option<String>,
    pub verified: bool,
    pub created_at: Option<UtcInstant>,
    pub last_used_at: Option<UtcInstant>,
}

/// A second factor as the wire model holds it.
#[derive(Debug, Clone, PartialEq, Eq)]
pub struct MfaFactorJson {
    pub factor_id: String,
    pub factor_type: MfaFactorType,
    pub display_name: Option<Option<String>>,
    pub phone_number: Option<Option<String>>,
    pub email: Option<Option<String>>,
    pub verified: Option<bool>,
    pub created_at: String,
    pub last_used_at: Option<Option<String>>,
}

/// The mathematical value of a second factor.
pub struct MfaFactorView {
    pub factor_id: Seq<char>,
    pub factor_type: MfaFactorType,
    pub display_name: Option<Seq<char>>,
    pub phone_number: Option<Seq<char>>,
    pub email: Option<Seq<char>>,
    pub verified: bool,
    pub created_at: Option<UtcInstant>,
    pub last_used_at: Option<UtcInstant>,
}

impl View for MfaFactor {
    type V = MfaFactorView;

    open spec fn view(&self) -> MfaFactorView {
        MfaFactorView {
            factor_id: self.factor_id@,
            factor_type: self.factor_type,
            display_name: opt_view(self.display_name),
            phone_number: opt_view(self.phone_number),
            email: opt_view(self.email),
            verified: self.verified,
            created_at: self.created_at,
            last_used_at: self.last_used_at,
        }
    }
}

/// What reading a second factor gives: `null` members are none, an absent
/// `verified` is false, and timestamps that do not parse are dropped.
pub open spec fn mfa_factor_of_json(j: MfaFactorJson) -> MfaFactorView {
    MfaFactorView {
        factor_id: j.factor_id@,
        factor_type: j.factor_type,
        display_name: opt_view(flatten(j.display_name)),
        phone_number: opt_view(flatten(j.phone_number)),
        email: opt_view(flatten(j.email)),
        verified: match j.verified {
            Some(v) => v,
            None => false,
        },
        created_at: rfc3339_instant(j.created_at@),
        last_used_at: parsed_instant(flatten(j.last_used_at)),
    }
}

impl FromJson for MfaFactor {
    type Json = MfaFactorJson;

    open spec fn json_result(json: MfaFactorJson) -> Result<MfaFactorView, ValidationError> {
        Ok(mfa_factor_of_json(json))
    }

    /// Reads a second factor from its wire model.
    fn from_json(json: MfaFactorJson) -> (r: Result<MfaFactor, ValidationError>) {
        let MfaFactorJson {
            factor_id,
            factor_type,
            display_name,
            phone_number,
            email,
            verified,
            created_at,
            last_used_at,
        } = json;
        let verified = match verified {
            Some(v) => v,
            None => false,
        };
        Ok(MfaFactor {
            factor_id,
            factor_type,
            display_name: flatten_option(display_name),
            phone_number: flatten_option(phone_number),
            email: flatten_option(email),
            verified,
            created_at: parse_timestamp_ok(Some(created_at)),
            last_used_at: parse_timestamp_ok(flatten_option(last_used_at)),
        })
    }
}

} // verus!

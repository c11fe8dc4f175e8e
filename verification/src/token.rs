//! Tokens: the decoding of verified ID tokens and session cookies, and the
//! body of a custom token request.

use vstd::prelude::*;
use crate::api_key::flat_view;
use crate::json::{json_as_i64, json_as_str, json_i64_of, json_object_entries, json_object_of, json_text_of, names_distinct, pairs_map};
use crate::problem::{opt_view, ValidationError};
use crate::text::str_eq;
use crate::timestamp::{parse_timestamp_ok, rfc3339_instant, utc_from_unix_seconds, utc_now, utc_seconds_in_range, UtcInstant};

verus! {

/// A claim of a token: its name, its JSON value, and what the logic reads of
/// the value (its text when it is a string, its number when it is an integer
/// that fits `i64`).
#[derive(Debug)]
pub struct Claim {
    pub key: String,
    pub text: Option<String>,
    pub integer: Option<i64>,
    pub value: serde_json::Value,
}

/// Reads a claim from its name and JSON value.
pub fn claim_from_json(key: String, value: serde_json::Value) -> (c: Claim)
    ensures
        c.key@ == key@,
        c.value == value,
        opt_view(c.text) == json_text_of(value),
        c.integer == json_i64_of(value),
{
    let text = json_as_str(&value);
    let integer = json_as_i64(&value);
    Claim { key, text, integer, value }
}

/// The first claim with the given name.
pub open spec fn find_claim(claims: Seq<Claim>, key: Seq<char>) -> Option<Claim>
    decreases claims.len(),
{
    if claims.len() == 0 {
        None
    } else if claims[0].key@ == key {
        Some(claims[0])
    } else {
        find_claim(claims.drop_first(), key)
    }
}

/// Finds the first claim with the given name.
fn get_claim<'a>(claims: &'a Vec<Claim>, key: &str) -> (r: Option<&'a Claim>)
    ensures
        match r {
            Some(c) => find_claim(claims@, key@) == Some(*c),
            None => find_claim(claims@, key@) is None,
        },
{
    let mut i: usize = 0;
    assert(claims@.skip(0) =~= claims@);
    while i < claims.len()
        invariant
            i <= claims@.len(),
            find_claim(claims@, key@) == find_claim(claims@.skip(i as int), key@),
        decreases claims@.len() - i,
    {
        assert(claims@.skip(i as int).drop_first() =~= claims@.skip(i + 1));
        if str_eq(claims[i].key.as_str(), key) {
            return Some(&claims[i]);
        }
        i = i + 1;
    }
    None
}

/// The text of the claim with the given name, empty when it is absent or not a string.
pub open spec fn claim_text(claims: Seq<Claim>, key: Seq<char>) -> Seq<char> {
    match find_claim(claims, key) {
        Some(c) => match c.text {
            Some(t) => t@,
            None => Seq::empty(),
        },
        None => Seq::empty(),
    }
}

fn claim_text_or_empty(claims: &Vec<Claim>, key: &str) -> (s: String)
    ensures
        s@ == claim_text(claims@, key@),
{
    match get_claim(claims, key) {
        Some(c) => match &c.text {
            Some(t) => t.clone(),
            None => String::new(),
        },
        None => String::new(),
    }
}

/// The instant of the claim with the given name, read as whole Unix seconds;
/// `None` when it is absent, not an integer, or out of range.
pub open spec fn claim_instant(claims: Seq<Claim>, key: Seq<char>) -> Option<UtcInstant> {
    match find_claim(claims, key) {
        Some(c) => match c.integer {
            Some(n) => if utc_seconds_in_range(n) {
                Some(UtcInstant { seconds: n, nanos: 0 })
            } else {
                None
            },
            None => None,
        },
        None => None,
    }
}

fn claim_time(claims: &Vec<Claim>, key: &str) -> (r: Option<UtcInstant>)
    ensures
        r == claim_instant(claims@, key@),
{
    match get_claim(claims, key) {
        Some(c) => match c.integer {
            Some(n) => utc_from_unix_seconds(n),
            None => None,
        },
        None => None,
    }
}

/// The names of the standard claims, which are not custom claims.
pub open spec fn standard_claims() -> Seq<Seq<char>> {
    seq![
        "iss"@, "sub"@, "aud"@, "exp"@, "iat"@, "nbf"@, "auth_time"@, "project_id"@,
        "tenant_id"@, "email"@, "email_verified"@, "phone_number"@, "name"@, "picture"@,
        "sign_in_provider"@,
    ]
}

/// Whether a claim name is a standard one.
pub fn is_standard_claim(key: &str) -> (b: bool)
    ensures
        b == standard_claims().contains(key@),
{
    let b = str_eq(key, "iss") || str_eq(key, "sub") || str_eq(key, "aud") || str_eq(key, "exp")
        || str_eq(key, "iat") || str_eq(key, "nbf") || str_eq(key, "auth_time")
        || str_eq(key, "project_id") || str_eq(key, "tenant_id") || str_eq(key, "email")
        || str_eq(key, "email_verified") || str_eq(key, "phone_number") || str_eq(key, "name")
        || str_eq(key, "picture") || str_eq(key, "sign_in_provider");
    proof {
        let s = standard_claims();
        if b {
            assert(s.contains(key@)) by {
                if key@ == "iss"@ { assert(s[0] == key@); }
                else if key@ == "sub"@ { assert(s[1] == key@); }
                else if key@ == "aud"@ { assert(s[2] == key@); }
                else if key@ == "exp"@ { assert(s[3] == key@); }
                else if key@ == "iat"@ { assert(s[4] == key@); }
                else if key@ == "nbf"@ { assert(s[5] == key@); }
                else if key@ == "auth_time"@ { assert(s[6] == key@); }
                else if key@ == "project_id"@ { assert(s[7] == key@); }
                else if key@ == "tenant_id"@ { assert(s[8] == key@); }
                else if key@ == "email"@ { assert(s[9] == key@); }
                else if key@ == "email_verified"@ { assert(s[10] == key@); }
                else if key@ == "phone_number"@ { assert(s[11] == key@); }
                else if key@ == "name"@ { assert(s[12] == key@); }
                else if key@ == "picture"@ { assert(s[13] == key@); }
                else { assert(s[14] == key@); }
            }
        } else {
            assert(!s.contains(key@)) by {
                if s.contains(key@) {
                    let k = choose|k: int| 0 <= k < s.len() && s[k] == key@;
                    assert(0 <= k < 15);
                }
            }
        }
    }
    b
}

/// The claims that are not standard, in order.
pub open spec fn custom_claims_of(claims: Seq<Claim>) -> Seq<Claim> {
    claims.filter(|c: Claim| !standard_claims().contains(c.key@))
}

/// Keeps the claims that are not standard, in order.
pub fn custom_claims(claims: Vec<Claim>) -> (out: Vec<Claim>)
    ensures
        out@ == custom_claims_of(claims@),
{
    let mut claims = claims;
    let ghost all = claims@;
    let mut out: Vec<Claim> = Vec::new();
    let ghost mut taken: int = 0;
    while claims.len() > 0
        invariant
            0 <= taken <= all.len(),
            claims@ == all.skip(taken),
            out@ == custom_claims_of(all.take(taken)),
        decreases claims@.len(),
    {
        let c = claims.remove(0);
        let key = c.key.as_str();
        let keep = !is_standard_claim(key);
        assert(key@ == c.key@);
        proof {
            assert(c == all[taken]);
            let t1 = all.take(taken + 1);
            assert(t1.drop_last() =~= all.take(taken));
            assert(t1.last() == c);
            reveal_with_fuel(Seq::<Claim>::filter, 1);
            assert(custom_claims_of(t1) == (if !standard_claims().contains(c.key@) {
                custom_claims_of(all.take(taken)).push(c)
            } else {
                custom_claims_of(all.take(taken))
            }));
        }
        if keep {
            out.push(c);
        }
        proof {
            taken = taken + 1;
        }
        assert(claims@ =~= all.skip(taken));
    }
    assert(all.take(taken) =~= all);
    out
}

/// No custom claim is a standard one, and every claim that is not standard is kept.
pub proof fn lemma_custom_claims(claims: Seq<Claim>)
    ensures
        forall|i: int| 0 <= i < custom_claims_of(claims).len() ==> !standard_claims().contains(
            (#[trigger] custom_claims_of(claims)[i]).key@,
        ),
        forall|c: Claim| claims.contains(c) && !standard_claims().contains(c.key@) ==> #[trigger] custom_claims_of(claims).contains(c),
{
    let pred = |c: Claim| !standard_claims().contains(c.key@);
    assert forall|i: int| 0 <= i < custom_claims_of(claims).len() implies !standard_claims().contains(
        (#[trigger] custom_claims_of(claims)[i]).key@,
    ) by {
        claims.filter_lemma(pred);
    }
    assert forall|c: Claim| claims.contains(c) && !standard_claims().contains(c.key@) implies #[trigger] custom_claims_of(claims).contains(c) by {
        claims.filter_lemma(pred);
        let k = choose|k: int| 0 <= k < claims.len() && claims[k] == c;
        assert(pred(claims[k]));
    }
}

/// A verified ID token or session cookie, decoded.
#[derive(Debug)]
pub struct DecodedIdToken {
    pub pistachio_id: String,
    pub project_id: String,
    pub tenant_id: Option<String>,
    pub issuer: String,
    pub subject: String,
    pub audience: String,
    pub issued_at: UtcInstant,
    pub expires_at: UtcInstant,
    pub auth_time: UtcInstant,
    pub email: Option<String>,
    pub email_verified: Option<bool>,
    pub phone_number: Option<String>,
    pub name: Option<String>,
    pub picture: Option<String>,
    pub sign_in_provider: Option<String>,
    pub custom_claims: Vec<Claim>,
}

/// The project of a token: the `project_id` claim, or the `aud` claim when there
/// is no `project_id` claim, when it is a string; else the fallback project.
pub open spec fn token_project(claims: Seq<Claim>, fallback: Seq<char>) -> Seq<char> {
    let c = match find_claim(claims, "project_id"@) {
        Some(c) => Some(c),
        None => find_claim(claims, "aud"@),
    };
    match c {
        Some(c) => match c.text {
            Some(t) => t@,
            None => fallback,
        },
        None => fallback,
    }
}

/// What decoding a token gives, at time `now`: the user identifier must be
/// present; issuer, subject and audience are the string claims (empty when
/// absent); issue and expiry times are the integer claims or else `now`; the
/// authentication time is its claim or else the issue time; the tenant is the
/// `tenant_id` string claim; the custom claims are the non-standard ones.
pub open spec fn token_matches(
    r: Result<DecodedIdToken, ValidationError>,
    pistachio_id: Option<String>,
    email: Option<Option<String>>,
    email_verified: Option<bool>,
    claims: Option<Vec<Claim>>,
    now: UtcInstant,
    fallback_project_id: Seq<char>,
) -> bool {
    let cs = match claims {
        Some(v) => v@,
        None => Seq::empty(),
    };
    let issued_at = match claim_instant(cs, "iat"@) {
        Some(t) => t,
        None => now,
    };
    match pistachio_id {
        None => r == Err::<DecodedIdToken, ValidationError>(ValidationError::MissingField("pistachioId")),
        Some(id) => r matches Ok(t) && {
            &&& t.pistachio_id@ == id@
            &&& t.project_id@ == token_project(cs, fallback_project_id)
            &&& opt_view(t.tenant_id) == (match find_claim(cs, "tenant_id"@) {
                Some(c) => opt_view(c.text),
                None => None,
            })
            &&& t.issuer@ == claim_text(cs, "iss"@)
            &&& t.subject@ == claim_text(cs, "sub"@)
            &&& t.audience@ == claim_text(cs, "aud"@)
            &&& t.issued_at == issued_at
            &&& t.expires_at == (match claim_instant(cs, "exp"@) {
                Some(e) => e,
                None => now,
            })
            &&& t.auth_time == (match claim_instant(cs, "auth_time"@) {
                Some(a) => a,
                None => issued_at,
            })
            &&& opt_view(t.email) == flat_view(email)
            &&& t.email_verified == email_verified
            &&& t.phone_number is None && t.name is None && t.picture is None && t.sign_in_provider is None
            &&& t.custom_claims@ == custom_claims_of(cs)
        },
    }
}

/// Decodes a verified token at a given time; `fallback_project_id` stands for a
/// token without a project claim. The user and tenant identifiers are kept as
/// the text the server sent: their syntax is not checked here.
pub fn decoded_id_token_at(
    pistachio_id: Option<String>,
    email: Option<Option<String>>,
    email_verified: Option<bool>,
    claims: Option<Vec<Claim>>,
    now: UtcInstant,
    fallback_project_id: String,
) -> (r: Result<DecodedIdToken, ValidationError>)
    ensures
        token_matches(r, pistachio_id, email, email_verified, claims, now, fallback_project_id@),
{
    let pistachio_id = match pistachio_id {
        Some(p) => p,
        None => return Err(ValidationError::MissingField("pistachioId")),
    };
    let claims = match claims {
        Some(v) => v,
        None => Vec::new(),
    };
    let issuer = claim_text_or_empty(&claims, "iss");
    let subject = claim_text_or_empty(&claims, "sub");
    let audience = claim_text_or_empty(&claims, "aud");
    let issued_at = match claim_time(&claims, "iat") {
        Some(t) => t,
        None => now,
    };
    let expires_at = match claim_time(&claims, "exp") {
        Some(t) => t,
        None => now,
    };
    let auth_time = match claim_time(&claims, "auth_time") {
        Some(t) => t,
        None => issued_at,
    };
    let project_claim = match get_claim(&claims, "project_id") {
        Some(c) => Some(c),
        None => get_claim(&claims, "aud"),
    };
    let project_id = match project_claim {
        Some(c) => match &c.text {
            Some(t) => t.clone(),
            None => fallback_project_id,
        },
        None => fallback_project_id,
    };
    let tenant_id = match get_claim(&claims, "tenant_id") {
        Some(c) => c.text.clone(),
        None => None,
    };
    let email = match email {
        Some(Some(e)) => Some(e),
        _ => None,
    };
    Ok(DecodedIdToken {
        pistachio_id,
        project_id,
        tenant_id,
        issuer,
        subject,
        audience,
        issued_at,
        expires_at,
        auth_time,
        email,
        email_verified,
        phone_number: None,
        name: None,
        picture: None,
        sign_in_provider: None,
        custom_claims: custom_claims(claims),
    })
}

/// Decodes a verified token, with the current time for absent issue and expiry times.
/// The user and tenant identifiers are kept as the text the server sent: their
/// syntax is not checked here.
pub fn parse_decoded_id_token(
    pistachio_id: Option<String>,
    email: Option<Option<String>>,
    email_verified: Option<bool>,
    claims: Option<Vec<Claim>>,
    fallback_project_id: String,
) -> (r: Result<DecodedIdToken, ValidationError>)
    ensures
        exists|now: UtcInstant| #[trigger] token_matches(r, pistachio_id, email, email_verified, claims, now, fallback_project_id@),
{
    let now = utc_now();
    let r = decoded_id_token_at(pistachio_id, email, email_verified, claims, now, fallback_project_id);
    assert(token_matches(r, pistachio_id, email, email_verified, claims, now, fallback_project_id@));
    r
}

/// A created session cookie and its expiry.
#[derive(Debug, Clone)]
pub struct CreateSessionCookieResponse {
    pub session_cookie: String,
    pub expires_at: Option<UtcInstant>,
}

/// Converts the response to a session cookie creation: an absent cookie is
/// empty, and an expiry that does not parse is dropped.
pub fn session_cookie_from_json(session_cookie: Option<String>, expires_at: Option<String>) -> (r: CreateSessionCookieResponse)
    ensures
        r.session_cookie@ == (match session_cookie {
            Some(s) => s@,
            None => Seq::empty(),
        }),
        r.expires_at == (match expires_at {
            Some(s) => rfc3339_instant(s@),
            None => None,
        }),
{
    CreateSessionCookieResponse {
        session_cookie: match session_cookie {
            Some(s) => s,
            None => String::new(),
        },
        expires_at: parse_timestamp_ok(expires_at),
    }
}

/// A created custom token; the API does not report its expiry.
#[derive(Debug, Clone)]
pub struct CreateCustomTokenResponse {
    pub custom_token: String,
    pub expires_at: Option<UtcInstant>,
}

/// Converts the response to a custom token creation: an absent token is empty.
pub fn custom_token_from_json(custom_token: Option<String>) -> (r: CreateCustomTokenResponse)
    ensures
        r.custom_token@ == (match custom_token {
            Some(s) => s@,
            None => Seq::empty(),
        }),
        r.expires_at is None,
{
    CreateCustomTokenResponse {
        custom_token: match custom_token {
            Some(s) => s,
            None => String::new(),
        },
        expires_at: None,
    }
}

/// The body of a custom token request.
#[derive(Debug)]
pub struct CreateCustomTokenBody {
    pub pistachio_id: String,
    pub tenant_id: Option<Option<String>>,
    pub additional_claims: Option<Vec<(String, serde_json::Value)>>,
    pub expires_in: Option<i64>,
}

/// Builds the body of a custom token request: the tenant when given, the custom
/// claims when they are a JSON object, and the lifetime when given.
pub fn build_custom_token_body(
    pistachio_id: String,
    tenant_id: Option<String>,
    custom_claims: Option<serde_json::Value>,
    expires_in_seconds: Option<i64>,
) -> (b: CreateCustomTokenBody)
    ensures
        b.pistachio_id@ == pistachio_id@,
        match tenant_id {
            Some(t) => b.tenant_id matches Some(Some(u)) && u@ == t@,
            None => b.tenant_id is None,
        },
        match custom_claims {
            Some(v) => match b.additional_claims {
                Some(pairs) => json_object_of(v) == Some(pairs_map(pairs@)) && names_distinct(pairs@),
                None => json_object_of(v) is None,
            },
            None => b.additional_claims is None,
        },
        b.expires_in == expires_in_seconds,
{
    let additional_claims = match custom_claims {
        Some(v) => json_object_entries(v),
        None => None,
    };
    CreateCustomTokenBody {
        pistachio_id,
        tenant_id: match tenant_id {
            Some(t) => Some(Some(t)),
            None => None,
        },
        additional_claims,
        expires_in: expires_in_seconds,
    }
}

/// Which endpoint revokes a user's refresh tokens.
#[derive(Debug, Clone, PartialEq, Eq)]
pub enum RevokeTarget {
    /// The project-scoped endpoint.
    ProjectUser,
    /// The tenant-scoped endpoint, for this tenant.
    TenantUser(String),
}

/// Chooses the endpoint that revokes a user's refresh tokens: tenant-scoped
/// when the user belongs to a tenant, project-scoped otherwise.
pub fn revoke_target(tenant_id: Option<String>) -> (t: RevokeTarget)
    ensures
        match tenant_id {
            Some(id) => t matches RevokeTarget::TenantUser(x) && x@ == id@,
            None => t == RevokeTarget::ProjectUser,
        },
{
    match tenant_id {
        Some(id) => RevokeTarget::TenantUser(id),
        None => RevokeTarget::ProjectUser,
    }
}

} // verus!

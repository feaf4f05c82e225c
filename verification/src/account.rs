//! Accounts and tokens at the API edge: logging in, changing a password,
//! issuing initial passwords, exchanging an API key for an access token and
//! checking the parameters of a new API key.
//!
//! User and tenant lookups and token signing are the caller's; the functions
//! here decide, from what was looked up, which answer the request gets.

use vstd::prelude::*;
use crate::apikey::{ApiKeyEntity, token_ttl};
use crate::outside::{UtcInstant, bcrypt_check, bcrypt_hash, bcrypt_verify, parse_rfc3339, random_index, rfc3339_parse};
use crate::permission::Claims;
use crate::response::ApiError;
use crate::text::{push_str_chars, str_chars, string_from_chars};

verus! {

/// Seconds a login token stays valid.
pub const LOGIN_TOKEN_SECS: usize = 86400;

/// A login attempt.
#[derive(Debug, Clone)]
pub struct LoginRequest {
    pub username: String,
    pub password: String,
    pub tenant_id: String,
}

/// A registration.
#[derive(Debug, Clone)]
pub struct RegisterRequest {
    pub username: String,
    pub email: String,
    pub password: String,
}

/// A password change by the signed-in user.
#[derive(Debug, Clone)]
pub struct ChangePasswordRequest {
    pub old_password: String,
    pub new_password: String,
}

/// A tenant offered at the login screen.
#[derive(Debug, Clone)]
pub struct TenantOption {
    pub tenant_id: String,
    pub name: String,
}

/// A stored user, as far as signing in reads it.
#[derive(Debug, Clone)]
pub struct UserAccount {
    pub user_id: String,
    pub username: String,
    pub email: String,
    pub password_hash: String,
    pub is_super_admin: bool,
    /// Whether the user's status is Active.
    pub active: bool,
}

/// Why a login is refused (status and message), or `None` when it succeeds.
/// `role` is the user's role in the tenant, when the user belongs to it.
pub open spec fn login_refusal(
    req: LoginRequest,
    user: Option<UserAccount>,
    tenant_exists: bool,
    role: Option<String>,
) -> Option<(u16, Seq<char>)> {
    match user {
        None => Some((400u16, "Invalid username or password"@)),
        Some(u) => if !u.active {
            Some((400u16, "User is disabled"@))
        } else {
            match bcrypt_check(req.password@, u.password_hash@) {
                None => Some((500u16, "Password verification failed"@)),
                Some(false) => Some((400u16, "Invalid username or password"@)),
                Some(true) => if !tenant_exists {
                    Some((400u16, "Tenant not found"@))
                } else if !u.is_super_admin && role is None {
                    Some((400u16, "User does not belong to this tenant"@))
                } else {
                    None
                },
            }
        },
    }
}

/// The claims of a successful login at time `now`.
pub open spec fn login_claims_ok(c: Claims, req: LoginRequest, u: UserAccount, role: Option<String>, now: i64) -> bool {
    &&& c.sub == u.user_id
    &&& c.username == u.username
    &&& c.is_super_admin == u.is_super_admin
    &&& c.tenant_id == req.tenant_id
    &&& c.role@ == (if u.is_super_admin { "SuperAdmin"@ } else { role->0@ })
    &&& c.exp == now + LOGIN_TOKEN_SECS
}

fn refuse(status: u16, message: &str) -> (e: ApiError)
    requires
        status == 400 || status == 500,
    ensures
        e.status == status,
        e.message@ == message@,
{
    if status == 400 {
        ApiError::bad_request(message.to_owned())
    } else {
        ApiError::internal(message.to_owned())
    }
}

/// Log in with the user found under the requested name (if any), whether the
/// requested tenant exists, and the user's role in it: the user must be
/// active, the password must match, the tenant exist, and a user who is not a
/// super admin must belong to it. The token's claims expire a day after `now`.
pub fn login(req: LoginRequest, user: Option<UserAccount>, tenant_exists: bool, role: Option<String>, now: i64)
    -> (r: Result<Claims, ApiError>)
    requires
        0 <= now,
        now + LOGIN_TOKEN_SECS <= usize::MAX,
    ensures
        match login_refusal(req, user, tenant_exists, role) {
            Some((status, message)) => r matches Err(e) && e.status == status && e.message@ == message,
            None => r matches Ok(c) && login_claims_ok(c, req, user->0, role, now),
        },
{
    let u = match user {
        None => {
            return Err(refuse(400, "Invalid username or password"));
        },
        Some(u) => u,
    };
    if !u.active {
        return Err(refuse(400, "User is disabled"));
    }
    match bcrypt_verify(req.password.as_str(), u.password_hash.as_str()) {
        Err(_) => {
            return Err(refuse(500, "Password verification failed"));
        },
        Ok(false) => {
            return Err(refuse(400, "Invalid username or password"));
        },
        Ok(true) => {},
    }
    if !tenant_exists {
        return Err(refuse(400, "Tenant not found"));
    }
    let role_name: String = if u.is_super_admin {
        "SuperAdmin".to_owned()
    } else {
        match role {
            Some(r) => r,
            None => {
                return Err(refuse(400, "User does not belong to this tenant"));
            },
        }
    };
    let exp: usize = now as usize + LOGIN_TOKEN_SECS;
    Ok(Claims {
        sub: u.user_id,
        username: u.username,
        is_super_admin: u.is_super_admin,
        tenant_id: req.tenant_id,
        role: role_name,
        exp,
    })
}

/// A UTF-8 encoding takes between one and four bytes per character.
proof fn lemma_utf8_len_between(s: Seq<char>)
    ensures
        s.len() <= vstd::utf8::encode_utf8(s).len() <= 4 * s.len(),
    decreases s.len(),
{
    if s.len() > 0 {
        lemma_utf8_len_between(s.drop_first());
        let c = vstd::utf8::encode_scalar(s[0] as u32);
        assert(1 <= c.len() <= 4);
    }
}

/// Whether `s` takes at least `min` bytes in UTF-8.
fn long_enough(s: &str, min: usize) -> (b: bool)
    requires
        min <= 1000,
    ensures
        b == (vstd::utf8::encode_utf8(s@).len() >= min),
{
    let chars = str_chars(s);
    proof {
        lemma_utf8_len_between(s@);
    }
    if chars.len() >= min {
        return true;
    }
    s.len() >= min
}

/// "Password hashing failed: {error}"
pub open spec fn hashing_failed_message(error: Seq<char>) -> Seq<char> {
    "Password hashing failed: "@ + error
}

/// Hash a new password for storage; a failure is a 500.
pub fn hash_new_password(password: &str) -> (r: Result<String, ApiError>)
    ensures
        r matches Ok(h) ==> h@.len() == 60 && bcrypt_check(password@, h@) == Some(true),
        r matches Err(e) ==> e.status == 500 && exists|m: Seq<char>| e.message@ == #[trigger] hashing_failed_message(m),
{
    match bcrypt_hash(password) {
        Ok(h) => Ok(h),
        Err(m) => {
            let mut v: Vec<char> = Vec::new();
            push_str_chars("Password hashing failed: ", &mut v);
            push_str_chars(m.as_str(), &mut v);
            assert(v@ =~= hashing_failed_message(m@));
            Err(ApiError::internal(string_from_chars(&v)))
        },
    }
}

/// Register a user: the hash of the chosen password, to store with the new
/// user.
pub fn register(req: &RegisterRequest) -> (r: Result<String, ApiError>)
    ensures
        r matches Ok(h) ==> h@.len() == 60 && bcrypt_check(req.password@, h@) == Some(true),
        r matches Err(e) ==> e.status == 500 && exists|m: Seq<char>| e.message@ == #[trigger] hashing_failed_message(m),
{
    hash_new_password(req.password.as_str())
}

/// Why a password change is refused, or `None` when it goes ahead.
pub open spec fn change_refusal(req: ChangePasswordRequest, user: Option<UserAccount>) -> Option<(u16, Seq<char>)> {
    match user {
        None => Some((400u16, "User not found"@)),
        Some(u) => match bcrypt_check(req.old_password@, u.password_hash@) {
            None => Some((500u16, "Password verification failed"@)),
            Some(false) => Some((400u16, "Old password is incorrect"@)),
            Some(true) => if vstd::utf8::encode_utf8(req.new_password@).len() < 6 {
                Some((400u16, "New password must be at least 6 characters"@))
            } else {
                None
            },
        },
    }
}

/// Change the signed-in user's password: the old password must match and the
/// new one take at least 6 bytes. Returns the hash to store.
pub fn change_password(req: &ChangePasswordRequest, user: Option<&UserAccount>) -> (r: Result<String, ApiError>)
    ensures
        match change_refusal(*req, match user { Some(u) => Some(*u), None => None }) {
            Some((status, message)) => r matches Err(e) && e.status == status && e.message@ == message,
            None => match r {
                Ok(h) => bcrypt_check(req.new_password@, h@) == Some(true),
                Err(e) => e.status == 500 && exists|m: Seq<char>| e.message@ == #[trigger] hashing_failed_message(m),
            },
        },
{
    let u = match user {
        None => {
            return Err(refuse(400, "User not found"));
        },
        Some(u) => u,
    };
    match bcrypt_verify(req.old_password.as_str(), u.password_hash.as_str()) {
        Err(_) => {
            return Err(refuse(500, "Password verification failed"));
        },
        Ok(false) => {
            return Err(refuse(400, "Old password is incorrect"));
        },
        Ok(true) => {},
    }
    if !long_enough(req.new_password.as_str(), 6) {
        return Err(refuse(400, "New password must be at least 6 characters"));
    }
    hash_new_password(req.new_password.as_str())
}

/// A password set through `change_password` opens the next login: for an
/// active user whose stored hash is the one `change_password` returned for
/// `new_password`, a login with `new_password` into a tenant that exists and
/// that the user may enter is accepted.
pub proof fn lemma_changed_password_logs_in(
    new_password: Seq<char>,
    req: LoginRequest,
    user: UserAccount,
    tenant_exists: bool,
    role: Option<String>,
)
    requires
        bcrypt_check(new_password, user.password_hash@) == Some(true),
        req.password@ == new_password,
        user.active,
        tenant_exists,
        user.is_super_admin || role is Some,
    ensures
        login_refusal(req, Some(user), tenant_exists, role) is None,
{
}

/// The characters initial passwords are drawn from (no 0/O, 1/l/I).
pub open spec fn password_alphabet() -> Seq<char> {
    "abcdefghijkmnpqrstuvwxyzABCDEFGHJKLMNPQRSTUVWXYZ23456789"@
}

/// A random 12-character password over the alphabet.
pub fn generate_initial_password() -> (p: String)
    ensures
        p@.len() == 12,
        forall|i: int| 0 <= i < 12 ==> password_alphabet().contains(#[trigger] p@[i]),
{
    let alphabet = str_chars("abcdefghijkmnpqrstuvwxyzABCDEFGHJKLMNPQRSTUVWXYZ23456789");
    proof {
        reveal_strlit("abcdefghijkmnpqrstuvwxyzABCDEFGHJKLMNPQRSTUVWXYZ23456789");
    }
    let mut out: Vec<char> = Vec::new();
    let mut n: usize = 0;
    while n < 12
        invariant
            n <= 12,
            out@.len() == n,
            alphabet@ == password_alphabet(),
            alphabet@.len() > 0,
            forall|i: int| 0 <= i < n ==> password_alphabet().contains(#[trigger] out@[i]),
        decreases 12 - n,
    {
        let k = random_index(alphabet.len());
        let c = alphabet[k];
        assert(password_alphabet()[k as int] == c);
        out.push(c);
        n = n + 1;
    }
    string_from_chars(&out)
}

/// The credentials of a user created by an administrator: a fresh initial
/// password and its hash.
pub fn new_user_credentials() -> (r: Result<(String, String), ApiError>)
    ensures
        r matches Ok((p, h)) ==> p@.len() == 12 && bcrypt_check(p@, h@) == Some(true),
        r matches Err(e) ==> e.status == 500 && exists|m: Seq<char>| e.message@ == #[trigger] hashing_failed_message(m),
{
    let p = generate_initial_password();
    match hash_new_password(p.as_str()) {
        Ok(h) => Ok((p, h)),
        Err(e) => Err(e),
    }
}

/// An API key presented for an access token.
#[derive(Debug, Clone)]
pub struct TokenExchangeRequest {
    pub key: String,
}

/// The access token an API key is exchanged for.
#[derive(Debug, Clone)]
pub struct TokenExchangeResponse {
    pub access_token: String,
    pub token_type: String,
    pub expires_in: u32,
}

/// The claims of the access token for an accepted key: the key acts as a
/// non-admin user named after it, in its tenant and role, until its token
/// lifetime has passed. A key that was not accepted is a 401.
pub fn exchange_token(accepted: Result<ApiKeyEntity, String>, now: i64) -> (r: Result<Claims, ApiError>)
    requires
        0 <= now,
        accepted matches Ok(e) ==> now + e.token_ttl_secs <= usize::MAX,
    ensures
        match accepted {
            Err(_) => r matches Err(e) && e.status == 401 && e.message@ == "Invalid or expired API key"@,
            Ok(k) => r matches Ok(c) && {
                &&& c.sub == k.id
                &&& c.username == k.name
                &&& !c.is_super_admin
                &&& c.tenant_id == k.tenant_id
                &&& c.role == k.role
                &&& c.exp == now + k.token_ttl_secs
            },
        },
{
    match accepted {
        Err(_) => Err(ApiError::unauthorized("Invalid or expired API key".to_owned())),
        Ok(k) => {
            let exp: usize = now as usize + k.token_ttl_secs as usize;
            Ok(Claims {
                sub: k.id,
                username: k.name,
                is_super_admin: false,
                tenant_id: k.tenant_id,
                role: k.role,
                exp,
            })
        },
    }
}

/// The answer to a token exchange: a bearer token valid for the key's token lifetime.
pub fn token_exchange_response(access_token: String, token_ttl_secs: u32) -> (r: TokenExchangeResponse)
    ensures
        r.access_token == access_token,
        r.token_type@ == "Bearer"@,
        r.expires_in == token_ttl_secs,
{
    TokenExchangeResponse { access_token, token_type: "Bearer".to_owned(), expires_in: token_ttl_secs }
}

/// A request for a new API key.
#[derive(Debug, Clone)]
pub struct CreateApiKeyRequest {
    pub name: String,
    pub role: String,
    /// RFC 3339 date-time after which the key stops working.
    pub expires_at: Option<String>,
    pub token_ttl_secs: Option<u32>,
}

/// Why a new key's parameters are refused, or `None`.
pub open spec fn api_key_refusal(req: CreateApiKeyRequest, role_known: bool) -> Option<Seq<char>> {
    let ttl = match req.token_ttl_secs { Some(t) => t, None => 3600u32 };
    if !role_known {
        Some("Invalid role: "@ + req.role@)
    } else if req.role@ == "TenantAdmin"@ {
        Some("API keys cannot have TenantAdmin role"@)
    } else if !(60 <= ttl <= 86400) {
        Some("token_ttl_secs must be between 60 and 86400"@)
    } else if req.expires_at matches Some(s) && rfc3339_parse(s@) is None {
        Some("Invalid expires_at: expected ISO 8601 / RFC3339"@)
    } else {
        None
    }
}

/// Check the parameters of a new key (`role_known`: whether the role name is a
/// tenant role) and return its token lifetime (3600 seconds unless given) and
/// its expiry. Every refusal is a 400.
pub fn create_api_key_params(req: &CreateApiKeyRequest, role_known: bool) -> (r: Result<(u32, Option<UtcInstant>), ApiError>)
    ensures
        match api_key_refusal(*req, role_known) {
            Some(m) => r matches Err(e) && e.status == 400 && e.message@ == m,
            None => r matches Ok((ttl, exp)) && {
                &&& ttl == match req.token_ttl_secs { Some(t) => t, None => 3600u32 }
                &&& match req.expires_at {
                    None => exp is None,
                    Some(s) => exp matches Some(at) && rfc3339_parse(s@) matches Some((secs, nanos, _))
                        && at.secs == secs && at.nanos == nanos,
                }
            },
        },
{
    if !role_known {
        let mut v: Vec<char> = Vec::new();
        push_str_chars("Invalid role: ", &mut v);
        push_str_chars(req.role.as_str(), &mut v);
        return Err(ApiError::bad_request(string_from_chars(&v)));
    }
    let admin: String = "TenantAdmin".to_owned();
    proof {
        reveal_strlit("TenantAdmin");
    }
    if req.role == admin {
        return Err(ApiError::bad_request("API keys cannot have TenantAdmin role".to_owned()));
    }
    let ttl = match token_ttl(req.token_ttl_secs) {
        Ok(t) => t,
        Err(m) => {
            return Err(ApiError::bad_request(m));
        },
    };
    let exp: Option<UtcInstant> = match &req.expires_at {
        None => None,
        Some(s) => match parse_rfc3339(s.as_str()) {
            None => {
                return Err(ApiError::bad_request("Invalid expires_at: expected ISO 8601 / RFC3339".to_owned()));
            },
            Some((at, _)) => Some(at),
        },
    };
    Ok((ttl, exp))
}

/// A tenant as the login screen sees it.
#[derive(Debug, Clone)]
pub struct TenantSummary {
    pub tenant_id: String,
    pub name: String,
    /// Whether the tenant's status is Active.
    pub active: bool,
}

/// The tenants offered at the login screen: the active ones, in order.
pub open spec fn offered(tenants: Seq<TenantSummary>) -> Seq<TenantSummary> {
    tenants.filter(|t: TenantSummary| t.active)
}

/// Offer the active tenants, in order, by id and name.
pub fn tenant_options(tenants: Vec<TenantSummary>) -> (r: Vec<TenantOption>)
    ensures
        r@.len() == offered(tenants@).len(),
        forall|i: int| 0 <= i < r@.len() ==> {
            &&& #[trigger] r@[i].tenant_id == offered(tenants@)[i].tenant_id
            &&& r@[i].name == offered(tenants@)[i].name
        },
{
    let ghost all = tenants@;
    let mut out: Vec<TenantOption> = Vec::new();
    let mut rest = tenants;
    let mut done: usize = 0;
    let n: usize = rest.len();
    assert(all.take(0) =~= Seq::<TenantSummary>::empty());
    assert(all.take(0).filter(|t: TenantSummary| t.active) =~= Seq::<TenantSummary>::empty());
    while rest.len() > 0
        invariant
            done + rest@.len() == all.len(),
            all.len() == n,
            rest@ == all.skip(done as int),
            out@.len() == all.take(done as int).filter(|t: TenantSummary| t.active).len(),
            forall|i: int| 0 <= i < out@.len() ==> {
                &&& #[trigger] out@[i].tenant_id == all.take(done as int).filter(|t: TenantSummary| t.active)[i].tenant_id
                &&& out@[i].name == all.take(done as int).filter(|t: TenantSummary| t.active)[i].name
            },
        decreases rest.len(),
    {
        let t = rest.remove(0);
        proof {
            assert(t == all[done as int]);
            assert(all.take(done as int + 1).drop_last() =~= all.take(done as int));
            assert(all.take(done as int + 1).last() == t);
            reveal(Seq::filter);
            assert(rest@ =~= all.skip(done as int + 1));
        }
        if t.active {
            out.push(TenantOption { tenant_id: t.tenant_id, name: t.name });
        }
        done = done + 1;
    }
    assert(all.take(done as int) =~= all);
    out
}

/// What starting the API server has to create: the super admin, the default
/// tenant and the admin's TenantAdmin role in it, each only when missing.
#[derive(Debug, Clone, Copy, PartialEq, Eq, Structural)]
pub struct BootstrapSteps {
    pub create_admin: bool,
    pub create_tenant: bool,
    pub assign_admin_role: bool,
}

/// Each bootstrap step runs only when what it creates is missing, so a second
/// start creates nothing.
pub fn bootstrap_steps(admin_exists: bool, tenant_exists: bool, admin_has_role: bool) -> (s: BootstrapSteps)
    ensures
        s.create_admin == !admin_exists,
        s.create_tenant == !tenant_exists,
        s.assign_admin_role == !admin_has_role,
{
    BootstrapSteps { create_admin: !admin_exists, create_tenant: !tenant_exists, assign_admin_role: !admin_has_role }
}

} // verus!

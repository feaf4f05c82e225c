//! Who may do what: the authenticated caller, the permission checks of the
//! request guards, and the route-level permission gates.
//!
//! Whether a tenant role holds a given permission is decided by the role
//! table; the checks here take that answer (`role_grants`) as an argument.

use vstd::prelude::*;
use crate::response::ApiError;
use crate::text::{str_chars, string_from_chars};

verus! {

/// JWT claims: subject, display name, super-admin flag, tenant, role name and
/// expiry (Unix seconds).
#[derive(Debug, Clone)]
pub struct Claims {
    pub sub: String,
    pub username: String,
    pub is_super_admin: bool,
    pub tenant_id: String,
    pub role: String,
    pub exp: usize,
}

/// The authenticated caller of a request. `role` is the caller's tenant role
/// name, when the caller has one.
#[derive(Debug, Clone)]
pub struct AuthContext {
    pub user_id: String,
    pub username: String,
    pub is_super_admin: bool,
    pub tenant_id: String,
    pub role: Option<String>,
}

/// Permissions the routes and guards ask for.
#[derive(Debug, Clone, Copy, PartialEq, Eq, Structural)]
pub enum Permission {
    TemplateWrite,
    InstanceExecute,
    ApprovalAdmin,
    ApprovalDecide,
    TenantManage,
}

/// The caller context the authentication layer derives from verified claims:
/// a super admin may act in the tenant named by the `X-Tenant-Id` header.
pub fn auth_context_from_claims(claims: Claims, tenant_header: Option<String>, role: Option<String>) -> (c: AuthContext)
    ensures
        c.user_id == claims.sub,
        c.username == claims.username,
        c.is_super_admin == claims.is_super_admin,
        c.tenant_id == (if claims.is_super_admin && tenant_header is Some { tenant_header->0 } else { claims.tenant_id }),
        c.role == role,
{
    let tenant_id = if claims.is_super_admin {
        match tenant_header {
            Some(t) => t,
            None => claims.tenant_id,
        }
    } else {
        claims.tenant_id
    };
    AuthContext {
        user_id: claims.sub,
        username: claims.username,
        is_super_admin: claims.is_super_admin,
        tenant_id,
        role,
    }
}

/// The caller context of a request whose bearer token verified to `claims`:
/// as `auth_context_from_claims`, with the caller's role being the role name
/// the token carries. A name the role table does not know grants nothing
/// (its `role_grants` answer is false) and is no TenantAdmin, so every check
/// treats it as a caller without a role.
pub fn auth_context_for_token(claims: Claims, tenant_header: Option<String>) -> (c: AuthContext)
    ensures
        c.user_id == claims.sub,
        c.username == claims.username,
        c.is_super_admin == claims.is_super_admin,
        c.tenant_id == (if claims.is_super_admin && tenant_header is Some { tenant_header->0 } else { claims.tenant_id }),
        c.role == Some(claims.role),
{
    let role = claims.role.clone();
    auth_context_from_claims(claims, tenant_header, Some(role))
}

/// Allowed when the caller is a super admin, or has a role that grants the
/// permission (`role_grants`); otherwise 403 "insufficient permissions".
pub fn check_permission(auth: &AuthContext, role_grants: bool) -> (r: Result<(), ApiError>)
    ensures
        (auth.is_super_admin || (auth.role is Some && role_grants)) ==> r is Ok,
        !(auth.is_super_admin || (auth.role is Some && role_grants)) ==> (r matches Err(e)
            && e.status == 403 && e.message@ == "insufficient permissions"@),
{
    if auth.is_super_admin {
        return Ok(());
    }
    match &auth.role {
        Some(_) => {
            if role_grants {
                Ok(())
            } else {
                Err(ApiError::forbidden("insufficient permissions".to_owned()))
            }
        },
        None => Err(ApiError::forbidden("insufficient permissions".to_owned())),
    }
}

/// Guard for template writes.
pub struct RequireTemplateWrite;

/// Guard for running instances.
pub struct RequireInstanceExecute;

/// Guard for administering approvals.
pub struct RequireApprovalAdmin;

/// Guard for deciding approvals.
pub struct RequireApprovalDecide;

/// Guard for tenant-scope variable writes: TenantAdmin only.
pub struct RequireTenantVariableWrite;

/// Guard for workflow-meta-scope variable writes.
pub struct RequireMetaVariableWrite;

/// Guard for creating instances of draft workflows.
pub struct RequireDraftInstanceCreate;

impl RequireTemplateWrite {
    pub const PERMISSION: Permission = Permission::TemplateWrite;

    /// Needs TemplateWrite (`role_grants`: whether the caller's role grants it).
    pub fn check(auth: &AuthContext, role_grants: bool) -> (r: Result<(), ApiError>)
        ensures
            r is Ok <==> (auth.is_super_admin || (auth.role is Some && role_grants)),
            r matches Err(e) ==> e.status == 403 && e.message@ == "insufficient permissions"@,
    {
        check_permission(auth, role_grants)
    }
}

impl RequireInstanceExecute {
    pub const PERMISSION: Permission = Permission::InstanceExecute;

    /// Needs InstanceExecute.
    pub fn check(auth: &AuthContext, role_grants: bool) -> (r: Result<(), ApiError>)
        ensures
            r is Ok <==> (auth.is_super_admin || (auth.role is Some && role_grants)),
            r matches Err(e) ==> e.status == 403 && e.message@ == "insufficient permissions"@,
    {
        check_permission(auth, role_grants)
    }
}

impl RequireApprovalAdmin {
    pub const PERMISSION: Permission = Permission::ApprovalAdmin;

    /// Needs ApprovalAdmin.
    pub fn check(auth: &AuthContext, role_grants: bool) -> (r: Result<(), ApiError>)
        ensures
            r is Ok <==> (auth.is_super_admin || (auth.role is Some && role_grants)),
            r matches Err(e) ==> e.status == 403 && e.message@ == "insufficient permissions"@,
    {
        check_permission(auth, role_grants)
    }
}

impl RequireApprovalDecide {
    pub const PERMISSION: Permission = Permission::ApprovalDecide;

    /// Needs ApprovalDecide.
    pub fn check(auth: &AuthContext, role_grants: bool) -> (r: Result<(), ApiError>)
        ensures
            r is Ok <==> (auth.is_super_admin || (auth.role is Some && role_grants)),
            r matches Err(e) ==> e.status == 403 && e.message@ == "insufficient permissions"@,
    {
        check_permission(auth, role_grants)
    }
}

impl RequireMetaVariableWrite {
    pub const PERMISSION: Permission = Permission::TemplateWrite;

    /// Needs TemplateWrite.
    pub fn check(auth: &AuthContext, role_grants: bool) -> (r: Result<(), ApiError>)
        ensures
            r is Ok <==> (auth.is_super_admin || (auth.role is Some && role_grants)),
            r matches Err(e) ==> e.status == 403 && e.message@ == "insufficient permissions"@,
    {
        check_permission(auth, role_grants)
    }
}

impl RequireDraftInstanceCreate {
    pub const PERMISSION: Permission = Permission::TemplateWrite;

    /// Needs TemplateWrite.
    pub fn check(auth: &AuthContext, role_grants: bool) -> (r: Result<(), ApiError>)
        ensures
            r is Ok <==> (auth.is_super_admin || (auth.role is Some && role_grants)),
            r matches Err(e) ==> e.status == 403 && e.message@ == "insufficient permissions"@,
    {
        check_permission(auth, role_grants)
    }
}

impl RequireTenantVariableWrite {
    /// Super admins and TenantAdmins only; otherwise 403.
    pub fn check(auth: &AuthContext) -> (r: Result<(), ApiError>)
        ensures
            r is Ok <==> (auth.is_super_admin || (auth.role matches Some(n) && n@ == "TenantAdmin"@)),
            r matches Err(e) ==> e.status == 403 && e.message@ == "only TenantAdmin can write tenant variables"@,
    {
        if auth.is_super_admin {
            return Ok(());
        }
        match &auth.role {
            Some(n) => {
                let admin: String = "TenantAdmin".to_owned();
                if *n == admin {
                    Ok(())
                } else {
                    Err(ApiError::forbidden("only TenantAdmin can write tenant variables".to_owned()))
                }
            },
            None => Err(ApiError::forbidden("only TenantAdmin can write tenant variables".to_owned())),
        }
    }
}

/// A request guard's verdict when no caller context is present: 403 "not authenticated".
pub fn guard_unauthenticated() -> (e: ApiError)
    ensures
        e.status == 403,
        e.message@ == "not authenticated"@,
{
    ApiError::forbidden("not authenticated".to_owned())
}

/// Route gate requiring a permission: 401 without a caller; super admins pass;
/// TenantManage is for super admins only (403 "SuperAdmin only"); otherwise
/// the caller's role must grant it (403 "Insufficient permissions").
pub fn require_permission(auth: Option<&AuthContext>, permission: Permission, role_grants: bool) -> (r: Result<(), ApiError>)
    ensures
        auth is None ==> (r matches Err(e) && e.status == 401 && e.message@ == "Not authenticated"@),
        auth matches Some(a) ==> {
            if a.is_super_admin {
                r is Ok
            } else if permission == Permission::TenantManage {
                r matches Err(e) && e.status == 403 && e.message@ == "SuperAdmin only"@
            } else if a.role is Some && role_grants {
                r is Ok
            } else {
                r matches Err(e) && e.status == 403 && e.message@ == "Insufficient permissions"@
            }
        },
{
    let a = match auth {
        Some(a) => a,
        None => {
            return Err(ApiError::unauthorized("Not authenticated".to_owned()));
        },
    };
    if a.is_super_admin {
        return Ok(());
    }
    if permission == Permission::TenantManage {
        return Err(ApiError::forbidden("SuperAdmin only".to_owned()));
    }
    match &a.role {
        Some(_) => {
            if role_grants {
                Ok(())
            } else {
                Err(ApiError::forbidden("Insufficient permissions".to_owned()))
            }
        },
        None => Err(ApiError::forbidden("Insufficient permissions".to_owned())),
    }
}

/// Route gate for super admins only: 403 "SuperAdmin only" otherwise.
pub fn require_super_admin(auth: Option<&AuthContext>) -> (r: Result<(), ApiError>)
    ensures
        r is Ok <==> (auth matches Some(a) && a.is_super_admin),
        r matches Err(e) ==> e.status == 403 && e.message@ == "SuperAdmin only"@,
{
    match auth {
        Some(a) => {
            if a.is_super_admin {
                Ok(())
            } else {
                Err(ApiError::forbidden("SuperAdmin only".to_owned()))
            }
        },
        None => Err(ApiError::forbidden("SuperAdmin only".to_owned())),
    }
}

/// "Bearer "
pub open spec fn bearer_prefix() -> Seq<char> {
    "Bearer "@
}

/// The token of an `Authorization: Bearer <token>` header; a missing header,
/// or one without that prefix, is a 401.
pub fn bearer_token(header: Option<&str>) -> (r: Result<String, ApiError>)
    ensures
        match header {
            Some(h) if h@.len() >= 7 && h@.take(7) == bearer_prefix() => r matches Ok(t) && t@ == h@.skip(7),
            _ => r matches Err(e) && e.status == 401 && e.message@ == "Missing or invalid Authorization header"@,
        },
{
    let refuse = "Missing or invalid Authorization header";
    let h = match header {
        Some(h) => h,
        None => {
            return Err(ApiError::unauthorized(refuse.to_owned()));
        },
    };
    let cs = str_chars(h);
    let prefix = str_chars("Bearer ");
    proof {
        reveal_strlit("Bearer ");
    }
    if cs.len() < 7 {
        return Err(ApiError::unauthorized(refuse.to_owned()));
    }
    let mut i: usize = 0;
    while i < 7
        invariant
            i <= 7,
            header == Some(h),
            refuse@ == "Missing or invalid Authorization header"@,
            cs@ == h@,
            cs@.len() >= 7,
            prefix@ == bearer_prefix(),
            prefix@.len() == 7,
            forall|j: int| 0 <= j < i ==> cs@[j] == prefix@[j],
        decreases 7 - i,
    {
        if cs[i] != prefix[i] {
            assert(h@.take(7)[i as int] != bearer_prefix()[i as int]);
            return Err(ApiError::unauthorized(refuse.to_owned()));
        }
        i = i + 1;
    }
    assert(h@.take(7) =~= bearer_prefix());
    let mut out: Vec<char> = Vec::new();
    let mut k: usize = 7;
    while k < cs.len()
        invariant
            7 <= k <= cs@.len(),
            cs@ == h@,
            out@ == h@.subrange(7, k as int),
        decreases cs.len() - k,
    {
        out.push(cs[k]);
        k = k + 1;
        assert(out@ =~= h@.subrange(7, k as int));
    }
    assert(out@ =~= h@.skip(7));
    Ok(string_from_chars(&out))
}

/// The answer to a bearer token that does not verify: 401 "Invalid or expired token".
pub fn token_rejected() -> (e: ApiError)
    ensures
        e.status == 401,
        e.message@ == "Invalid or expired token"@,
{
    ApiError::unauthorized("Invalid or expired token".to_owned())
}

} // verus!

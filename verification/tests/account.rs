use workflow::account::{
    bootstrap_steps, tenant_options, TenantSummary,
    change_password, create_api_key_params, exchange_token, generate_initial_password, hash_new_password, login,
    new_user_credentials, token_exchange_response, ChangePasswordRequest, CreateApiKeyRequest, LoginRequest,
    UserAccount,
};
use workflow::apikey::{ApiKeyEntity, ApiKeyStatus};
use workflow::outside::UtcInstant;

fn user(password: &str) -> UserAccount {
    UserAccount {
        user_id: "u1".to_string(),
        username: "alice".to_string(),
        email: "a@example.com".to_string(),
        password_hash: hash_new_password(password).unwrap(),
        is_super_admin: false,
        active: true,
    }
}

fn req(password: &str) -> LoginRequest {
    LoginRequest { username: "alice".to_string(), password: password.to_string(), tenant_id: "t1".to_string() }
}

#[test]
fn login_succeeds_with_role() {
    let u = user("secret1");
    let c = login(req("secret1"), Some(u), true, Some("Developer".to_string()), 1000).unwrap();
    assert_eq!(c.sub, "u1");
    assert_eq!(c.username, "alice");
    assert_eq!(c.tenant_id, "t1");
    assert_eq!(c.role, "Developer");
    assert_eq!(c.exp, 1000 + 86400);
}

#[test]
fn login_refusals() {
    let e = login(req("x"), None, true, None, 0).unwrap_err();
    assert_eq!((e.status, e.message.as_str()), (400, "Invalid username or password"));
    let mut disabled = user("secret1");
    disabled.active = false;
    let e = login(req("secret1"), Some(disabled), true, None, 0).unwrap_err();
    assert_eq!(e.message, "User is disabled");
    let e = login(req("wrong!!"), Some(user("secret1")), true, None, 0).unwrap_err();
    assert_eq!((e.status, e.message.as_str()), (400, "Invalid username or password"));
    let e = login(req("secret1"), Some(user("secret1")), false, None, 0).unwrap_err();
    assert_eq!(e.message, "Tenant not found");
    let e = login(req("secret1"), Some(user("secret1")), true, None, 0).unwrap_err();
    assert_eq!(e.message, "User does not belong to this tenant");
    let mut broken = user("secret1");
    broken.password_hash = "not-a-hash".to_string();
    let e = login(req("secret1"), Some(broken), true, None, 0).unwrap_err();
    assert_eq!((e.status, e.message.as_str()), (500, "Password verification failed"));
}

#[test]
fn super_admin_needs_no_tenant_role() {
    let mut u = user("secret1");
    u.is_super_admin = true;
    let c = login(req("secret1"), Some(u), true, None, 5).unwrap();
    assert_eq!(c.role, "SuperAdmin");
    assert!(c.is_super_admin);
}

#[test]
fn changed_password_logs_in() {
    let u = user("old-pass");
    let cp = ChangePasswordRequest { old_password: "old-pass".to_string(), new_password: "new-pass".to_string() };
    let h = change_password(&cp, Some(&u)).unwrap();
    let mut u2 = u.clone();
    u2.password_hash = h;
    assert!(login(req("new-pass"), Some(u2.clone()), true, Some("Viewer".to_string()), 0).is_ok());
    assert!(login(req("old-pass"), Some(u2), true, Some("Viewer".to_string()), 0).is_err());
}

#[test]
fn change_password_refusals() {
    let u = user("old-pass");
    let bad_old = ChangePasswordRequest { old_password: "nope".to_string(), new_password: "long-enough".to_string() };
    assert_eq!(change_password(&bad_old, Some(&u)).unwrap_err().message, "Old password is incorrect");
    let short = ChangePasswordRequest { old_password: "old-pass".to_string(), new_password: "abc".to_string() };
    assert_eq!(change_password(&short, Some(&u)).unwrap_err().message, "New password must be at least 6 characters");
    // six bytes in UTF-8 although only two characters
    let wide = ChangePasswordRequest { old_password: "old-pass".to_string(), new_password: "\u{4e2d}\u{6587}".to_string() };
    assert!(change_password(&wide, Some(&u)).is_ok());
    assert_eq!(change_password(&short, None).unwrap_err().message, "User not found");
}

#[test]
fn initial_passwords() {
    let p = generate_initial_password();
    assert_eq!(p.chars().count(), 12);
    assert!(p.chars().all(|c| "abcdefghijkmnpqrstuvwxyzABCDEFGHJKLMNPQRSTUVWXYZ23456789".contains(c)));
    let (p, h) = new_user_credentials().unwrap();
    assert_eq!(h.len(), 60);
    assert!(bcrypt::verify(&p, &h).unwrap());
}

fn key_entity() -> ApiKeyEntity {
    ApiKeyEntity {
        id: "k1".to_string(),
        tenant_id: "t1".to_string(),
        name: "ci".to_string(),
        key_prefix: "wfk_abcd".to_string(),
        key_hash: "h".to_string(),
        role: "Operator".to_string(),
        expires_at: None,
        token_ttl_secs: 600,
        last_used_at: None,
        status: ApiKeyStatus::Active,
        created_by: "u1".to_string(),
        created_at: UtcInstant { secs: 0, nanos: 0 },
        updated_at: UtcInstant { secs: 0, nanos: 0 },
    }
}

#[test]
fn api_key_token_exchange() {
    let c = exchange_token(Ok(key_entity()), 100).unwrap();
    assert_eq!(c.sub, "k1");
    assert_eq!(c.username, "ci");
    assert!(!c.is_super_admin);
    assert_eq!(c.role, "Operator");
    assert_eq!(c.exp, 700);
    let e = exchange_token(Err("invalid api key".to_string()), 100).unwrap_err();
    assert_eq!((e.status, e.message.as_str()), (401, "Invalid or expired API key"));
    let r = token_exchange_response("tok".to_string(), 600);
    assert_eq!((r.token_type.as_str(), r.expires_in), ("Bearer", 600));
}

fn key_req(role: &str, ttl: Option<u32>, exp: Option<&str>) -> CreateApiKeyRequest {
    CreateApiKeyRequest { name: "ci".to_string(), role: role.to_string(), expires_at: exp.map(|s| s.to_string()), token_ttl_secs: ttl }
}

#[test]
fn api_key_parameters() {
    assert_eq!(create_api_key_params(&key_req("Operator", None, None), true).unwrap(), (3600, None));
    assert_eq!(
        create_api_key_params(&key_req("Operator", Some(60), Some("1970-01-01T00:01:40.500Z")), true).unwrap(),
        (60, Some(UtcInstant { secs: 100, nanos: 500_000_000 }))
    );
    assert_eq!(create_api_key_params(&key_req("Boss", None, None), false).unwrap_err().message, "Invalid role: Boss");
    assert_eq!(
        create_api_key_params(&key_req("TenantAdmin", None, None), true).unwrap_err().message,
        "API keys cannot have TenantAdmin role"
    );
    assert_eq!(
        create_api_key_params(&key_req("Operator", Some(59), None), true).unwrap_err().message,
        "token_ttl_secs must be between 60 and 86400"
    );
    assert_eq!(
        create_api_key_params(&key_req("Operator", None, Some("tomorrow")), true).unwrap_err().message,
        "Invalid expires_at: expected ISO 8601 / RFC3339"
    );
}

#[test]
fn login_screen_offers_active_tenants() {
    let ts = vec![
        TenantSummary { tenant_id: "t1".to_string(), name: "One".to_string(), active: true },
        TenantSummary { tenant_id: "t2".to_string(), name: "Two".to_string(), active: false },
        TenantSummary { tenant_id: "t3".to_string(), name: "Three".to_string(), active: true },
    ];
    let opts = tenant_options(ts);
    assert_eq!(opts.len(), 2);
    assert_eq!((opts[0].tenant_id.as_str(), opts[0].name.as_str()), ("t1", "One"));
    assert_eq!(opts[1].tenant_id, "t3");
}

#[test]
fn bootstrap_creates_only_what_is_missing() {
    let s = bootstrap_steps(false, true, false);
    assert!(s.create_admin && !s.create_tenant && s.assign_admin_role);
    let s = bootstrap_steps(true, true, true);
    assert!(!s.create_admin && !s.create_tenant && !s.assign_admin_role);
}

#[test]
fn registration_hashes_password() {
    let r = workflow::account::register(&workflow::account::RegisterRequest {
        username: "bob".to_string(),
        email: "b@example.com".to_string(),
        password: "hunter22".to_string(),
    })
    .unwrap();
    assert_eq!(r.len(), 60);
    assert!(bcrypt::verify("hunter22", &r).unwrap());
}

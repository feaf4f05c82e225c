use workflow::apikey::{api_key_prefix, build_api_key, hash_api_key, token_ttl, ApiKeyEntity, ApiKeyService, ApiKeyStatus};
use workflow::approval::{
    approval_status_to_node_status, build_approval, create_approval, decide_at, evaluate_mode, expire_approval_at,
    approvers_in_context, context_variable_users, resolve_approvers, ApprovalInstanceEntity, ApprovalStatus, Decision,
};
use workflow::outside::UtcInstant;
use workflow::config::{
    AppConfig, DatabaseConfig, EnvOverrides, InitConfig, LogConfig, SecurityConfig, ServerConfig, SweeperConfig,
};
use workflow::pagination::{ListTaskInstancesRequest, Pagination, SortQuery};
use workflow::permission::{auth_context_for_token, Claims, bearer_token, token_rejected, check_permission, require_permission, require_super_admin, AuthContext, Permission, RequireTenantVariableWrite};
use workflow::response::{ApiError, Response};
use workflow::status::{NodeExecutionStatus, TaskInstanceStatus, WorkflowInstanceStatus, WorkflowStatus};
use workflow::template::{ApprovalMode, ApprovalTemplate, ApproverRule};
use workflow::text::{decimal_string, indexed_child_task_id, single_child_task_id, trailing_index};

#[test]
fn lifecycles() {
    assert!(WorkflowStatus::Draft.can_transition_to(&WorkflowStatus::Published));
    assert!(!WorkflowStatus::Published.can_transition_to(&WorkflowStatus::Draft));
    assert!(WorkflowInstanceStatus::Running.can_transition_to(&WorkflowInstanceStatus::Await));
    assert!(WorkflowInstanceStatus::Await.can_transition_to(&WorkflowInstanceStatus::Pending));
    assert!(!WorkflowInstanceStatus::Completed.can_transition_to(&WorkflowInstanceStatus::Running));
    assert!(WorkflowInstanceStatus::Canceled.is_terminal());
    assert!(!WorkflowInstanceStatus::Failed.is_terminal());
    assert!(TaskInstanceStatus::Failed.can_transition_to(&TaskInstanceStatus::Pending));
    assert!(!TaskInstanceStatus::Completed.can_transition_to(&TaskInstanceStatus::Running));
    assert!(TaskInstanceStatus::Completed.is_terminal());
}

#[test]
fn child_ids_round_trip() {
    assert_eq!(single_child_task_id("wf1", "n1"), "wf1-n1");
    let id = indexed_child_task_id("wf-1", "node-x", 17);
    assert_eq!(id, "wf-1-node-x-17");
    assert_eq!(trailing_index(&id), Some(17));
    assert_eq!(trailing_index("wf1-n1"), None);
    assert_eq!(trailing_index("+5"), Some(5));
    assert_eq!(decimal_string(0), "0");
    assert_eq!(decimal_string(1234567), "1234567");
}

fn ctx(super_admin: bool, role: Option<&str>) -> AuthContext {
    AuthContext {
        user_id: "u".to_string(),
        username: "n".to_string(),
        is_super_admin: super_admin,
        tenant_id: "t".to_string(),
        role: role.map(|r| r.to_string()),
    }
}

#[test]
fn permission_gates() {
    assert!(check_permission(&ctx(true, None), false).is_ok());
    assert!(check_permission(&ctx(false, Some("Developer")), true).is_ok());
    let e = check_permission(&ctx(false, Some("Viewer")), false).unwrap_err();
    assert_eq!((e.status, e.message.as_str()), (403, "insufficient permissions"));
    let e = require_permission(None, Permission::InstanceExecute, true).unwrap_err();
    assert_eq!((e.status, e.message.as_str()), (401, "Not authenticated"));
    let e = require_permission(Some(&ctx(false, Some("TenantAdmin"))), Permission::TenantManage, true).unwrap_err();
    assert_eq!(e.message, "SuperAdmin only");
    let e = require_permission(Some(&ctx(false, None)), Permission::TemplateWrite, true).unwrap_err();
    assert_eq!(e.message, "Insufficient permissions");
    assert!(require_super_admin(Some(&ctx(true, None))).is_ok());
    assert!(RequireTenantVariableWrite::check(&ctx(false, Some("TenantAdmin"))).is_ok());
    assert!(RequireTenantVariableWrite::check(&ctx(false, Some("Developer"))).is_err());
}

#[test]
fn responses_and_errors() {
    let r = Response::success(5);
    assert_eq!((r.code, r.message.as_str(), r.data), (0, "success", Some(5)));
    assert_eq!(ApiError::from_storage_error("task not found".to_string()).status, 404);
    assert_eq!(ApiError::from_storage_error("timeout".to_string()).status, 500);
    let body = ApiError::bad_request("bad".to_string()).into_body();
    assert_eq!((body.code, body.message.as_str()), (400, "bad"));
}

#[test]
fn paging_defaults() {
    let q = ListTaskInstancesRequest { task_id: None, status: None, page: None, page_size: Some(50), sort_by: None, sort_order: None }.into_query();
    assert_eq!((q.pagination.page, q.pagination.page_size), (1, 50));
    assert_eq!((q.sort.sort_by.as_str(), q.sort.sort_order.as_str()), ("created_at", "desc"));
    let p = Pagination::default();
    assert_eq!((p.page, p.page_size), (1, 10));
    let s = SortQuery::new("name".to_string(), "asc".to_string());
    assert_eq!(s.sort_by, "name");
}

fn app_config() -> AppConfig {
    AppConfig {
        server: ServerConfig { port: 3000 },
        database: DatabaseConfig { mongo_url: "mongodb://m".to_string(), redis_url: "redis://r".to_string() },
        security: SecurityConfig { variable_encrypt_key: "k".to_string() },
        log: LogConfig { level: "info".to_string(), format: "json".to_string() },
        init: InitConfig {
            admin_username: "admin".to_string(),
            admin_password: "pw".to_string(),
            admin_email: "a@b".to_string(),
            default_tenant_name: "default".to_string(),
            default_tenant_description: "d".to_string(),
        },
        sweeper: SweeperConfig::default(),
    }
}

#[test]
fn environment_overrides() {
    let mut c = app_config();
    c.apply_env_overrides(EnvOverrides {
        mongo_url: Some("mongodb://other".to_string()),
        redis_url: None,
        api_port: Some("8080".to_string()),
        variable_encrypt_key: None,
        log_level: Some("debug".to_string()),
    });
    assert_eq!(c.database.mongo_url, "mongodb://other");
    assert_eq!(c.database.redis_url, "redis://r");
    assert_eq!(c.server.port, 8080);
    assert_eq!(c.log.level, "debug");
    let mut c = app_config();
    c.apply_env_overrides(EnvOverrides { mongo_url: None, redis_url: None, api_port: Some("70000".to_string()), variable_encrypt_key: None, log_level: None });
    assert_eq!(c.server.port, 3000);
    assert!(c.sweeper.enabled);
    assert_eq!(c.sweeper.interval_secs, 60);
}

fn template(mode: ApprovalMode, timeout: Option<u64>) -> ApprovalTemplate {
    ApprovalTemplate {
        name: "a".to_string(),
        title: "Expense".to_string(),
        description: Some("d".to_string()),
        approvers: vec![ApproverRule::User("u1".to_string())],
        approval_mode: mode,
        timeout,
    }
}

fn pending(mode: ApprovalMode, approvers: &[&str]) -> ApprovalInstanceEntity {
    build_approval(
        "ap1".to_string(),
        100,
        "t1",
        "wf1",
        "n1",
        &template(mode, Some(60)),
        approvers.iter().map(|a| a.to_string()).collect(),
        None,
    )
    .unwrap()
}

#[test]
fn approval_creation() {
    let a = pending(ApprovalMode::All, &["u1", "u2"]);
    assert_eq!(a.status, ApprovalStatus::Pending);
    assert_eq!(a.expires_at, Some(160));
    assert_eq!(a.created_at, 100);
    assert_eq!(
        build_approval("x".to_string(), 0, "t", "w", "n", &template(ApprovalMode::Any, None), vec![], None).unwrap_err(),
        "no approvers resolved from rules"
    );
    let a = create_approval("t1", "wf1", "n1", &template(ApprovalMode::Any, None), vec!["u1".to_string()], None).unwrap();
    assert_eq!(a.id.len(), 36);
    assert_eq!(a.expires_at, None);
}

#[test]
fn approval_modes() {
    let a = pending(ApprovalMode::Any, &["u1", "u2"]);
    let a = decide_at(a, "u2", Decision::Approve, None, 200).unwrap();
    assert_eq!(a.status, ApprovalStatus::Approved);
    assert_eq!(approval_status_to_node_status(&a.status), NodeExecutionStatus::Success);

    let a = pending(ApprovalMode::All, &["u1", "u2"]);
    let a = decide_at(a, "u1", Decision::Approve, None, 200).unwrap();
    assert_eq!(a.status, ApprovalStatus::Pending);
    assert_eq!(evaluate_mode(&a), None);
    let a = decide_at(a, "u2", Decision::Reject, Some("no".to_string()), 201).unwrap();
    assert_eq!(a.status, ApprovalStatus::Rejected);
    assert_eq!(a.updated_at, 201);

    let a = pending(ApprovalMode::Majority, &["u1", "u2", "u3"]);
    let a = decide_at(a, "u1", Decision::Approve, None, 1).unwrap();
    assert_eq!(a.status, ApprovalStatus::Pending);
    let a = decide_at(a, "u3", Decision::Approve, None, 2).unwrap();
    assert_eq!(a.status, ApprovalStatus::Approved);
}

#[test]
fn approval_refusals() {
    let a = pending(ApprovalMode::All, &["u1", "u2"]);
    assert_eq!(decide_at(a.clone(), "zed", Decision::Approve, None, 1).unwrap_err(), "user zed is not an approver for ap1");
    let a = decide_at(a, "u1", Decision::Approve, None, 1).unwrap();
    assert_eq!(decide_at(a.clone(), "u1", Decision::Reject, None, 2).unwrap_err(), "user u1 has already decided on ap1");
    let expired = expire_approval_at(a, 9);
    assert_eq!(expired.status, ApprovalStatus::Rejected);
    assert_eq!(expired.updated_at, 9);
    assert_eq!(decide_at(expired, "u2", Decision::Approve, None, 10).unwrap_err(), "approval ap1 is already Rejected");
}

#[test]
fn approvers_from_rules() {
    let rules = vec![
        ApproverRule::User("u1".to_string()),
        ApproverRule::Role("Manager".to_string()),
        ApproverRule::ContextVariable("owner".to_string()),
    ];
    let candidates = vec![vec![], vec!["u2".to_string(), "u1".to_string()], vec!["u3".to_string()]];
    assert_eq!(resolve_approvers(&rules, &candidates), vec!["u1".to_string(), "u2".to_string(), "u3".to_string()]);
}

#[test]
fn api_key_hash_and_prefix() {
    let h = hash_api_key("wfk_abc");
    assert_eq!(h.len(), 64);
    assert_ne!(h, hash_api_key("wfk_abd"));
    assert_eq!(hash_api_key(""), "e3b0c44298fc1c149afbf4c8996fb92427ae41e4649b934ca495991b7852b855");
    assert_eq!(api_key_prefix("wfk_0123456789"), "wfk_0123");
    assert_eq!(api_key_prefix("abc"), "abc");
    assert_eq!(token_ttl(None), Ok(3600));
    assert!(token_ttl(Some(86401)).is_err());
}

#[test]
fn issued_key_authenticates_until_revoked() {
    let (entity, key) = ApiKeyService::create_api_key("t1", "ci", "Operator", Some(at(1_000_000_000_000, 0)), 600, "u1");
    assert!(key.starts_with("wfk_"));
    assert_eq!(key.len(), 36);
    assert_eq!(entity.key_prefix, &key[..8]);
    assert_eq!(ApiKeyService::lookup_prefix(&key), Ok(entity.key_prefix.clone()));
    let used = ApiKeyService::authenticate_at(&key, entity.clone(), at(5, 0)).unwrap();
    assert_eq!(used.last_used_at, Some(at(5, 0)));
    assert!(ApiKeyService::authenticate(&key, entity.clone()).is_ok());
    assert_eq!(ApiKeyService::authenticate_at("wfk_wrong", entity.clone(), at(5, 0)).unwrap_err(), "invalid api key");
    let revoked = ApiKeyService::revoke_at(entity.clone(), at(7, 0));
    assert_eq!(revoked.status, ApiKeyStatus::Revoked);
    assert_eq!(ApiKeyService::authenticate_at(&key, revoked, at(8, 0)).unwrap_err(), "api key is not active");
    let mut old: ApiKeyEntity = entity;
    old.expires_at = Some(at(3, 500));
    assert_eq!(ApiKeyService::authenticate_at(&key, old.clone(), at(3, 501)).unwrap_err(), "api key has expired");
    assert!(ApiKeyService::authenticate_at(&key, old.clone(), at(3, 500)).is_ok());
    assert!(ApiKeyService::authenticate_at(&key, old, at(3, 499)).is_ok());
    assert_eq!(ApiKeyService::lookup_prefix("short"), Err("invalid api key".to_string()));
    let (e2, _) = build_api_key("id".to_string(), at(1, 0), "tail", "t", "n", "r", None, 60, "u");
    assert_eq!(e2.key_prefix, "wfk_tail");
}

#[test]
fn bearer_header() {
    assert_eq!(bearer_token(Some("Bearer abc.def")).unwrap(), "abc.def");
    assert_eq!(bearer_token(Some("Bearer ")).unwrap(), "");
    let e = bearer_token(Some("Basic xyz")).unwrap_err();
    assert_eq!((e.status, e.message.as_str()), (401, "Missing or invalid Authorization header"));
    assert!(bearer_token(None).is_err());
    assert!(bearer_token(Some("Bear")).is_err());
    assert_eq!(token_rejected().message, "Invalid or expired token");
}

fn at(secs: i64, nanos: u32) -> UtcInstant {
    UtcInstant { secs, nanos }
}

fn claims(super_admin: bool, role: &str) -> Claims {
    Claims {
        sub: "u1".to_string(),
        username: "alice".to_string(),
        is_super_admin: super_admin,
        tenant_id: "t1".to_string(),
        role: role.to_string(),
        exp: 0,
    }
}

#[test]
fn auth_context_takes_role_from_token() {
    let c = auth_context_for_token(claims(false, "TenantAdmin"), Some("t9".to_string()));
    assert_eq!(c.user_id, "u1");
    assert_eq!(c.username, "alice");
    assert_eq!(c.tenant_id, "t1");
    assert_eq!(c.role.as_deref(), Some("TenantAdmin"));
    assert!(RequireTenantVariableWrite::check(&c).is_ok());
    let admin = auth_context_for_token(claims(true, ""), Some("t9".to_string()));
    assert_eq!(admin.tenant_id, "t9");
    let admin = auth_context_for_token(claims(true, ""), None);
    assert_eq!(admin.tenant_id, "t1");
    let unknown = auth_context_for_token(claims(false, "Nobody"), None);
    assert!(check_permission(&unknown, false).is_err());
    assert!(RequireTenantVariableWrite::check(&unknown).is_err());
}

fn json_object(pairs: Vec<(&str, serde_json::Value)>) -> serde_json::Value {
    serde_json::Value::Object(pairs.into_iter().map(|(k, v)| (k.to_string(), v)).collect())
}

#[test]
fn approvers_from_context_variables() {
    let rules = vec![
        ApproverRule::User("u1".to_string()),
        ApproverRule::ContextVariable("mgr".to_string()),
        ApproverRule::User("u1".to_string()),
        ApproverRule::ContextVariable("missing".to_string()),
    ];
    let mgr = serde_json::Value::Array(vec![
        serde_json::Value::from("u2"),
        serde_json::Value::from("u1"),
        serde_json::Value::from(3),
    ]);
    let context = json_object(vec![("mgr", mgr)]);
    let role_users = vec![vec![], vec![], vec![], vec![]];
    assert_eq!(approvers_in_context(&rules, &role_users, &context), vec!["u1".to_string(), "u2".to_string()]);
}

#[test]
fn context_variable_shapes() {
    let context = json_object(vec![
        ("one", serde_json::Value::from("u7")),
        ("num", serde_json::Value::from(5)),
    ]);
    assert_eq!(context_variable_users(&context, "one"), vec!["u7".to_string()]);
    assert!(context_variable_users(&context, "num").is_empty());
    assert!(context_variable_users(&context, "nope").is_empty());
    assert!(context_variable_users(&serde_json::Value::from("x"), "one").is_empty());
    let rules = vec![ApproverRule::Role("Manager".to_string()), ApproverRule::ContextVariable("one".to_string())];
    let role_users = vec![vec!["u7".to_string(), "u8".to_string()], vec!["ignored".to_string()]];
    assert_eq!(approvers_in_context(&rules, &role_users, &context), vec!["u7".to_string(), "u8".to_string()]);
}

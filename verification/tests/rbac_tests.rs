use proven_core::domain::authz::{AccessScope, AuthzDecision};
use proven_core::domain::enums::{GrantKind, OverrideEffect, RoleKind, RoleStatus};
use proven_core::domain::models::{AccessGrant, PermissionOverride, RoleDefinition};
use proven_core::domain::permissions::company_admin_role_id;
use proven_core::domain::rbac::permission_engine::{evaluate, EvaluationInput};
use proven_core::domain::rbac::policies::{AbacContext, AuthorizationPolicy, SealedResourcePolicy};
use proven_core::domain::rbac::role_engine::{
    is_system_role_id, requires_expiry_for_role_kind, validate_expiry, validate_role_for_scope,
};

const NOW: i64 = 1_767_225_600_000;

fn fresh_id() -> u128 {
    uuid::Uuid::new_v4().as_u128()
}

fn role(id: u128, permissions: &[&str]) -> RoleDefinition {
    RoleDefinition {
        id,
        tenant_id: None,
        name: "Test Role".to_string(),
        kind: RoleKind::System,
        status: RoleStatus::Active,
        permissions: permissions.iter().map(|p| p.to_string()).collect(),
        created_at: NOW,
        updated_at: NOW,
        version: 1,
    }
}

fn grant(role_id: u128, scope: AccessScope, user_id: u128) -> AccessGrant {
    AccessGrant {
        id: fresh_id(),
        tenant_id: fresh_id(),
        user_id,
        role_id,
        scope,
        grant_kind: GrantKind::Standard,
        expires_at: None,
        revoked_at: None,
        created_at: NOW,
        created_by: None,
    }
}

fn override_of(user_id: u128, code: &str, effect: OverrideEffect, reason: Option<&str>) -> PermissionOverride {
    PermissionOverride {
        id: fresh_id(),
        tenant_id: fresh_id(),
        user_id,
        permission_code: code.to_string(),
        effect,
        scope: AccessScope::tenant(),
        reason: reason.map(|r| r.to_string()),
        expires_at: None,
        revoked_at: None,
        created_at: NOW,
        created_by: None,
    }
}

#[test]
fn denies_when_module_disabled_even_with_covering_grant() {
    let user_id = fresh_id();
    let role_id = fresh_id();
    let roles = vec![role(role_id, &["documents.document.read"])];
    let grants = vec![grant(role_id, AccessScope::tenant(), user_id)];
    let overrides: Vec<PermissionOverride> = Vec::new();
    let decision = evaluate(EvaluationInput {
        permission: "documents.document.read",
        resource: AccessScope::tenant(),
        principal_user_id: user_id,
        grants: &grants,
        roles: &roles,
        overrides: &overrides,
        now: NOW,
        module_enabled: false,
    });
    assert!(!decision.is_allowed());
}

#[test]
fn deny_override_wins_over_covering_grant() {
    let user_id = fresh_id();
    let role_id = fresh_id();
    let roles = vec![role(role_id, &["core.user.manage"])];
    let grants = vec![grant(role_id, AccessScope::tenant(), user_id)];
    let overrides = vec![override_of(user_id, "core.user.manage", OverrideEffect::Deny, None)];
    let decision = evaluate(EvaluationInput {
        permission: "core.user.manage",
        resource: AccessScope::tenant(),
        principal_user_id: user_id,
        grants: &grants,
        roles: &roles,
        overrides: &overrides,
        now: NOW,
        module_enabled: true,
    });
    assert!(!decision.is_allowed());
}

#[test]
fn allow_override_grants_without_any_role() {
    let user_id = fresh_id();
    let overrides = vec![override_of(
        user_id,
        "core.user.manage",
        OverrideEffect::Allow,
        Some("emergency access"),
    )];
    let grants: Vec<AccessGrant> = Vec::new();
    let roles: Vec<RoleDefinition> = Vec::new();
    let decision = evaluate(EvaluationInput {
        permission: "core.user.manage",
        resource: AccessScope::tenant(),
        principal_user_id: user_id,
        grants: &grants,
        roles: &roles,
        overrides: &overrides,
        now: NOW,
        module_enabled: true,
    });
    assert!(decision.is_allowed());
}

#[test]
fn company_scope_does_not_cover_project_scope() {
    let user_id = fresh_id();
    let role_id = fresh_id();
    let roles = vec![role(role_id, &["core.company.manage"])];
    let company_id = fresh_id();
    let grants = vec![grant(role_id, AccessScope::company(company_id), user_id)];
    let overrides: Vec<PermissionOverride> = Vec::new();

    let decision = evaluate(EvaluationInput {
        permission: "core.company.manage",
        resource: AccessScope::project(fresh_id()),
        principal_user_id: user_id,
        grants: &grants,
        roles: &roles,
        overrides: &overrides,
        now: NOW,
        module_enabled: true,
    });
    assert!(!decision.is_allowed());

    let decision = evaluate(EvaluationInput {
        permission: "core.company.manage",
        resource: AccessScope::company(company_id),
        principal_user_id: user_id,
        grants: &grants,
        roles: &roles,
        overrides: &overrides,
        now: NOW,
        module_enabled: true,
    });
    assert!(decision.is_allowed());
}

#[test]
fn expired_grant_denies() {
    let user_id = fresh_id();
    let role_id = fresh_id();
    let roles = vec![role(role_id, &["core.user.manage"])];
    let mut expired_grant = grant(role_id, AccessScope::tenant(), user_id);
    expired_grant.expires_at = Some(NOW - 1_000);
    let grants = vec![expired_grant];
    let overrides: Vec<PermissionOverride> = Vec::new();
    let decision = evaluate(EvaluationInput {
        permission: "core.user.manage",
        resource: AccessScope::tenant(),
        principal_user_id: user_id,
        grants: &grants,
        roles: &roles,
        overrides: &overrides,
        now: NOW,
        module_enabled: true,
    });
    assert!(!decision.is_allowed());
}

#[test]
fn sealed_resource_policy_denies_manage_action() {
    let policy = SealedResourcePolicy;
    let mut ctx = AbacContext::empty();
    ctx.resource_state = Some("sealed".to_string());
    let decision = policy.before_rbac(&ctx, "documents.document.manage");
    assert!(matches!(decision, Some(AuthzDecision::Deny { .. })));
}

#[test]
fn sealed_resource_policy_allows_read_action() {
    let policy = SealedResourcePolicy;
    let mut ctx = AbacContext::empty();
    ctx.resource_state = Some("sealed".to_string());
    assert!(policy.before_rbac(&ctx, "documents.document.read").is_none());
}

#[test]
fn sealed_resource_policy_ignores_non_sealed_state() {
    let policy = SealedResourcePolicy;
    let mut ctx = AbacContext::empty();
    ctx.resource_state = Some("draft".to_string());
    assert!(policy.before_rbac(&ctx, "documents.document.manage").is_none());
}

#[test]
fn temporary_role_kind_requires_expiry() {
    assert!(requires_expiry_for_role_kind(RoleKind::Temporary));
    assert!(!requires_expiry_for_role_kind(RoleKind::Company));
}

#[test]
fn validate_expiry_rejects_missing_expiry_for_temporary_grant_kind() {
    let err = validate_expiry(RoleKind::System, GrantKind::Temporary, None);
    assert!(err.is_err());

    let ok = validate_expiry(RoleKind::System, GrantKind::Temporary, Some(NOW));
    assert!(ok.is_ok());
}

#[test]
fn validate_role_for_scope_warns_on_mismatch() {
    let warning = validate_role_for_scope(RoleKind::Company, &AccessScope::tenant());
    assert!(warning.is_some());

    let ok = validate_role_for_scope(RoleKind::Company, &AccessScope::company(fresh_id()));
    assert!(ok.is_none());
}

#[test]
fn system_role_ids_include_company_admin() {
    assert!(is_system_role_id(company_admin_role_id()));
    assert!(!is_system_role_id(fresh_id()));
}

#[test]
fn engine_reasons_name_the_deciding_rule() {
    let user_id = fresh_id();
    let role_id = fresh_id();
    let roles = vec![role(role_id, &["core.user.manage"])];
    let g = grant(role_id, AccessScope::tenant(), user_id);
    let grant_id = g.id;
    let grants = vec![g];
    let overrides: Vec<PermissionOverride> = Vec::new();
    let decision = evaluate(EvaluationInput {
        permission: "core.user.manage",
        resource: AccessScope::tenant(),
        principal_user_id: user_id,
        grants: &grants,
        roles: &roles,
        overrides: &overrides,
        now: NOW,
        module_enabled: true,
    });
    let expected = format!("grant:{} role:Test Role", uuid::Uuid::from_u128(grant_id));
    match decision {
        AuthzDecision::Allow { reasons } => assert_eq!(reasons, vec![expected]),
        AuthzDecision::Deny { .. } => panic!("expected an allow"),
    }
    let decision = evaluate(EvaluationInput {
        permission: "core.user.invite",
        resource: AccessScope::tenant(),
        principal_user_id: user_id,
        grants: &grants,
        roles: &roles,
        overrides: &overrides,
        now: NOW,
        module_enabled: true,
    });
    match decision {
        AuthzDecision::Deny { reasons } => assert_eq!(reasons, vec!["no_covering_grant".to_string()]),
        AuthzDecision::Allow { .. } => panic!("expected a deny"),
    }
}

#[test]
fn missing_expiry_message_names_both_kinds() {
    let err = validate_expiry(RoleKind::Temporary, GrantKind::Standard, None).unwrap_err();
    assert_eq!(err, "temporary access (role kind Temporary, grant kind Standard) requires expires_at");
}

use proven_core::application::apis::CoreServices;
use proven_core::application::authz::{
    AuthorizeRequest, GrantAccessCommand, UpsertPermissionOverrideCommand,
};
use proven_core::application::identity::InviteUserCommand;
use proven_core::application::tenancy::{ProvisionTenantCommand, ProvisionTenantResult};
use proven_core::domain::authz::{AccessScope, AuthzDecision};
use proven_core::domain::enums::{CompanyType, GrantKind, OverrideEffect};
use proven_core::domain::permissions::{
    company_admin_role_id, document_control_role_id, project_admin_role_id,
    system_tenant_admin_role_id, temporary_elevated_role_id, COMPANY_MANAGE, COMPANY_READ,
    DOCUMENTS_DOCUMENT_READ, MEMBERSHIP_MANAGE, OVERRIDE_MANAGE, USER_MANAGE,
};
use proven_core::domain::rbac::policies::AbacContext;
use uuid::Uuid;

fn provision_tenant_for_rbac(core: &mut CoreServices) -> ProvisionTenantResult {
    core.tenancy
        .provision_tenant(
            &mut core.ports,
            ProvisionTenantCommand {
                slug: format!("acme-{}", Uuid::new_v4()),
                display_name: "Acme Construction".into(),
                region_code: "CA".into(),
                owner_company_name: "Acme GC Ltd".into(),
                owner_company_type: CompanyType::Prime,
                admin_email: format!("admin-{}@acme.test", Uuid::new_v4()),
                admin_display_name: "Acme Admin".into(),
                seats_limit: 25,
            },
        )
        .expect("provision_tenant should succeed")
}

fn fresh_active_user(core: &mut CoreServices, result: &ProvisionTenantResult) -> u128 {
    let user = core
        .identity
        .invite_user(
            &mut core.ports,
            InviteUserCommand {
                tenant_id: result.tenant.id,
                email: format!("worker-{}@acme.test", Uuid::new_v4()),
                display_name: "Fresh Worker".into(),
                invited_by: Some(result.admin_user.id),
            },
        )
        .expect("invite should succeed");
    core.identity
        .activate_user(&mut core.ports, result.tenant.id, user.id)
        .expect("activate should succeed")
        .id
}

fn authorize_as(
    core: &CoreServices,
    tenant_id: u128,
    user_id: u128,
    permission: &str,
    resource: AccessScope,
) -> AuthzDecision {
    core.authz
        .authorize(
            &core.ports,
            AuthorizeRequest::new(tenant_id, user_id, permission.to_string(), resource),
        )
        .expect("authorize should not error")
}

fn grant(
    core: &mut CoreServices,
    result: &ProvisionTenantResult,
    user_id: u128,
    role_id: u128,
    scope: AccessScope,
    grant_kind: GrantKind,
    expires_at: Option<i64>,
) -> Result<(), proven_core::domain::error::CoreError> {
    core.authz
        .grant_access(
            &mut core.ports,
            GrantAccessCommand {
                tenant_id: result.tenant.id,
                user_id,
                role_id,
                scope,
                grant_kind,
                expires_at,
                created_by: Some(result.admin_user.id),
            },
        )
        .map(|_| ())
}

#[test]
fn system_company_role_grants_company_scope() {
    let mut core = CoreServices::in_memory();
    let result = provision_tenant_for_rbac(&mut core);
    let worker = fresh_active_user(&mut core, &result);
    let company_id = result.owner_company.id;

    grant(&mut core, &result, worker, company_admin_role_id(), AccessScope::company(company_id), GrantKind::Standard, None)
        .expect("grant_access should succeed");

    let allowed = authorize_as(&core, result.tenant.id, worker, COMPANY_MANAGE, AccessScope::company(company_id));
    assert!(allowed.is_allowed(), "Company Admin grant should cover its own company scope");

    let other = authorize_as(
        &core,
        result.tenant.id,
        worker,
        COMPANY_MANAGE,
        AccessScope::company(Uuid::new_v4().as_u128()),
    );
    assert!(!other.is_allowed(), "Company Admin grant must not cover a different company");
}

#[test]
fn project_role_does_not_cover_other_project() {
    let mut core = CoreServices::in_memory();
    let result = provision_tenant_for_rbac(&mut core);
    let worker = fresh_active_user(&mut core, &result);
    let project_a = Uuid::new_v4().as_u128();
    let project_b = Uuid::new_v4().as_u128();

    grant(&mut core, &result, worker, project_admin_role_id(), AccessScope::project(project_a), GrantKind::Standard, None)
        .expect("grant_access should succeed");

    let allowed_on_a = authorize_as(&core, result.tenant.id, worker, MEMBERSHIP_MANAGE, AccessScope::project(project_a));
    assert!(allowed_on_a.is_allowed(), "grant should cover project A");

    let denied_on_b = authorize_as(&core, result.tenant.id, worker, MEMBERSHIP_MANAGE, AccessScope::project(project_b));
    assert!(!denied_on_b.is_allowed(), "Project-scoped grant must not cover a different project");
}

#[test]
fn temporary_grant_expires() {
    let mut core = CoreServices::in_memory();
    let result = provision_tenant_for_rbac(&mut core);
    let worker = fresh_active_user(&mut core, &result);
    let already_past = chrono::Utc::now().timestamp_millis() - 1_000;

    grant(
        &mut core,
        &result,
        worker,
        temporary_elevated_role_id(),
        AccessScope::tenant(),
        GrantKind::Temporary,
        Some(already_past),
    )
    .expect("grant_access should succeed even with a past expiry");

    let decision = authorize_as(&core, result.tenant.id, worker, OVERRIDE_MANAGE, AccessScope::tenant());
    assert!(!decision.is_allowed(), "an expired temporary grant must deny access (fail closed)");
}

#[test]
fn temporary_grant_without_expiry_is_rejected() {
    let mut core = CoreServices::in_memory();
    let result = provision_tenant_for_rbac(&mut core);
    let worker = fresh_active_user(&mut core, &result);

    let err = grant(
        &mut core,
        &result,
        worker,
        temporary_elevated_role_id(),
        AccessScope::tenant(),
        GrantKind::Standard,
        None,
    );
    assert!(err.is_err(), "RoleEngine must reject a Temporary role grant without expires_at");
}

fn add_override(core: &mut CoreServices, result: &ProvisionTenantResult, user_id: u128, effect: OverrideEffect, reason: &str) {
    core.authz
        .upsert_permission_override(
            &mut core.ports,
            UpsertPermissionOverrideCommand {
                tenant_id: result.tenant.id,
                user_id,
                permission: USER_MANAGE.to_string(),
                effect,
                scope: AccessScope::tenant(),
                reason: Some(reason.to_string()),
                expires_at: None,
                created_by: Some(result.admin_user.id),
            },
        )
        .expect("upsert_permission_override should succeed");
}

#[test]
fn deny_override_wins_over_role_grant() {
    let mut core = CoreServices::in_memory();
    let result = provision_tenant_for_rbac(&mut core);
    let worker = fresh_active_user(&mut core, &result);

    grant(&mut core, &result, worker, system_tenant_admin_role_id(), AccessScope::tenant(), GrantKind::Standard, None)
        .expect("grant_access should succeed");
    assert!(authorize_as(&core, result.tenant.id, worker, USER_MANAGE, AccessScope::tenant()).is_allowed());

    add_override(&mut core, &result, worker, OverrideEffect::Deny, "incident response");
    let denied = authorize_as(&core, result.tenant.id, worker, USER_MANAGE, AccessScope::tenant());
    assert!(!denied.is_allowed(), "an active deny override must win over a covering role grant");
}

#[test]
fn allow_override_grants_without_role() {
    let mut core = CoreServices::in_memory();
    let result = provision_tenant_for_rbac(&mut core);
    let worker = fresh_active_user(&mut core, &result);

    assert!(!authorize_as(&core, result.tenant.id, worker, USER_MANAGE, AccessScope::tenant()).is_allowed());

    add_override(&mut core, &result, worker, OverrideEffect::Allow, "emergency access");
    let allowed = authorize_as(&core, result.tenant.id, worker, USER_MANAGE, AccessScope::tenant());
    assert!(allowed.is_allowed(), "an active allow override must grant access even without any role");
}

#[test]
fn sealed_resource_policy_denies_manage() {
    let mut core = CoreServices::in_memory();
    let result = provision_tenant_for_rbac(&mut core);

    let mut sealed = AbacContext::empty();
    sealed.resource_state = Some("sealed".to_string());
    let decision = core
        .authz
        .authorize(
            &core.ports,
            AuthorizeRequest {
                tenant_id: result.tenant.id,
                principal: result.admin_user.id,
                permission: COMPANY_MANAGE.to_string(),
                resource: AccessScope::tenant(),
                abac: sealed,
            },
        )
        .expect("authorize should not error");
    assert!(!decision.is_allowed(), "sealed resources must deny manage-shaped permissions regardless of role");

    let mut sealed = AbacContext::empty();
    sealed.resource_state = Some("sealed".to_string());
    let read_decision = core
        .authz
        .authorize(
            &core.ports,
            AuthorizeRequest {
                tenant_id: result.tenant.id,
                principal: result.admin_user.id,
                permission: COMPANY_READ.to_string(),
                resource: AccessScope::tenant(),
                abac: sealed,
            },
        )
        .expect("authorize should not error");
    assert!(read_decision.is_allowed());
}

#[test]
fn module_disabled_denies_documents_permission() {
    let mut core = CoreServices::in_memory();
    let result = provision_tenant_for_rbac(&mut core);
    let worker = fresh_active_user(&mut core, &result);
    let company = AccessScope::company(result.owner_company.id);

    grant(&mut core, &result, worker, document_control_role_id(), company, GrantKind::Standard, None)
        .expect("grant_access should succeed");
    grant(&mut core, &result, worker, company_admin_role_id(), company, GrantKind::Standard, None)
        .expect("grant_access should succeed");

    let decision = authorize_as(&core, result.tenant.id, worker, DOCUMENTS_DOCUMENT_READ, company);
    assert!(!decision.is_allowed(), "documents.* must deny when the documents module is not licensed");

    let core_decision = authorize_as(&core, result.tenant.id, worker, COMPANY_READ, company);
    assert!(core_decision.is_allowed());
}

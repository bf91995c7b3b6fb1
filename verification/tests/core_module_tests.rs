use proven_core::application::apis::CoreServices;
use proven_core::application::audit::{digest_payload, AppendAuditEntryCommand};
use proven_core::application::authz::{AuthorizeRequest, GrantAccessCommand};
use proven_core::application::identity::InviteUserCommand;
use proven_core::application::membership::GrantProjectMembershipCommand;
use proven_core::application::settings::UpsertSettingCommand;
use proven_core::application::tenancy::{ProvisionTenantCommand, ProvisionTenantResult};
use proven_core::domain::authz::AccessScope;
use proven_core::domain::enums::{CompanyType, GrantKind, SettingScopeType};
use proven_core::domain::models::FeatureFlag;
use proven_core::domain::permissions::{system_tenant_admin_role_id, USER_MANAGE};
use proven_core::domain::rbac::policies::AbacContext;
use proven_core::page::PageRequest;

fn provision_test_tenant(core: &mut CoreServices) -> ProvisionTenantResult {
    core.tenancy
        .provision_tenant(
            &mut core.ports,
            ProvisionTenantCommand {
                slug: "acme-construction".into(),
                display_name: "Acme Construction".into(),
                region_code: "CA".into(),
                owner_company_name: "Acme GC Ltd".into(),
                owner_company_type: CompanyType::Prime,
                admin_email: "admin@acme.test".into(),
                admin_display_name: "Acme Admin".into(),
                seats_limit: 25,
            },
        )
        .expect("provision_tenant should succeed")
}

fn authorize_user_manage(core: &CoreServices, tenant_id: u128, principal: u128) -> bool {
    core.authz
        .authorize(
            &core.ports,
            AuthorizeRequest {
                tenant_id,
                principal,
                permission: USER_MANAGE.to_string(),
                resource: AccessScope::tenant(),
                abac: AbacContext::empty(),
            },
        )
        .expect("authorize should not error")
        .is_allowed()
}

#[test]
fn provision_tenant_creates_admin_and_license() {
    let mut core = CoreServices::in_memory();
    let result = provision_test_tenant(&mut core);

    assert_eq!(result.tenant.slug, "acme-construction");
    assert_eq!(result.admin_user.email, "admin@acme.test");
    assert_eq!(result.owner_company.tenant_id, result.tenant.id);

    let enabled = core
        .license
        .is_module_enabled(&core.ports, result.tenant.id, "core")
        .expect("license check should succeed");
    assert!(enabled, "core module should be enabled on the trial license");

    let fetched_tenant = core
        .tenancy
        .get_tenant(&core.ports, result.tenant.id)
        .expect("tenant should be fetchable");
    assert_eq!(fetched_tenant.id, result.tenant.id);
}

#[test]
fn authorize_allows_with_grant_denies_without() {
    let mut core = CoreServices::in_memory();
    let result = provision_test_tenant(&mut core);

    assert!(
        authorize_user_manage(&core, result.tenant.id, result.admin_user.id),
        "tenant admin should be allowed"
    );

    let other_user = core
        .identity
        .invite_user(
            &mut core.ports,
            InviteUserCommand {
                tenant_id: result.tenant.id,
                email: "worker@acme.test".into(),
                display_name: "Worker".into(),
                invited_by: Some(result.admin_user.id),
            },
        )
        .expect("invite should succeed");
    let activated = core
        .identity
        .activate_user(&mut core.ports, result.tenant.id, other_user.id)
        .expect("activate should succeed");

    assert!(
        !authorize_user_manage(&core, result.tenant.id, activated.id),
        "user without a covering grant must be denied"
    );

    core.authz
        .grant_access(
            &mut core.ports,
            GrantAccessCommand {
                tenant_id: result.tenant.id,
                user_id: activated.id,
                role_id: system_tenant_admin_role_id(),
                scope: AccessScope::tenant(),
                grant_kind: GrantKind::Standard,
                expires_at: None,
                created_by: Some(result.admin_user.id),
            },
        )
        .expect("grant_access should succeed");

    assert!(authorize_user_manage(&core, result.tenant.id, activated.id));
}

#[test]
fn project_membership_round_trip() {
    let mut core = CoreServices::in_memory();
    let result = provision_test_tenant(&mut core);
    let project_id = uuid::Uuid::new_v4().as_u128();
    let principal = result.admin_user.id;

    let not_yet_member = core
        .membership
        .is_project_member(&core.ports, result.tenant.id, project_id, principal)
        .expect("query should not error");
    assert!(!not_yet_member);

    core.membership
        .grant_project_membership(
            &mut core.ports,
            GrantProjectMembershipCommand {
                tenant_id: result.tenant.id,
                project_id,
                user_id: Some(result.admin_user.id),
                person_id: None,
                membership_role: "supervisor".into(),
                granted_by: Some(result.admin_user.id),
            },
        )
        .expect("grant_project_membership should succeed");

    let is_member = core
        .membership
        .is_project_member(&core.ports, result.tenant.id, project_id, principal)
        .expect("query should not error");
    assert!(is_member);

    let projects = core
        .membership
        .list_principal_projects(&core.ports, result.tenant.id, principal)
        .expect("list should not error");
    assert_eq!(projects, vec![project_id]);
}

fn hello_command(tenant_id: u128, actor: u128) -> AppendAuditEntryCommand {
    let mut cmd = AppendAuditEntryCommand::default();
    cmd.tenant_id = tenant_id;
    cmd.actor_user_id = Some(actor);
    cmd.actor_type = "user".into();
    cmd.action = "test.action".into();
    cmd.resource_type = "test_resource".into();
    cmd.payload = "{\"hello\":\"world\"}".to_string();
    cmd
}

#[test]
fn audit_append_is_immutable_digest() {
    let mut core = CoreServices::in_memory();
    let result = provision_test_tenant(&mut core);

    let entry = core
        .audit
        .append(&mut core.ports, hello_command(result.tenant.id, result.admin_user.id))
        .expect("append should succeed");
    let payload = "{\"hello\":\"world\"}".to_string();
    let expected_digest = digest_payload(&payload).expect("digest should compute");
    assert_eq!(entry.payload_digest, expected_digest);

    let entry2 = core
        .audit
        .append(&mut core.ports, hello_command(result.tenant.id, result.admin_user.id))
        .expect("append should succeed");
    assert_ne!(entry.id, entry2.id);
    assert_eq!(entry.payload_digest, entry2.payload_digest);

    let page = core
        .audit
        .query(&core.ports, result.tenant.id, PageRequest::default())
        .expect("query should succeed");
    assert!(page.items.len() >= 2, "provisioning also appends an entry");
}

#[test]
fn flag_override_wins() {
    let mut core = CoreServices::in_memory();
    let result = provision_test_tenant(&mut core);

    let key = "core.test_flag";
    core.ports.store.define_flag(FeatureFlag {
        key: key.to_string(),
        description: "test flag".into(),
        default_enabled: false,
        created_at: 0,
        updated_at: 0,
    });

    let default_eval = core
        .flags
        .evaluate(&core.ports, key, Some(result.tenant.id), None)
        .expect("evaluate should not error");
    assert!(!default_eval, "no override present — default should apply");

    core.ports.store.set_flag_override(key, Some(result.tenant.id), None, true);
    let tenant_override_eval = core
        .flags
        .evaluate(&core.ports, key, Some(result.tenant.id), None)
        .expect("evaluate should not error");
    assert!(tenant_override_eval, "tenant override should win over default");

    core.ports
        .store
        .set_flag_override(key, Some(result.tenant.id), Some(result.admin_user.id), false);
    let user_override_eval = core
        .flags
        .evaluate(&core.ports, key, Some(result.tenant.id), Some(result.admin_user.id))
        .expect("evaluate should not error");
    assert!(
        !user_override_eval,
        "user override should win over both tenant override and default"
    );

    let value = "{\"enabled\":true}".to_string();
    let entry = core
        .settings
        .upsert(
            &mut core.ports,
            UpsertSettingCommand {
                tenant_id: result.tenant.id,
                scope_type: SettingScopeType::Tenant,
                scope_id: None,
                key: "core.test.setting".to_string(),
                value: value.clone(),
            },
        )
        .expect("settings upsert should succeed");
    assert_eq!(entry.value, value);
}

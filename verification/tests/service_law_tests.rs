use proven_core::application::apis::CoreServices;
use proven_core::application::audit::AppendAuditEntryCommand;
use proven_core::application::identity::InviteUserCommand;
use proven_core::application::membership::GrantProjectMembershipCommand;
use proven_core::application::settings::UpsertSettingCommand;
use proven_core::application::tenancy::{ProvisionTenantCommand, ProvisionTenantResult};
use proven_core::domain::audit::AuditSearchQuery;
use proven_core::domain::enums::{CompanyType, SettingScopeType};
use proven_core::domain::error::CoreError;
use proven_core::page::PageRequest;
use sha2::Digest;

fn provision(core: &mut CoreServices, slug: &str) -> ProvisionTenantResult {
    core.tenancy
        .provision_tenant(
            &mut core.ports,
            ProvisionTenantCommand {
                slug: slug.into(),
                display_name: "Laws Inc".into(),
                region_code: "CA".into(),
                owner_company_name: "Laws GC".into(),
                owner_company_type: CompanyType::Prime,
                admin_email: format!("admin@{slug}.test"),
                admin_display_name: "Admin".into(),
                seats_limit: 10,
            },
        )
        .expect("provision_tenant should succeed")
}

fn append(core: &mut CoreServices, tenant_id: u128, action: &str, payload: &str) -> proven_core::domain::models::AuditEntry {
    let mut cmd = AppendAuditEntryCommand::default();
    cmd.tenant_id = tenant_id;
    cmd.actor_type = "system".into();
    cmd.action = action.into();
    cmd.resource_type = "thing".into();
    cmd.payload = payload.into();
    core.audit.append(&mut core.ports, cmd).expect("append should succeed")
}

#[test]
fn search_returns_exactly_the_matching_entries_newest_first() {
    let mut core = CoreServices::in_memory();
    let a = provision(&mut core, "law-a");
    let b = provision(&mut core, "law-b");
    let first = append(&mut core, a.tenant.id, "thing.flagged", "{\"n\":1}");
    append(&mut core, a.tenant.id, "thing.other", "{\"n\":2}");
    let second = append(&mut core, a.tenant.id, "thing.flagged", "{\"n\":3}");
    append(&mut core, b.tenant.id, "thing.flagged", "{\"n\":4}");

    let mut q = AuditSearchQuery::default();
    q.action = Some("thing.flagged".into());
    let page = core
        .audit
        .search(&core.ports, a.tenant.id, q, PageRequest::default())
        .expect("search should succeed");
    assert_eq!(page.total, 2);
    let ids: Vec<u128> = page.items.iter().map(|e| e.id).collect();
    assert!(ids.contains(&first.id) && ids.contains(&second.id));
    assert!(page.items.iter().all(|e| e.tenant_id == a.tenant.id && e.action == "thing.flagged"));
    assert!(page.items[0].occurred_at >= page.items[1].occurred_at);
}

#[test]
fn appended_entries_form_a_hash_chain() {
    let mut core = CoreServices::in_memory();
    let a = provision(&mut core, "chain-a");
    let before = core.ports.store.last_integrity_hash(a.tenant.id);
    let e = append(&mut core, a.tenant.id, "thing.made", "{\"k\":\"v\"}");
    assert_eq!(e.integrity_prev_hash, before);

    let mut hasher = sha2::Sha256::new();
    hasher.update(e.integrity_prev_hash.clone().unwrap_or_default().as_bytes());
    hasher.update(e.payload_digest.as_bytes());
    hasher.update(e.action.as_bytes());
    hasher.update(uuid::Uuid::from_u128(e.id).as_bytes());
    let expected = hex::encode(hasher.finalize());
    assert_eq!(e.integrity_hash.as_deref(), Some(expected.as_str()));
    assert_eq!(core.ports.store.last_integrity_hash(a.tenant.id), e.integrity_hash);

    let next = append(&mut core, a.tenant.id, "thing.made", "{\"k\":\"w\"}");
    assert_eq!(next.integrity_prev_hash, e.integrity_hash);
}

#[test]
fn a_setting_written_is_read_back() {
    let mut core = CoreServices::in_memory();
    let a = provision(&mut core, "settings-a");
    let write = |value: &str| UpsertSettingCommand {
        tenant_id: a.tenant.id,
        scope_type: SettingScopeType::Tenant,
        scope_id: None,
        key: "core.theme".to_string(),
        value: value.to_string(),
    };
    core.settings.upsert(&mut core.ports, write("\"dark\"")).unwrap();
    core.settings.upsert(&mut core.ports, write("\"light\"")).unwrap();
    let read = core
        .settings
        .get(&core.ports, a.tenant.id, SettingScopeType::Tenant, None, "core.theme")
        .unwrap()
        .expect("setting should exist");
    assert_eq!(read.value, "\"light\"");
    let missing = core
        .settings
        .get(&core.ports, a.tenant.id, SettingScopeType::Tenant, None, "core.other")
        .unwrap();
    assert!(missing.is_none());
}

#[test]
fn unknown_flags_are_off() {
    let mut core = CoreServices::in_memory();
    let a = provision(&mut core, "flags-a");
    let on = core
        .flags
        .evaluate(&core.ports, "core.never_defined", Some(a.tenant.id), None)
        .unwrap();
    assert!(!on);
}

#[test]
fn an_invited_email_is_taken_in_any_case() {
    let mut core = CoreServices::in_memory();
    let a = provision(&mut core, "invite-a");
    let invite = |email: &str| InviteUserCommand {
        tenant_id: a.tenant.id,
        email: email.into(),
        display_name: "Worker".into(),
        invited_by: Some(a.admin_user.id),
    };
    core.identity.invite_user(&mut core.ports, invite("crew@site.test")).unwrap();
    match core.identity.invite_user(&mut core.ports, invite("CREW@Site.Test")) {
        Err(CoreError::Conflict(m)) => assert_eq!(m, "email already in use for tenant"),
        other => panic!("unexpected {other:?}"),
    }
    match core.identity.invite_user(&mut core.ports, invite("   ")) {
        Err(CoreError::Validation(m)) => assert_eq!(m, "email must not be empty"),
        other => panic!("unexpected {other:?}"),
    }
}

#[test]
fn an_active_membership_blocks_a_second_grant() {
    let mut core = CoreServices::in_memory();
    let a = provision(&mut core, "members-a");
    let project_id = uuid::Uuid::new_v4().as_u128();
    let grant = || GrantProjectMembershipCommand {
        tenant_id: a.tenant.id,
        project_id,
        user_id: Some(a.admin_user.id),
        person_id: None,
        membership_role: "supervisor".into(),
        granted_by: Some(a.admin_user.id),
    };
    core.membership.grant_project_membership(&mut core.ports, grant()).unwrap();
    match core.membership.grant_project_membership(&mut core.ports, grant()) {
        Err(CoreError::Conflict(m)) => {
            assert_eq!(m, "principal already has an active membership on this project")
        }
        other => panic!("unexpected {other:?}"),
    }
    let mut nobody = grant();
    nobody.user_id = None;
    match core.membership.grant_project_membership(&mut core.ports, nobody) {
        Err(CoreError::Validation(m)) => assert_eq!(m, "membership requires a user_id or person_id"),
        other => panic!("unexpected {other:?}"),
    }
}

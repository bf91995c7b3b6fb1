use proven_core::api::{http_status, public_detail};
use proven_core::application::apis::CoreServices;
use proven_core::application::audit::AppendAuditEntryCommand;
use proven_core::application::files::{
    sanitize_filename, CreateFileUploadIntentCommand, CreatePublicShareLinkCommand,
};
use proven_core::application::tenancy::ProvisionTenantCommand;
use proven_core::domain::authz::AccessScope;
use proven_core::domain::enums::{CompanyType, FileObjectStatus, GrantScopeType};
use proven_core::domain::error::CoreError;
use proven_core::domain::files::FileObjectClass;
use proven_core::domain::audit::AuditSearchQuery;
use proven_core::domain::rbac::permission_engine::scope_covers;
use proven_core::ids::MAX_TIMESTAMP;
use proven_core::page::PageRequest;

const NOW: i64 = 1_767_225_600_000;
const DAY: i64 = 86_400_000;

fn provision_cmd(slug: &str) -> ProvisionTenantCommand {
    ProvisionTenantCommand {
        slug: slug.into(),
        display_name: "Edge Co".into(),
        region_code: "CA".into(),
        owner_company_name: "Edge GC".into(),
        owner_company_type: CompanyType::Prime,
        admin_email: "admin@edge.test".into(),
        admin_display_name: "Admin".into(),
        seats_limit: 3,
    }
}

fn intent(tenant_id: u128, temporary: bool) -> CreateFileUploadIntentCommand {
    CreateFileUploadIntentCommand {
        tenant_id,
        content_type: Some("image/jpeg".into()),
        retention_class: None,
        access_class: None,
        created_by: None,
        object_class: Some(FileObjectClass::Photo),
        original_filename: Some("site photo.jpg".into()),
        metadata: None,
        parent_file_id: None,
        is_temporary: temporary,
        expires_at: None,
    }
}

#[test]
fn provisioning_at_a_time_succeeds_with_a_thirty_day_trial() {
    let mut core = CoreServices::in_memory();
    let res = core
        .tenancy
        .provision_tenant_at(&mut core.ports, provision_cmd("edge"), NOW)
        .expect("provisioning should succeed");
    assert_eq!(res.tenant.created_at, NOW);
    assert_eq!(res.license.ends_at, Some(NOW + 30 * DAY));
    assert_eq!(res.license.seats_limit, 3);
}

#[test]
fn provisioning_refuses_a_trial_past_the_calendar_and_writes_nothing() {
    let mut core = CoreServices::in_memory();
    let late = MAX_TIMESTAMP - DAY;
    match core.tenancy.provision_tenant_at(&mut core.ports, provision_cmd("late"), late) {
        Err(CoreError::Internal(m)) => assert_eq!(m, "instant out of range"),
        other => panic!("unexpected {other:?}"),
    }
    assert!(core.ports.store.tenants.is_empty());
    assert!(core.ports.store.users.is_empty());
    assert!(core.ports.store.audit.is_empty());
}

#[test]
fn upload_intent_at_a_time_names_its_file_and_expiry() {
    let mut core = CoreServices::in_memory();
    let tenant = 0x42u128;
    let id = 0x1234u128;
    let made = core
        .files
        .create_upload_intent_at(&mut core.ports, intent(tenant, true), NOW, id)
        .expect("intent should succeed");
    assert_eq!(made.file.id, id);
    assert_eq!(made.file.created_at, NOW);
    assert_eq!(made.file.expires_at, Some(NOW + DAY));
    assert_eq!(made.file.content_version, 1);
    assert_eq!(made.upload.expires_at, NOW + 900_000);
    assert!(made.file.storage_key.ends_with("/site_photo.jpg"));
    assert!(made.file.storage_key.contains("/images/2026/01/"));
}

#[test]
fn upload_intent_refuses_an_expiry_past_the_calendar() {
    let mut core = CoreServices::in_memory();
    let late = MAX_TIMESTAMP - 1000;
    match core.files.create_upload_intent_at(&mut core.ports, intent(7, true), late, 9) {
        Err(CoreError::Internal(m)) => assert_eq!(m, "instant out of range"),
        other => panic!("unexpected {other:?}"),
    }
    assert!(core.ports.store.files.is_empty());
}

#[test]
fn share_link_at_a_time_expires_after_its_ttl() {
    let mut core = CoreServices::in_memory();
    let tenant = 0x77u128;
    let made = core
        .files
        .create_upload_intent_at(&mut core.ports, intent(tenant, false), NOW, 0x99)
        .unwrap();
    core.ports.store.files[0].status = FileObjectStatus::Available;
    let cmd = |ttl: Option<i64>| CreatePublicShareLinkCommand {
        tenant_id: tenant,
        file_id: made.file.id,
        created_by: None,
        ttl_hours: ttl,
        max_downloads: Some(2),
    };
    let link = core.files.create_public_share_link_at(&mut core.ports, cmd(None), NOW).unwrap();
    assert_eq!(link.created_at, NOW);
    assert_eq!(link.expires_at, NOW + 72 * 3_600_000);
    assert_eq!(link.token.len(), 32);
    match core.files.create_public_share_link_at(&mut core.ports, cmd(Some(100)), MAX_TIMESTAMP - 1) {
        Err(CoreError::Internal(m)) => assert_eq!(m, "instant out of range"),
        other => panic!("unexpected {other:?}"),
    }
}

#[test]
fn share_link_serves_at_most_its_cap() {
    let mut core = CoreServices::in_memory();
    let tenant = 0x78u128;
    let made = core
        .files
        .create_upload_intent_at(&mut core.ports, intent(tenant, false), NOW, 0x98)
        .unwrap();
    core.ports.store.files[0].status = FileObjectStatus::Available;
    let link = core
        .files
        .create_public_share_link_at(
            &mut core.ports,
            CreatePublicShareLinkCommand {
                tenant_id: tenant,
                file_id: made.file.id,
                created_by: None,
                ttl_hours: None,
                max_downloads: Some(2),
            },
            NOW,
        )
        .unwrap();
    let mut served = 0;
    for _ in 0..5 {
        if core.files.resolve_public_share_link_at(&mut core.ports, &link.token, NOW + 1).is_ok() {
            served += 1;
        }
    }
    assert_eq!(served, 2);
    assert_eq!(core.ports.store.file_share_links[0].download_count, 2);
}

#[test]
fn scopes_need_an_exact_match() {
    let company_wide = AccessScope { scope_type: GrantScopeType::Company, scope_id: None };
    assert!(!scope_covers(&company_wide, &AccessScope::company(5), 1));
    assert!(scope_covers(&AccessScope::company(5), &AccessScope::company(5), 1));
    assert!(!scope_covers(&AccessScope::company(5), &AccessScope::project(5), 1));
    let own = AccessScope::self_scope(1);
    let anonymous_self = AccessScope { scope_type: GrantScopeType::SelfScope, scope_id: None };
    assert!(scope_covers(&own, &AccessScope::self_scope(1), 1));
    assert!(!scope_covers(&own, &anonymous_self, 1));
    assert!(!scope_covers(&own, &AccessScope::self_scope(2), 1));
    assert!(scope_covers(&AccessScope::tenant(), &AccessScope::project(9), 1));
}

#[test]
fn free_text_search_ignores_case_beyond_ascii() {
    let mut core = CoreServices::in_memory();
    let mut cmd = AppendAuditEntryCommand::default();
    cmd.tenant_id = 5;
    cmd.actor_type = "system".into();
    cmd.action = "document.été".into();
    cmd.resource_type = "doc".into();
    cmd.payload = "{}".into();
    core.audit.append(&mut core.ports, cmd).unwrap();
    let mut q = AuditSearchQuery::default();
    q.q = Some("ÉTÉ".into());
    let page = core.audit.search(&core.ports, 5, q, PageRequest::default()).unwrap();
    assert_eq!(page.total, 1);
}

#[test]
fn sanitizing_twice_changes_nothing() {
    let once = sanitize_filename("  site photo (final).jpg ");
    assert_eq!(once, "site_photo__final_.jpg");
    assert_eq!(sanitize_filename(&once), once);
    assert_eq!(sanitize_filename("site photo.jpg"), "site_photo.jpg");
}

#[test]
fn errors_map_to_statuses_and_public_details() {
    assert_eq!(http_status(&CoreError::not_found("file_object")), 404);
    assert_eq!(http_status(&CoreError::validation("x")), 422);
    assert_eq!(http_status(&CoreError::conflict("x")), 409);
    assert_eq!(http_status(&CoreError::forbidden("x")), 403);
    assert_eq!(http_status(&CoreError::Unauthorized), 401);
    assert_eq!(http_status(&CoreError::internal("x")), 500);
    assert_eq!(public_detail(&CoreError::internal("db down")), "internal error");
    assert_eq!(public_detail(&CoreError::forbidden("missing permission")), "forbidden");
    assert_eq!(public_detail(&CoreError::validation("bad")), "validation failed: bad");
}

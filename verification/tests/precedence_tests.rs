use proven_core::application::apis::CoreServices;
use proven_core::application::files::CreateFileUploadIntentCommand;
use proven_core::application::settings::UpsertSettingCommand;
use proven_core::application::tenancy::ProvisionTenantCommand;
use proven_core::domain::enums::{CompanyType, FileObjectStatus, SettingScopeType};
use proven_core::domain::files::VirusScanStatus;
use proven_core::domain::error::CoreError;
use proven_core::domain::permissions::USER_MANAGE;
use proven_core::infrastructure::object_storage::{PendingR2ObjectStorage, R2StorageConfig};
use proven_core::infrastructure::virus_scan::EnqueuePendingVirusScanHook;

fn setting(tenant: u128, scope: SettingScopeType, id: Option<u128>, value: &str) -> UpsertSettingCommand {
    UpsertSettingCommand {
        tenant_id: tenant,
        scope_type: scope,
        scope_id: id,
        key: "core.theme".into(),
        value: value.into(),
    }
}

#[test]
fn settings_resolve_along_user_org_tenant_platform() {
    let mut core = CoreServices::in_memory();
    let (t, u) = (11u128, 22u128);
    let read = |core: &CoreServices, scope, id| {
        core.settings
            .get(&core.ports, t, scope, id, "core.theme")
            .unwrap()
            .map(|e| e.value)
    };
    assert_eq!(read(&core, SettingScopeType::User, Some(u)), None);
    core.settings.upsert(&mut core.ports, setting(t, SettingScopeType::Platform, None, "\"p\"")).unwrap();
    assert_eq!(read(&core, SettingScopeType::User, Some(u)).as_deref(), Some("\"p\""));
    core.settings.upsert(&mut core.ports, setting(t, SettingScopeType::Tenant, None, "\"t\"")).unwrap();
    assert_eq!(read(&core, SettingScopeType::User, Some(u)).as_deref(), Some("\"t\""));
    assert_eq!(read(&core, SettingScopeType::Platform, None).as_deref(), Some("\"p\""));
    core.settings.upsert(&mut core.ports, setting(t, SettingScopeType::OrgUnit, None, "\"o\"")).unwrap();
    assert_eq!(read(&core, SettingScopeType::User, Some(u)).as_deref(), Some("\"o\""));
    assert_eq!(read(&core, SettingScopeType::Tenant, None).as_deref(), Some("\"t\""));
    core.settings.upsert(&mut core.ports, setting(t, SettingScopeType::User, Some(u), "\"u\"")).unwrap();
    assert_eq!(read(&core, SettingScopeType::User, Some(u)).as_deref(), Some("\"u\""));
    assert_eq!(read(&core, SettingScopeType::User, Some(33)).as_deref(), Some("\"o\""));
}

#[test]
fn require_permission_refuses_without_a_covering_grant() {
    let mut core = CoreServices::in_memory();
    let res = core
        .tenancy
        .provision_tenant(
            &mut core.ports,
            ProvisionTenantCommand {
                slug: "perm".into(),
                display_name: "Perm".into(),
                region_code: "CA".into(),
                owner_company_name: "Perm GC".into(),
                owner_company_type: CompanyType::Prime,
                admin_email: "admin@perm.test".into(),
                admin_display_name: "Admin".into(),
                seats_limit: 5,
            },
        )
        .unwrap();
    assert!(core.authz.require_permission(&core.ports, res.tenant.id, res.admin_user.id, USER_MANAGE).is_ok());
    match core.authz.require_permission(&core.ports, res.tenant.id, 999, USER_MANAGE) {
        Err(CoreError::Forbidden(m)) => assert_eq!(m, format!("missing permission: {USER_MANAGE}")),
        other => panic!("unexpected {other:?}"),
    }
}

#[test]
fn complete_upload_with_a_given_hook_applies_its_verdict() {
    let mut core = CoreServices::in_memory();
    let intent = core
        .files
        .create_upload_intent(
            &mut core.ports,
            CreateFileUploadIntentCommand {
                tenant_id: 5,
                content_type: Some("application/pdf".into()),
                retention_class: None,
                access_class: None,
                created_by: None,
                object_class: None,
                original_filename: Some("a.pdf".into()),
                metadata: None,
                parent_file_id: None,
                is_temporary: false,
                expires_at: None,
            },
        )
        .unwrap();
    let done = core
        .files
        .complete_upload_with(&mut core.ports, &EnqueuePendingVirusScanHook, 5, intent.file.id, "abc".into(), 7)
        .unwrap();
    assert_eq!(done.status, FileObjectStatus::Processing);
    assert_eq!(done.scan_status, VirusScanStatus::Pending);
    assert_eq!(done.checksum_sha256.as_deref(), Some("abc"));
    assert_eq!(done.byte_size, Some(7));
}

#[test]
fn pending_r2_refusal_points_to_the_file_management_notes() {
    let pending = PendingR2ObjectStorage { config: R2StorageConfig::default() };
    match pending.delete_object("k") {
        Err(CoreError::Internal(m)) => assert_eq!(
            m,
            "Cloudflare R2 signer is not wired yet — see docs/development/FILE_MANAGEMENT.md"
        ),
        other => panic!("unexpected {other:?}"),
    }
}

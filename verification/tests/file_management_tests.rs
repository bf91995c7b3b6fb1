use proven_core::application::apis::{CorePorts, CoreServices};
use proven_core::application::files::{
    ApplyScanResultCommand, CreateFileUploadIntentCommand, CreatePublicShareLinkCommand,
};
use proven_core::domain::enums::FileObjectStatus;
use proven_core::domain::files::{FileObjectClass, VirusScanOutcome, VirusScanStatus};
use proven_core::infrastructure::object_storage::{ObjectStorage, PlaceholderObjectStorage};
use proven_core::infrastructure::virus_scan::{EnqueuePendingVirusScanHook, VirusScanHook};
use uuid::Uuid;

fn new_tenant() -> u128 {
    Uuid::new_v4().as_u128()
}

fn intent_command(
    tenant_id: u128,
    content_type: &str,
    object_class: FileObjectClass,
    original_filename: Option<&str>,
) -> CreateFileUploadIntentCommand {
    CreateFileUploadIntentCommand {
        tenant_id,
        content_type: Some(content_type.into()),
        retention_class: None,
        access_class: None,
        created_by: None,
        object_class: Some(object_class),
        original_filename: original_filename.map(|s| s.to_string()),
        metadata: None,
        parent_file_id: None,
        is_temporary: false,
        expires_at: None,
    }
}

#[test]
fn upload_scan_download_and_share_flow() {
    let mut core = CoreServices::in_memory();
    let tenant_id = new_tenant();

    let mut cmd = intent_command(tenant_id, "image/jpeg", FileObjectClass::Photo, Some("site photo.jpg"));
    cmd.metadata = Some("{\"source\":\"mobile\"}".into());
    let intent = core.files.create_upload_intent(&mut core.ports, cmd).expect("intent");

    assert_eq!(intent.file.status, FileObjectStatus::PendingUpload);
    assert_eq!(intent.file.object_class, FileObjectClass::Photo);
    assert!(intent.upload.placeholder);
    assert!(intent.file.storage_key.contains("/images/"));
    assert!(
        intent.file.original_filename.as_deref() == Some("site photo.jpg")
            || intent.file.storage_key.contains("site_photo.jpg")
    );

    let available = core
        .files
        .complete_upload(&mut core.ports, tenant_id, intent.file.id, "abc123".into(), 1024)
        .expect("complete + passthrough scan");
    assert_eq!(available.status, FileObjectStatus::Available);
    assert_eq!(available.scan_status, VirusScanStatus::Clean);

    let private = core
        .files
        .create_private_download_link(&mut core.ports, tenant_id, available.id, None)
        .expect("private link");
    assert_eq!(private.download.method, "GET");

    let share = core
        .files
        .create_public_share_link(
            &mut core.ports,
            CreatePublicShareLinkCommand {
                tenant_id,
                file_id: available.id,
                created_by: None,
                ttl_hours: Some(1),
                max_downloads: Some(2),
            },
        )
        .expect("public share");

    let resolved = core
        .files
        .resolve_public_share_link(&mut core.ports, &share.token)
        .expect("resolve share");
    assert_eq!(resolved.file_id, available.id);
}

#[test]
fn versioning_and_metadata() {
    let mut core = CoreServices::in_memory();
    let tenant_id = new_tenant();

    let mut cmd = intent_command(tenant_id, "application/pdf", FileObjectClass::Pdf, Some("drawing.pdf"));
    cmd.retention_class = Some("evidence".into());
    let v1 = core.files.create_upload_intent(&mut core.ports, cmd).expect("v1 intent");
    core.files
        .complete_upload(&mut core.ports, tenant_id, v1.file.id, "v1".into(), 10)
        .expect("v1 complete");

    let mut cmd = intent_command(tenant_id, "application/pdf", FileObjectClass::Pdf, Some("drawing-v2.pdf"));
    cmd.parent_file_id = Some(v1.file.id);
    let v2 = core.files.create_upload_intent(&mut core.ports, cmd).expect("v2 intent");
    assert_eq!(v2.file.content_version, 2);
    assert_eq!(v2.file.parent_file_id, Some(v1.file.id));

    let updated = core
        .files
        .update_metadata(
            &mut core.ports,
            tenant_id,
            v1.file.id,
            "{\"sensitivity\":\"restricted\"}".into(),
            None,
        )
        .expect("metadata");
    let metadata: serde_json::Value = serde_json::from_str(&updated.metadata).expect("metadata is JSON");
    assert_eq!(metadata["sensitivity"], serde_json::Value::from("restricted"));

    let versions = core
        .files
        .list_versions(&core.ports, tenant_id, v1.file.id)
        .expect("versions");
    assert!(versions.len() >= 2);
    assert_eq!(versions[0].content_version, 1);
    assert_eq!(versions[1].content_version, 2);
}

#[test]
fn temporary_upload_expiry_candidates() {
    let mut core = CoreServices::in_memory();
    let tenant_id = new_tenant();
    let past = chrono::Utc::now().timestamp_millis() - 3_600_000;

    let mut cmd = intent_command(tenant_id, "application/octet-stream", FileObjectClass::Attachment, None);
    cmd.is_temporary = true;
    cmd.expires_at = Some(past);
    let intent = core.files.create_upload_intent(&mut core.ports, cmd).expect("temp");

    let expired = core
        .files
        .list_expired_temporaries(&core.ports, tenant_id, chrono::Utc::now().timestamp_millis())
        .expect("list");
    assert_eq!(expired.len(), 1);
    assert_eq!(expired[0].id, intent.file.id);
}

#[test]
fn content_type_gated_by_class() {
    let mut core = CoreServices::in_memory();
    let err = core.files.create_upload_intent(
        &mut core.ports,
        intent_command(new_tenant(), "video/mp4", FileObjectClass::Photo, None),
    );
    assert!(err.is_err());
}

#[test]
fn enqueue_scan_hook_leaves_processing() {
    let mut ports = CorePorts::in_memory();
    ports.virus_scan = VirusScanHook::EnqueuePending(EnqueuePendingVirusScanHook);
    ports.object_storage = ObjectStorage::Placeholder(PlaceholderObjectStorage::new());
    let mut core = CoreServices::new(ports);
    let tenant_id = new_tenant();

    let intent = core
        .files
        .create_upload_intent(
            &mut core.ports,
            intent_command(tenant_id, "application/pdf", FileObjectClass::Certificate, Some("cert.pdf")),
        )
        .expect("intent");
    let processing = core
        .files
        .complete_upload(&mut core.ports, tenant_id, intent.file.id, "hash".into(), 99)
        .expect("complete");
    assert_eq!(processing.status, FileObjectStatus::Processing);
    assert_eq!(processing.scan_status, VirusScanStatus::Pending);

    let clean = core
        .files
        .apply_scan_result(
            &mut core.ports,
            ApplyScanResultCommand {
                tenant_id,
                file_id: processing.id,
                outcome: VirusScanOutcome::Clean { detail: Some("clamav_ok".into()) },
                actor_user_id: None,
            },
        )
        .expect("worker callback");
    assert_eq!(clean.status, FileObjectStatus::Available);

    let infected_intent = core
        .files
        .create_upload_intent(
            &mut core.ports,
            intent_command(tenant_id, "application/pdf", FileObjectClass::Drawing, None),
        )
        .expect("intent2");
    let pending = core
        .files
        .complete_upload(&mut core.ports, tenant_id, infected_intent.file.id, "x".into(), 1)
        .expect("complete2");
    let quarantined = core
        .files
        .apply_scan_result(
            &mut core.ports,
            ApplyScanResultCommand {
                tenant_id,
                file_id: pending.id,
                outcome: VirusScanOutcome::Infected { detail: Some("eicar".into()) },
                actor_user_id: None,
            },
        )
        .expect("quarantine");
    assert_eq!(quarantined.status, FileObjectStatus::Quarantined);

    let blocked = core
        .files
        .create_private_download_link(&mut core.ports, tenant_id, quarantined.id, None);
    assert!(blocked.is_err());
}

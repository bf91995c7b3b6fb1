use proven_core::application::apis::CoreServices;
use proven_core::application::audit::{digest_payload, AppendAuditEntryCommand};
use proven_core::application::tenancy::{ProvisionTenantCommand, ProvisionTenantResult};
use proven_core::domain::audit::{AuditChange, AuditRetentionPolicy, AuditSearchQuery};
use proven_core::domain::enums::CompanyType;
use proven_core::page::PageRequest;
use uuid::Uuid;

fn provision_audit_tenant(core: &mut CoreServices) -> ProvisionTenantResult {
    core.tenancy
        .provision_tenant(
            &mut core.ports,
            ProvisionTenantCommand {
                slug: "acme-audit".into(),
                display_name: "Acme Construction".into(),
                region_code: "CA".into(),
                owner_company_name: "Acme GC Ltd".into(),
                owner_company_type: CompanyType::Prime,
                admin_email: "admin@acme-audit.test".into(),
                admin_display_name: "Acme Admin".into(),
                seats_limit: 25,
            },
        )
        .expect("provision_tenant should succeed")
}

fn command(result: &ProvisionTenantResult, action: &str, resource_type: &str, payload: &str) -> AppendAuditEntryCommand {
    let mut cmd = AppendAuditEntryCommand::default();
    cmd.tenant_id = result.tenant.id;
    cmd.actor_user_id = Some(result.admin_user.id);
    cmd.actor_type = "user".into();
    cmd.action = action.into();
    cmd.resource_type = resource_type.into();
    cmd.payload = payload.into();
    cmd
}

fn search(core: &CoreServices, tenant_id: u128, query: AuditSearchQuery) -> proven_core::page::Page<proven_core::domain::models::AuditEntry> {
    core.audit
        .search(&core.ports, tenant_id, query, PageRequest::default())
        .expect("search should succeed")
}

#[test]
fn record_captures_user_action_module_project_company_ip_device_changes() {
    let mut core = CoreServices::in_memory();
    let result = provision_audit_tenant(&mut core);
    let project_id = Uuid::new_v4().as_u128();
    let company_id = Uuid::new_v4().as_u128();

    let mut cmd = command(&result, "safety.activity.submitted", "safety_activity", "{\"activity\":\"toolbox_talk\"}");
    cmd.module_key = Some("safety".into());
    cmd.category = Some("data".into());
    cmd.project_id = Some(project_id);
    cmd.company_id = Some(company_id);
    cmd.ip_address = Some("203.0.113.7".into());
    cmd.device_id = Some("device-42".into());
    cmd.changes = vec![AuditChange {
        field: "status".into(),
        old: Some("\"draft\"".into()),
        new: Some("\"submitted\"".into()),
    }];
    let entry = core.audit.record(&mut core.ports, cmd).expect("record should succeed");

    assert_eq!(entry.module_key.as_deref(), Some("safety"));
    assert_eq!(entry.category, "data");
    assert_eq!(entry.outcome, "success", "outcome should default to success");
    assert_eq!(entry.project_id, Some(project_id));
    assert_eq!(entry.company_id, Some(company_id));
    assert_eq!(entry.ip_address.as_deref(), Some("203.0.113.7"));
    assert_eq!(entry.device_id.as_deref(), Some("device-42"));
    assert_eq!(entry.actor_user_id, Some(result.admin_user.id));
    assert_eq!(entry.action, "safety.activity.submitted");

    let parsed: serde_json::Value = serde_json::from_str(&entry.changes).expect("changes are JSON");
    let changes = parsed.as_array().expect("changes should serialize as a JSON array");
    assert_eq!(changes.len(), 1);
    assert_eq!(changes[0]["field"], serde_json::Value::from("status"));
    assert_eq!(changes[0]["old"], serde_json::Value::from("draft"));
    assert_eq!(changes[0]["new"], serde_json::Value::from("submitted"));
}

#[test]
fn search_filters_by_module_and_project() {
    let mut core = CoreServices::in_memory();
    let result = provision_audit_tenant(&mut core);
    let safety_project = Uuid::new_v4().as_u128();
    let documents_project = Uuid::new_v4().as_u128();

    let mut cmd = command(&result, "safety.activity.submitted", "safety_activity", "{}");
    cmd.module_key = Some("safety".into());
    cmd.project_id = Some(safety_project);
    core.audit.append(&mut core.ports, cmd).expect("append should succeed");

    let mut cmd = command(&result, "documents.version.published", "document_version", "{}");
    cmd.module_key = Some("documents".into());
    cmd.project_id = Some(documents_project);
    core.audit.append(&mut core.ports, cmd).expect("append should succeed");

    let mut q = AuditSearchQuery::default();
    q.module_key = Some("safety".to_string());
    let safety_results = search(&core, result.tenant.id, q);
    assert_eq!(safety_results.items.len(), 1);
    assert_eq!(safety_results.items[0].module_key.as_deref(), Some("safety"));

    let mut q = AuditSearchQuery::default();
    q.project_id = Some(documents_project);
    let project_results = search(&core, result.tenant.id, q);
    assert_eq!(project_results.items.len(), 1);
    assert_eq!(project_results.items[0].action, "documents.version.published");

    let mut q = AuditSearchQuery::default();
    q.module_key = Some("training".to_string());
    assert!(search(&core, result.tenant.id, q).items.is_empty());
}

#[test]
fn old_new_value_and_changes_round_trip() {
    let mut core = CoreServices::in_memory();
    let result = provision_audit_tenant(&mut core);
    let old_value = "{\"seats_limit\":25}".to_string();
    let new_value = "{\"seats_limit\":50}".to_string();

    let mut cmd = command(&result, "core.license.updated", "license", "{}");
    cmd.old_value = Some(old_value.clone());
    cmd.new_value = Some(new_value.clone());
    cmd.changes = vec![AuditChange {
        field: "seats_limit".into(),
        old: Some("25".into()),
        new: Some("50".into()),
    }];
    let entry = core.audit.append(&mut core.ports, cmd).expect("append should succeed");
    assert_eq!(entry.old_value, Some(old_value.clone()));
    assert_eq!(entry.new_value, Some(new_value.clone()));

    let mut q = AuditSearchQuery::default();
    q.action = Some("core.license.updated".to_string());
    let page = search(&core, result.tenant.id, q);
    let fetched = page.items.first().expect("entry should be found");
    assert_eq!(fetched.old_value, Some(old_value));
    assert_eq!(fetched.new_value, Some(new_value));
    assert_eq!(fetched.changes, entry.changes);
    assert_eq!(fetched.changes, "[{\"field\":\"seats_limit\",\"new\":50,\"old\":25}]");
}

#[test]
fn export_job_completes_with_entries() {
    let mut core = CoreServices::in_memory();
    let result = provision_audit_tenant(&mut core);

    for i in 0..3 {
        let cmd = command(&result, &format!("test.export.{i}"), "test_resource", &format!("{{\"i\":{i}}}"));
        core.audit.append(&mut core.ports, cmd).expect("append should succeed");
    }

    let mut q = AuditSearchQuery::default();
    q.action = Some("test.export.0".to_string());
    let job = core
        .audit
        .request_export(&mut core.ports, result.tenant.id, Some(result.admin_user.id), q)
        .expect("request_export should succeed");
    assert_eq!(job.status, "completed");
    assert_eq!(job.entry_count, Some(1));
    assert!(job
        .storage_key
        .as_deref()
        .expect("storage_key should be set")
        .starts_with(&format!("audit-exports/{}/", Uuid::from_u128(result.tenant.id))));
    assert!(job.completed_at.is_some());

    let fetched = core
        .audit
        .get_export(&core.ports, result.tenant.id, job.id)
        .expect("get_export should succeed");
    assert_eq!(fetched.status, "completed");
    assert_eq!(fetched.entry_count, Some(1));

    let full_job = core
        .audit
        .request_export(&mut core.ports, result.tenant.id, Some(result.admin_user.id), AuditSearchQuery::default())
        .expect("request_export should succeed");
    assert!(full_job.entry_count.unwrap_or(0) >= 4);
}

#[test]
fn retention_policy_lists_purge_candidates_without_deleting() {
    let mut core = CoreServices::in_memory();
    let result = provision_audit_tenant(&mut core);

    let mut cmd = command(&result, "test.retention.candidate", "test_resource", "{}");
    cmd.retention_class = Some("standard".to_string());
    core.audit.append(&mut core.ports, cmd).expect("append should succeed");

    let now = chrono::Utc::now().timestamp_millis();
    core.audit
        .upsert_retention_policy(
            &mut core.ports,
            AuditRetentionPolicy {
                tenant_id: result.tenant.id,
                standard_days: 1,
                security_days: 2555,
                compliance_days: 2555,
                restricted_days: 3650,
                export_before_purge: true,
                updated_at: now,
            },
        )
        .expect("upsert_retention_policy should succeed");

    let policy = core
        .audit
        .get_retention_policy(&core.ports, result.tenant.id)
        .expect("get_retention_policy should succeed");
    assert_eq!(policy.standard_days, 1);

    let too_soon = core
        .list_audit_purge_candidates(result.tenant.id, chrono::Utc::now().timestamp_millis())
        .expect("list_purge_candidates should succeed");
    assert!(too_soon.is_empty(), "nothing should be eligible immediately after append");

    let count_before = search(&core, result.tenant.id, AuditSearchQuery::default()).total;
    let later = chrono::Utc::now().timestamp_millis() + 10 * 86_400_000;
    let candidates = core
        .list_audit_purge_candidates(result.tenant.id, later)
        .expect("list_purge_candidates should succeed");
    assert!(!candidates.is_empty(), "standard-class entries older than the 1-day policy should be eligible");
    let count_after = search(&core, result.tenant.id, AuditSearchQuery::default()).total;
    assert_eq!(count_before, count_after);
}

#[test]
fn append_only_digest_stable() {
    let mut core = CoreServices::in_memory();
    let result = provision_audit_tenant(&mut core);
    let payload = "{\"hello\":\"world\"}";

    let entry1 = core
        .audit
        .append(&mut core.ports, command(&result, "test.action", "test_resource", payload))
        .expect("append should succeed");
    let expected_digest = digest_payload(payload).expect("digest should compute");
    assert_eq!(entry1.payload_digest, expected_digest);
    assert!(entry1.integrity_hash.is_some(), "every appended entry should get an integrity hash");

    let entry2 = core
        .audit
        .append(&mut core.ports, command(&result, "test.action", "test_resource", payload))
        .expect("append should succeed");
    assert_ne!(entry1.id, entry2.id);
    assert_eq!(entry1.payload_digest, entry2.payload_digest);
    assert_eq!(entry2.integrity_prev_hash, entry1.integrity_hash);
    assert_ne!(entry2.integrity_hash, entry1.integrity_hash);
}

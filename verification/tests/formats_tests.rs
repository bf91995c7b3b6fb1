use proven_core::api::{
    AppendAuditRequest, AuditSearchHttpQuery, CorePrincipal, CreateFileUploadIntentRequest,
    GrantAccessRequest, ProvisionTenantRequest,
};
use proven_core::domain::enums::CompanyType;
use proven_core::api::{
    header_uuid, parse_object_class, principal_from_headers, ApplyScanResultRequest,
    ExtractorRejection,
};
use proven_core::application::audit::{digest_payload, export_storage_key};
use proven_core::application::files::sanitize_filename;
use proven_core::domain::codes::{
    grant_kind_str, parse_grant_kind, parse_role_kind, parse_scope_type, parse_tenant_status,
    role_kind_str, scope_type_str, tenant_status_str,
};
use proven_core::domain::enums::{GrantKind, GrantScopeType, RoleKind, TenantStatus};
use proven_core::domain::error::CoreError;
use proven_core::domain::files::{FileObjectClass, VirusScanOutcome};
use proven_core::infrastructure::object_storage::{
    trim_trailing_slashes, PendingR2ObjectStorage, PlaceholderObjectStorage, R2StorageConfig,
};
use proven_core::page::{paginate, PageRequest};
use sha2::Digest;

const NOW: i64 = 1_767_225_600_000;

#[test]
fn sanitize_filename_replaces_unsafe_characters() {
    assert_eq!(sanitize_filename("  my report (v2).pdf "), "my_report__v2_.pdf");
    assert_eq!(sanitize_filename("a-b_c.D9"), "a-b_c.D9");
    assert_eq!(sanitize_filename("résumé.txt"), "r_sum_.txt");
}

#[test]
fn sanitize_filename_defaults_blank_names() {
    assert_eq!(sanitize_filename(""), "original");
    assert_eq!(sanitize_filename(" \t\n "), "original");
}

#[test]
fn sanitize_filename_keeps_at_most_128_characters() {
    let long = "x".repeat(300);
    let safe = sanitize_filename(&long);
    assert_eq!(safe.len(), 128);
    assert!(safe.chars().all(|c| c == 'x'));
}

#[test]
fn digest_payload_is_hex_sha256_of_the_text() {
    let payload = "{\"a\":1}";
    let expected = hex::encode(sha2::Sha256::digest(payload.as_bytes()));
    let got = digest_payload(payload).unwrap();
    assert_eq!(got, expected);
    assert_eq!(got.len(), 64);
    assert_eq!(
        digest_payload("{}").unwrap(),
        "44136fa355b3678a1146ad16f7e8649e94fb4fc21fe77e8310c060f61caaff8a"
    );
}

#[test]
fn export_storage_key_names_tenant_and_job() {
    let tenant = 0x0123_4567_89ab_cdef_0123_4567_89ab_cdefu128;
    let job = 0xffee_ddcc_bbaa_9988_7766_5544_3322_1100u128;
    assert_eq!(
        export_storage_key(tenant, job),
        "audit-exports/01234567-89ab-cdef-0123-456789abcdef/ffeeddcc-bbaa-9988-7766-554433221100.json"
    );
}

#[test]
fn core_error_messages_match_each_variant() {
    assert_eq!(CoreError::not_found("tenant").message(), "tenant not found");
    assert_eq!(CoreError::validation("bad").message(), "validation failed: bad");
    assert_eq!(CoreError::conflict("dup").message(), "conflict: dup");
    assert_eq!(CoreError::forbidden("no").message(), "forbidden: no");
    assert_eq!(CoreError::Unauthorized.message(), "unauthorized");
    assert_eq!(CoreError::internal("boom").message(), "internal error: boom");
    assert_eq!(
        CoreError::internal_with("database error: ", "gone").message(),
        "internal error: database error: gone"
    );
}

#[test]
fn paginate_cuts_the_requested_window() {
    let all: Vec<u32> = (0..10).collect();
    let page = paginate(all.clone(), PageRequest { limit: 3, offset: 4 });
    assert_eq!(page.items, vec![4, 5, 6]);
    assert_eq!(page.total, 10);
    assert_eq!(page.limit, 3);
    assert_eq!(page.offset, 4);

    let tail = paginate(all.clone(), PageRequest { limit: 5, offset: 8 });
    assert_eq!(tail.items, vec![8, 9]);

    let past = paginate(all, PageRequest { limit: 5, offset: 10 });
    assert!(past.items.is_empty());
    assert_eq!(past.total, 10);

    let d = PageRequest::default();
    assert_eq!((d.limit, d.offset), (50, 0));
}

#[test]
fn object_class_names_aliases_and_prefixes() {
    assert_eq!(FileObjectClass::parse("image"), Some(FileObjectClass::Photo));
    assert_eq!(FileObjectClass::parse("certs"), Some(FileObjectClass::Certificate));
    assert_eq!(FileObjectClass::parse("spreadsheet"), None);
    assert_eq!(FileObjectClass::Certificate.storage_prefix(), "certs");
    assert_eq!(FileObjectClass::Photo.as_str(), "photo");
    assert!(FileObjectClass::Photo.allows_content_type("IMAGE/PNG; charset=binary"));
    assert!(!FileObjectClass::Pdf.allows_content_type("image/png"));
    assert!(!FileObjectClass::Attachment.allows_content_type("  ;x"));
    match parse_object_class("nope") {
        Err(CoreError::Validation(m)) => assert_eq!(m, "unknown object_class 'nope'"),
        other => panic!("unexpected {other:?}"),
    }
    assert_eq!(parse_object_class("drawings").unwrap(), FileObjectClass::Drawing);
}

#[test]
fn codes_round_trip_and_reject_unknown_words() {
    for k in [RoleKind::System, RoleKind::TenantCustom, RoleKind::Membership, RoleKind::Company, RoleKind::Project, RoleKind::Temporary] {
        assert_eq!(parse_role_kind(role_kind_str(k)).unwrap(), k);
    }
    for k in [GrantKind::Standard, GrantKind::Delegation, GrantKind::Temporary, GrantKind::BreakGlass] {
        assert_eq!(parse_grant_kind(grant_kind_str(k)).unwrap(), k);
    }
    for s in [GrantScopeType::Tenant, GrantScopeType::OrgUnit, GrantScopeType::Company, GrantScopeType::Project, GrantScopeType::Team, GrantScopeType::SelfScope] {
        assert_eq!(parse_scope_type(scope_type_str(s)).unwrap(), s);
    }
    assert_eq!(tenant_status_str(TenantStatus::Active), "active");
    match parse_tenant_status("frozen") {
        Err(CoreError::Internal(m)) => assert_eq!(m, "unknown tenant status: frozen"),
        other => panic!("unexpected {other:?}"),
    }
}

#[test]
fn trailing_slashes_are_trimmed() {
    assert_eq!(trim_trailing_slashes("https://cdn.example///"), "https://cdn.example");
    assert_eq!(trim_trailing_slashes("plain"), "plain");
    assert_eq!(trim_trailing_slashes("///"), "");
}

#[test]
fn placeholder_storage_issues_upload_and_download_descriptors() {
    let storage = PlaceholderObjectStorage::with_base_url("https://files.example/".to_string());
    let put = storage.presign_put_at("t/images/a.png", "image/png", 900, NOW).unwrap();
    assert_eq!(put.url, "https://files.example/upload/t/images/a.png");
    assert_eq!(put.method, "PUT");
    assert_eq!(put.expires_at, NOW + 900_000);
    assert!(put.placeholder);
    assert_eq!(
        put.headers,
        "{\"Content-Type\":\"image/png\",\"x-proven-storage\":\"placeholder\"}"
    );

    let get = storage.presign_get_at("t/images/a.png", 60, Some("a.png"), NOW).unwrap();
    assert_eq!(get.url, "https://files.example/download/t/images/a.png");
    assert_eq!(get.method, "GET");
    assert_eq!(get.expires_at, NOW + 60_000);
    assert_eq!(
        get.headers,
        "{\"Content-Disposition\":\"attachment; filename=\\\"a.png\\\"\",\"x-proven-storage\":\"placeholder\"}"
    );
    let bare = storage.presign_get_at("k", 1, None, NOW).unwrap();
    assert_eq!(bare.headers, "{\"x-proven-storage\":\"placeholder\"}");
    assert!(storage.delete_object("k").is_ok());
    assert_eq!(PlaceholderObjectStorage::new().public_base_url, "https://r2.placeholder.local");
}

#[test]
fn r2_configuration_and_pending_adapter_fail_closed() {
    let mut cfg = R2StorageConfig::default();
    assert!(!cfg.configured());
    assert_eq!(cfg.resolved_endpoint(), None);
    cfg.account_id = Some("acct".to_string());
    cfg.bucket = Some("b".to_string());
    cfg.access_key_id = Some("k".to_string());
    cfg.secret_access_key = Some(String::new());
    assert!(!cfg.configured());
    cfg.secret_access_key = Some("s".to_string());
    assert!(cfg.configured());
    assert_eq!(
        cfg.resolved_endpoint().as_deref(),
        Some("https://acct.r2.cloudflarestorage.com")
    );
    cfg.endpoint = Some("http://localhost:9000".to_string());
    assert_eq!(cfg.resolved_endpoint().as_deref(), Some("http://localhost:9000"));

    let pending = PendingR2ObjectStorage { config: cfg };
    assert!(matches!(pending.presign_put("k", "image/png", 60), Err(CoreError::Internal(_))));
    assert!(matches!(pending.presign_get("k", 60, None), Err(CoreError::Internal(_))));
    assert!(matches!(pending.delete_object("k"), Err(CoreError::Internal(_))));
}

#[test]
fn headers_name_the_principal() {
    let t = "11111111-2222-3333-4444-555555555555";
    let u = "aaaaaaaa-bbbb-cccc-dddd-eeeeeeeeeeee";
    let p = principal_from_headers(Some(t), Some(u)).unwrap();
    assert_eq!(p.tenant_id, 0x11111111_2222_3333_4444_555555555555u128);
    assert_eq!(p.user_id, 0xaaaaaaaa_bbbb_cccc_dddd_eeeeeeeeeeeeu128);
    assert_eq!(p.principal_id(), p.user_id);

    assert!(matches!(principal_from_headers(None, Some(u)), Err(ExtractorRejection::Unauthorized)));
    match principal_from_headers(Some(t), Some("not-a-uuid")) {
        Err(ExtractorRejection::BadRequest(m)) => assert_eq!(m, "invalid x-proven-user-id header"),
        other => panic!("unexpected {other:?}"),
    }
    match header_uuid(Some("zz"), "x-tenant-id") {
        Err(ExtractorRejection::BadRequest(m)) => assert_eq!(m, "invalid x-tenant-id header"),
        other => panic!("unexpected {other:?}"),
    }
}

#[test]
fn scan_result_bodies_name_a_verdict() {
    let body = |o: &str, d: Option<&str>| ApplyScanResultRequest {
        outcome: o.to_string(),
        detail: d.map(|s| s.to_string()),
    };
    assert!(matches!(body("clean", None).into_outcome(), Ok(VirusScanOutcome::Clean { detail: None })));
    assert!(matches!(
        body("infected", Some("eicar")).into_outcome(),
        Ok(VirusScanOutcome::Infected { detail: Some(d) }) if d == "eicar"
    ));
    assert!(matches!(body("pending", None).into_outcome(), Ok(VirusScanOutcome::Pending { .. })));
    assert!(matches!(
        body("error", None).into_outcome(),
        Ok(VirusScanOutcome::Error { detail }) if detail == "scan_error"
    ));
    match body("weird", None).into_outcome() {
        Err(CoreError::Validation(m)) => assert_eq!(m, "unknown scan outcome 'weird'"),
        other => panic!("unexpected {other:?}"),
    }
}

#[test]
fn request_bodies_become_commands_with_their_defaults() {
    let principal = CorePrincipal { tenant_id: 7, user_id: 9 };

    let grant = GrantAccessRequest {
        user_id: 3,
        role_id: 4,
        scope_type: GrantScopeType::Project,
        scope_id: Some(5),
        grant_kind: None,
        expires_at: None,
    }
    .into_command(principal);
    assert_eq!(grant.tenant_id, 7);
    assert_eq!(grant.grant_kind, GrantKind::Standard);
    assert_eq!(grant.created_by, Some(9));
    assert_eq!(grant.scope.scope_id, Some(5));

    let tenant = ProvisionTenantRequest {
        slug: "s".into(),
        display_name: "d".into(),
        region_code: "CA".into(),
        owner_company_name: "o".into(),
        owner_company_type: None,
        admin_email: "a@b.c".into(),
        admin_display_name: "A".into(),
        seats_limit: None,
    }
    .into_command();
    assert_eq!(tenant.owner_company_type, CompanyType::Prime);
    assert_eq!(tenant.seats_limit, 5);

    let (query, page) = AuditSearchHttpQuery {
        actor_user_id: None,
        action: Some("a".into()),
        module_key: None,
        category: None,
        project_id: None,
        company_id: None,
        resource_type: None,
        resource_id: None,
        workflow_instance_id: None,
        signature_package_id: None,
        outcome: None,
        from: None,
        to: None,
        q: None,
        limit: None,
        offset: Some(20),
    }
    .into_query();
    assert_eq!(query.action.as_deref(), Some("a"));
    assert_eq!((page.limit, page.offset), (50, 20));

    let append = AppendAuditRequest {
        action: "x.y".into(),
        resource_type: "x".into(),
        resource_id: None,
        correlation_id: None,
        causation_id: None,
        payload: "{}".into(),
        module_key: None,
        category: None,
        outcome: None,
        project_id: None,
        company_id: None,
        old_value: None,
        new_value: None,
    }
    .into_command(principal);
    assert_eq!(append.actor_type, "user");
    assert_eq!(append.actor_user_id, Some(9));

    let intent = |class: Option<&str>| CreateFileUploadIntentRequest {
        content_type: Some("image/png".into()),
        retention_class: None,
        access_class: None,
        object_class: class.map(|c| c.to_string()),
        original_filename: None,
        metadata: None,
        parent_file_id: None,
        is_temporary: false,
    };
    assert_eq!(
        intent(Some("images")).into_command(principal).unwrap().object_class,
        Some(FileObjectClass::Photo)
    );
    assert_eq!(intent(None).into_command(principal).unwrap().object_class, None);
    match intent(Some("hologram")).into_command(principal) {
        Err(CoreError::Validation(m)) => assert_eq!(m, "unknown object_class 'hologram'"),
        other => panic!("unexpected {other:?}"),
    }
}

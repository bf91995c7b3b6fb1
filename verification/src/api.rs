//! The rules of the HTTP surface, on plain values: request bodies and the commands they become
//! (with their defaults), the acting principal read from its headers, and the wire spellings of
//! scan outcomes and content classes. Transport (routing, JSON, status codes) lives outside the
//! library.
use vstd::prelude::*;

use crate::application::audit::AppendAuditEntryCommand;
use crate::application::authz::{AuthorizeRequest, GrantAccessCommand, UpsertPermissionOverrideCommand};
use crate::application::files::{
    ApplyScanResultCommand, CreateFileUploadIntentCommand, CreatePublicShareLinkCommand,
};
use crate::application::identity::InviteUserCommand;
use crate::application::membership::{CreateTeamCommand, GrantProjectMembershipCommand};
use crate::application::tenancy::{ProvisionTenantCommand, RegisterCompanyCommand};
use crate::domain::audit::{AuditRetentionPolicy, AuditSearchQuery};
use crate::domain::authz::AccessScope;
use crate::domain::enums::{CompanyType, GrantKind, GrantScopeType, OverrideEffect};
use crate::domain::error::{error_text, is_validation, CoreError};
use crate::domain::files::{object_class_from_text, FileObjectClass, VirusScanOutcome};
use crate::domain::rbac::policies::AbacContext;
use crate::external::parse_uuid;
use crate::ids::{
    CausationId, CompanyId, CorrelationId, FileObjectId, PrincipalId, ProjectId, RoleId, TenantId,
    Timestamp, UserId, Uuid,
};
use crate::page::PageRequest;
use crate::text::{join, str_eq, text};

verus! {

broadcast use vstd::string::group_string_axioms;

/// Header naming the acting tenant.
pub const TENANT_HEADER: &'static str = "x-proven-tenant-id";
/// Header naming the acting user.
pub const USER_HEADER: &'static str = "x-proven-user-id";

/// Body of a tenant provisioning request.
#[derive(Debug)]
pub struct ProvisionTenantRequest {
    pub slug: String,
    pub display_name: String,
    pub region_code: String,
    pub owner_company_name: String,
    pub owner_company_type: Option<CompanyType>,
    pub admin_email: String,
    pub admin_display_name: String,
    pub seats_limit: Option<i32>,
}

impl ProvisionTenantRequest {
    /// The provisioning command; the owner company is a prime contractor and the license has
    /// five seats unless the request says otherwise.
    pub fn into_command(self) -> (r: ProvisionTenantCommand)
        ensures
            r.slug == self.slug,
            r.display_name == self.display_name,
            r.region_code == self.region_code,
            r.owner_company_name == self.owner_company_name,
            r.owner_company_type == match self.owner_company_type {
                Some(t) => t,
                None => CompanyType::Prime,
            },
            r.admin_email == self.admin_email,
            r.admin_display_name == self.admin_display_name,
            r.seats_limit == match self.seats_limit {
                Some(n) => n,
                None => 5,
            },
    {
        ProvisionTenantCommand {
            slug: self.slug,
            display_name: self.display_name,
            region_code: self.region_code,
            owner_company_name: self.owner_company_name,
            owner_company_type: match self.owner_company_type {
                Some(t) => t,
                None => CompanyType::Prime,
            },
            admin_email: self.admin_email,
            admin_display_name: self.admin_display_name,
            seats_limit: match self.seats_limit {
                Some(n) => n,
                None => 5,
            },
        }
    }
}

/// Body of an invitation request.
#[derive(Debug)]
pub struct InviteUserRequest {
    pub email: String,
    pub display_name: String,
}

impl InviteUserRequest {
    /// The invitation, made by `principal` into its tenant.
    pub fn into_command(self, principal: CorePrincipal) -> (r: InviteUserCommand)
        ensures
            r.tenant_id == principal.tenant_id,
            r.email == self.email,
            r.display_name == self.display_name,
            r.invited_by == Some(principal.user_id),
    {
        InviteUserCommand {
            tenant_id: principal.tenant_id,
            email: self.email,
            display_name: self.display_name,
            invited_by: Some(principal.user_id),
        }
    }
}

/// Attribute-based inputs on the wire; missing fields mean "no signal".
#[derive(Debug)]
pub struct AbacHttpContext {
    pub resource_attributes: Vec<(String, String)>,
    pub assurance_level: Option<String>,
    pub resource_state: Option<String>,
}

impl AbacHttpContext {
    /// The same signals, as the authorization policies read them.
    pub fn into_context(self) -> (r: AbacContext)
        ensures
            r.resource_attributes@ == self.resource_attributes@,
            r.assurance_level == self.assurance_level,
            r.resource_state == self.resource_state,
    {
        AbacContext {
            resource_attributes: self.resource_attributes,
            assurance_level: self.assurance_level,
            resource_state: self.resource_state,
        }
    }
}

/// Paging parameters of a listing request.
#[derive(Debug, Clone, Copy)]
pub struct AuditQuery {
    pub limit: Option<u32>,
    pub offset: Option<u32>,
}

impl AuditQuery {
    /// The page asked for: fifty items from the start unless told otherwise.
    pub fn page(&self) -> (r: PageRequest)
        ensures
            r.limit == match self.limit {
                Some(l) => l,
                None => 50,
            },
            r.offset == match self.offset {
                Some(o) => o,
                None => 0,
            },
    {
        PageRequest {
            limit: match self.limit {
                Some(l) => l,
                None => 50,
            },
            offset: match self.offset {
                Some(o) => o,
                None => 0,
            },
        }
    }
}

/// Body of a retention policy update.
#[derive(Debug, Clone, Copy)]
pub struct UpsertAuditRetentionPolicyRequest {
    pub standard_days: i32,
    pub security_days: i32,
    pub compliance_days: i32,
    pub restricted_days: i32,
    pub export_before_purge: bool,
}

impl UpsertAuditRetentionPolicyRequest {
    /// The tenant's policy with these windows, stamped `now`.
    pub fn into_policy(self, tenant_id: TenantId, now: Timestamp) -> (r: AuditRetentionPolicy)
        ensures
            r == (AuditRetentionPolicy {
                tenant_id,
                standard_days: self.standard_days,
                security_days: self.security_days,
                compliance_days: self.compliance_days,
                restricted_days: self.restricted_days,
                export_before_purge: self.export_before_purge,
                updated_at: now,
            }),
    {
        AuditRetentionPolicy {
            tenant_id,
            standard_days: self.standard_days,
            security_days: self.security_days,
            compliance_days: self.compliance_days,
            restricted_days: self.restricted_days,
            export_before_purge: self.export_before_purge,
            updated_at: now,
        }
    }
}

/// The effective value of a flag.
#[derive(Debug)]
pub struct EvaluateFlagResponse {
    pub key: String,
    pub enabled: bool,
}

/// Body reporting a finished upload.
#[derive(Debug)]
pub struct CompleteFileUploadRequest {
    pub checksum_sha256: String,
    pub byte_size: i64,
}

/// Body of a public share request.
#[derive(Debug, Clone, Copy)]
pub struct CreatePublicShareLinkRequest {
    pub ttl_hours: Option<i64>,
    pub max_downloads: Option<i32>,
}

impl CreatePublicShareLinkRequest {
    /// The share of `file_id`, made by `principal`.
    pub fn into_command(self, principal: CorePrincipal, file_id: FileObjectId) -> (r:
        CreatePublicShareLinkCommand)
        ensures
            r.tenant_id == principal.tenant_id,
            r.file_id == file_id,
            r.created_by == Some(principal.user_id),
            r.ttl_hours == self.ttl_hours,
            r.max_downloads == self.max_downloads,
    {
        CreatePublicShareLinkCommand {
            tenant_id: principal.tenant_id,
            file_id,
            created_by: Some(principal.user_id),
            ttl_hours: self.ttl_hours,
            max_downloads: self.max_downloads,
        }
    }
}

/// Request body reporting a virus scan result and an optional detail.
#[derive(Debug)]
pub struct ApplyScanResultRequest {
    pub outcome: String,
    pub detail: Option<String>,
}

/// The verdict a wire spelling names, if it names one.
pub open spec fn scan_outcome_of(outcome: Seq<char>, detail: Option<String>) -> Option<VirusScanOutcome> {
    if outcome == "clean"@ {
        Some(VirusScanOutcome::Clean { detail })
    } else if outcome == "infected"@ {
        Some(VirusScanOutcome::Infected { detail })
    } else if outcome == "pending"@ {
        Some(VirusScanOutcome::Pending { detail })
    } else {
        None
    }
}

impl ApplyScanResultRequest {
    /// The verdict this body reports; an error verdict without detail reads `scan_error`.
    pub fn into_outcome(self) -> (r: Result<VirusScanOutcome, CoreError>)
        ensures
            self.outcome@ == "error"@ ==> (r matches Ok(VirusScanOutcome::Error { detail }) && detail@
                == match self.detail {
                Some(d) => d@,
                None => "scan_error"@,
            }),
            self.outcome@ != "error"@ ==> match scan_outcome_of(self.outcome@, self.detail) {
                Some(o) => r == Ok::<VirusScanOutcome, CoreError>(o),
                None => r matches Err(e) && is_validation(
                    e,
                    "unknown scan outcome '"@ + self.outcome@ + "'"@,
                ),
            },
    {
        proof {
            reveal_strlit("clean");
            reveal_strlit("infected");
            reveal_strlit("pending");
            reveal_strlit("error");
            assert("error"@[0] != "clean"@[0]);
            assert("error"@[0] != "infected"@[0]);
            assert("error"@[0] != "pending"@[0]);
        }
        if str_eq(self.outcome.as_str(), "clean") {
            Ok(VirusScanOutcome::Clean { detail: self.detail })
        } else if str_eq(self.outcome.as_str(), "infected") {
            Ok(VirusScanOutcome::Infected { detail: self.detail })
        } else if str_eq(self.outcome.as_str(), "pending") {
            Ok(VirusScanOutcome::Pending { detail: self.detail })
        } else if str_eq(self.outcome.as_str(), "error") {
            let detail = match self.detail {
                Some(d) => d,
                None => text("scan_error"),
            };
            Ok(VirusScanOutcome::Error { detail })
        } else {
            let mut m = join("unknown scan outcome '", self.outcome.as_str());
            m.append("'");
            Err(CoreError::Validation(m))
        }
    }

    /// The scan verdict command for `file_id`, reported by `principal`.
    pub fn into_command(self, principal: CorePrincipal, file_id: FileObjectId) -> (r: Result<
        ApplyScanResultCommand,
        CoreError,
    >)
        ensures
            r matches Ok(c) ==> c.tenant_id == principal.tenant_id && c.file_id == file_id
                && c.actor_user_id == Some(principal.user_id),
            r is Err <==> (self.outcome@ != "error"@ && scan_outcome_of(self.outcome@, self.detail)
                is None),
    {
        match self.into_outcome() {
            Ok(outcome) => Ok(
                ApplyScanResultCommand {
                    tenant_id: principal.tenant_id,
                    file_id,
                    outcome,
                    actor_user_id: Some(principal.user_id),
                },
            ),
            Err(e) => Err(e),
        }
    }
}

/// A content class named on the wire (a class name or alias).
pub fn parse_object_class(raw: &str) -> (r: Result<FileObjectClass, CoreError>)
    ensures
        match object_class_from_text(raw@) {
            Some(c) => r == Ok::<FileObjectClass, CoreError>(c),
            None => r matches Err(e) && is_validation(e, "unknown object_class '"@ + raw@ + "'"@),
        },
{
    match FileObjectClass::parse(raw) {
        Some(c) => Ok(c),
        None => {
            let mut m = join("unknown object_class '", raw);
            m.append("'");
            Err(CoreError::Validation(m))
        },
    }
}

/// The acting tenant and user.
#[derive(Debug, Clone, Copy)]
pub struct CorePrincipal {
    pub tenant_id: TenantId,
    pub user_id: UserId,
}

impl CorePrincipal {
    /// The principal as an authorization subject: its user.
    pub fn principal_id(&self) -> (r: PrincipalId)
        ensures
            r == self.user_id,
    {
        self.user_id
    }
}

/// Why a request's principal could not be read from its headers.
#[derive(Debug)]
pub enum ExtractorRejection {
    /// A header is missing.
    Unauthorized,
    /// A header is not a UUID.
    BadRequest(String),
}

/// The UUID a header holds: refused as unauthorized when the header is missing, as a bad
/// request when it does not parse.
pub fn header_uuid(value: Option<&str>, name: &str) -> (r: Result<Uuid, ExtractorRejection>)
    ensures
        match value {
            None => r matches Err(ExtractorRejection::Unauthorized),
            Some(v) => match crate::external::parsed_uuid(v@) {
                Some(id) => r == Ok::<Uuid, ExtractorRejection>(id),
                None => r matches Err(ExtractorRejection::BadRequest(m)) && m@ == "invalid "@
                    + name@ + " header"@,
            },
        },
{
    match value {
        None => Err(ExtractorRejection::Unauthorized),
        Some(v) => match parse_uuid(v) {
            Some(id) => Ok(id),
            None => {
                let mut m = join("invalid ", name);
                m.append(" header");
                Err(ExtractorRejection::BadRequest(m))
            },
        },
    }
}

/// The principal named by the tenant and user headers.
pub fn principal_from_headers(tenant: Option<&str>, user: Option<&str>) -> (r: Result<
    CorePrincipal,
    ExtractorRejection,
>)
    ensures
        r matches Ok(p) ==> (tenant is Some && user is Some && crate::external::parsed_uuid(
            tenant.unwrap()@,
        ) == Some(p.tenant_id) && crate::external::parsed_uuid(user.unwrap()@) == Some(p.user_id)),
        (tenant is Some && user is Some && crate::external::parsed_uuid(tenant.unwrap()@) is Some
            && crate::external::parsed_uuid(user.unwrap()@) is Some) ==> r is Ok,
{
    let tenant_id = match header_uuid(tenant, TENANT_HEADER) {
        Ok(id) => id,
        Err(e) => {
            return Err(e);
        },
    };
    let user_id = match header_uuid(user, USER_HEADER) {
        Ok(id) => id,
        Err(e) => {
            return Err(e);
        },
    };
    Ok(CorePrincipal { tenant_id, user_id })
}


/// Body of a company registration.
#[derive(Debug)]
pub struct RegisterCompanyRequest {
    pub tenant_id: TenantId,
    pub legal_name: String,
    pub display_name: String,
    pub company_type: CompanyType,
}

impl RegisterCompanyRequest {
    /// The registration, as asked.
    pub fn into_command(self) -> (r: RegisterCompanyCommand)
        ensures
            r.tenant_id == self.tenant_id,
            r.legal_name == self.legal_name,
            r.display_name == self.display_name,
            r.company_type == self.company_type,
    {
        RegisterCompanyCommand {
            tenant_id: self.tenant_id,
            legal_name: self.legal_name,
            display_name: self.display_name,
            company_type: self.company_type,
        }
    }
}

/// Body of a grant request: a role for a user at a scope.
#[derive(Debug, Clone, Copy)]
pub struct GrantAccessRequest {
    pub user_id: UserId,
    pub role_id: RoleId,
    pub scope_type: GrantScopeType,
    pub scope_id: Option<Uuid>,
    pub grant_kind: Option<GrantKind>,
    pub expires_at: Option<Timestamp>,
}

impl GrantAccessRequest {
    /// The grant, made by `principal` in its tenant; a standard grant unless the body says
    /// otherwise.
    pub fn into_command(self, principal: CorePrincipal) -> (r: GrantAccessCommand)
        ensures
            r == (GrantAccessCommand {
                tenant_id: principal.tenant_id,
                user_id: self.user_id,
                role_id: self.role_id,
                scope: AccessScope { scope_type: self.scope_type, scope_id: self.scope_id },
                grant_kind: match self.grant_kind {
                    Some(k) => k,
                    None => GrantKind::Standard,
                },
                expires_at: self.expires_at,
                created_by: Some(principal.user_id),
            }),
    {
        GrantAccessCommand {
            tenant_id: principal.tenant_id,
            user_id: self.user_id,
            role_id: self.role_id,
            scope: AccessScope { scope_type: self.scope_type, scope_id: self.scope_id },
            grant_kind: match self.grant_kind {
                Some(k) => k,
                None => GrantKind::Standard,
            },
            expires_at: self.expires_at,
            created_by: Some(principal.user_id),
        }
    }
}

/// Body of an authorization question.
#[derive(Debug)]
pub struct AuthorizeHttpRequest {
    pub tenant_id: TenantId,
    pub principal_id: PrincipalId,
    pub permission: String,
    pub scope_type: GrantScopeType,
    pub scope_id: Option<Uuid>,
    pub abac: AbacHttpContext,
}

impl AuthorizeHttpRequest {
    /// The question, as the authorization service reads it.
    pub fn into_request(self) -> (r: AuthorizeRequest)
        ensures
            r.tenant_id == self.tenant_id,
            r.principal == self.principal_id,
            r.permission == self.permission,
            r.resource == (AccessScope { scope_type: self.scope_type, scope_id: self.scope_id }),
            r.abac.resource_attributes@ == self.abac.resource_attributes@,
            r.abac.assurance_level == self.abac.assurance_level,
            r.abac.resource_state == self.abac.resource_state,
    {
        AuthorizeRequest {
            tenant_id: self.tenant_id,
            principal: self.principal_id,
            permission: self.permission,
            resource: AccessScope { scope_type: self.scope_type, scope_id: self.scope_id },
            abac: self.abac.into_context(),
        }
    }
}

/// Body of a permission override.
#[derive(Debug)]
pub struct UpsertPermissionOverrideRequest {
    pub user_id: UserId,
    pub permission: String,
    pub effect: OverrideEffect,
    pub scope_type: GrantScopeType,
    pub scope_id: Option<Uuid>,
    pub reason: Option<String>,
    pub expires_at: Option<Timestamp>,
}

impl UpsertPermissionOverrideRequest {
    /// The override, set by `principal` in its tenant.
    pub fn into_command(self, principal: CorePrincipal) -> (r: UpsertPermissionOverrideCommand)
        ensures
            r.tenant_id == principal.tenant_id,
            r.user_id == self.user_id,
            r.permission == self.permission,
            r.effect == self.effect,
            r.scope == (AccessScope { scope_type: self.scope_type, scope_id: self.scope_id }),
            r.reason == self.reason,
            r.expires_at == self.expires_at,
            r.created_by == Some(principal.user_id),
    {
        UpsertPermissionOverrideCommand {
            tenant_id: principal.tenant_id,
            user_id: self.user_id,
            permission: self.permission,
            effect: self.effect,
            scope: AccessScope { scope_type: self.scope_type, scope_id: self.scope_id },
            reason: self.reason,
            expires_at: self.expires_at,
            created_by: Some(principal.user_id),
        }
    }
}

/// Body of a project membership grant.
#[derive(Debug)]
pub struct GrantProjectMembershipRequest {
    pub project_id: ProjectId,
    pub user_id: UserId,
    pub membership_role: String,
}

impl GrantProjectMembershipRequest {
    /// The membership of the named user, granted by `principal` in its tenant.
    pub fn into_command(self, principal: CorePrincipal) -> (r: GrantProjectMembershipCommand)
        ensures
            r.tenant_id == principal.tenant_id,
            r.project_id == self.project_id,
            r.user_id == Some(self.user_id),
            r.person_id is None,
            r.membership_role == self.membership_role,
            r.granted_by == Some(principal.user_id),
    {
        GrantProjectMembershipCommand {
            tenant_id: principal.tenant_id,
            project_id: self.project_id,
            user_id: Some(self.user_id),
            person_id: None,
            membership_role: self.membership_role,
            granted_by: Some(principal.user_id),
        }
    }
}

/// Body of a team creation.
#[derive(Debug)]
pub struct CreateTeamRequest {
    pub name: String,
    pub project_id: Option<ProjectId>,
}

impl CreateTeamRequest {
    /// The team, in `principal`'s tenant.
    pub fn into_command(self, principal: CorePrincipal) -> (r: CreateTeamCommand)
        ensures
            r.tenant_id == principal.tenant_id,
            r.name == self.name,
            r.project_id == self.project_id,
    {
        CreateTeamCommand { tenant_id: principal.tenant_id, name: self.name, project_id: self.project_id }
    }
}

/// Body of an audit append; JSON fields are carried as their text.
#[derive(Debug)]
pub struct AppendAuditRequest {
    pub action: String,
    pub resource_type: String,
    pub resource_id: Option<Uuid>,
    pub correlation_id: Option<CorrelationId>,
    pub causation_id: Option<CausationId>,
    /// JSON text; `{}` when the body has none.
    pub payload: String,
    pub module_key: Option<String>,
    pub category: Option<String>,
    pub outcome: Option<String>,
    pub project_id: Option<ProjectId>,
    pub company_id: Option<CompanyId>,
    pub old_value: Option<String>,
    pub new_value: Option<String>,
}

impl AppendAuditRequest {
    /// The entry appended on behalf of `principal`, a user actor; capture fields the body does
    /// not carry are left unset.
    pub fn into_command(self, principal: CorePrincipal) -> (r: AppendAuditEntryCommand)
        ensures
            r.tenant_id == principal.tenant_id,
            r.actor_user_id == Some(principal.user_id),
            r.actor_type@ == "user"@,
            r.action == self.action,
            r.resource_type == self.resource_type,
            r.resource_id == self.resource_id,
            r.correlation_id == self.correlation_id,
            r.causation_id == self.causation_id,
            r.payload == self.payload,
            r.module_key == self.module_key,
            r.category == self.category,
            r.outcome == self.outcome,
            r.project_id == self.project_id,
            r.company_id == self.company_id,
            r.session_id is None,
            r.ip_address is None,
            r.device_id is None,
            r.user_agent is None,
            r.workflow_instance_id is None,
            r.signature_package_id is None,
            r.old_value == self.old_value,
            r.new_value == self.new_value,
            r.changes@.len() == 0,
            r.retention_class is None,
            r.sensitivity is None,
    {
        AppendAuditEntryCommand {
            tenant_id: principal.tenant_id,
            actor_user_id: Some(principal.user_id),
            actor_type: text("user"),
            action: self.action,
            resource_type: self.resource_type,
            resource_id: self.resource_id,
            correlation_id: self.correlation_id,
            causation_id: self.causation_id,
            payload: self.payload,
            module_key: self.module_key,
            category: self.category,
            outcome: self.outcome,
            project_id: self.project_id,
            company_id: self.company_id,
            session_id: None,
            ip_address: None,
            device_id: None,
            user_agent: None,
            workflow_instance_id: None,
            signature_package_id: None,
            old_value: self.old_value,
            new_value: self.new_value,
            changes: Vec::new(),
            retention_class: None,
            sensitivity: None,
        }
    }
}

/// Filter of an audit search or export, on the wire.
#[derive(Debug)]
pub struct AuditSearchHttpQuery {
    pub actor_user_id: Option<UserId>,
    pub action: Option<String>,
    pub module_key: Option<String>,
    pub category: Option<String>,
    pub project_id: Option<ProjectId>,
    pub company_id: Option<CompanyId>,
    pub resource_type: Option<String>,
    pub resource_id: Option<Uuid>,
    pub workflow_instance_id: Option<Uuid>,
    pub signature_package_id: Option<Uuid>,
    pub outcome: Option<String>,
    pub from: Option<Timestamp>,
    pub to: Option<Timestamp>,
    pub q: Option<String>,
    /// Paging of a search (ignored by an export).
    pub limit: Option<u32>,
    pub offset: Option<u32>,
}

impl AuditSearchHttpQuery {
    /// The filter and the page asked for; fifty entries from the start unless told otherwise.
    pub fn into_query(self) -> (r: (AuditSearchQuery, PageRequest))
        ensures
            r.0 == (AuditSearchQuery {
                actor_user_id: self.actor_user_id,
                action: self.action,
                module_key: self.module_key,
                category: self.category,
                project_id: self.project_id,
                company_id: self.company_id,
                resource_type: self.resource_type,
                resource_id: self.resource_id,
                workflow_instance_id: self.workflow_instance_id,
                signature_package_id: self.signature_package_id,
                outcome: self.outcome,
                from: self.from,
                to: self.to,
                q: self.q,
            }),
            r.1.limit == match self.limit {
                Some(l) => l,
                None => 50,
            },
            r.1.offset == match self.offset {
                Some(o) => o,
                None => 0,
            },
    {
        let page = AuditQuery { limit: self.limit, offset: self.offset }.page();
        (
            AuditSearchQuery {
                actor_user_id: self.actor_user_id,
                action: self.action,
                module_key: self.module_key,
                category: self.category,
                project_id: self.project_id,
                company_id: self.company_id,
                resource_type: self.resource_type,
                resource_id: self.resource_id,
                workflow_instance_id: self.workflow_instance_id,
                signature_package_id: self.signature_package_id,
                outcome: self.outcome,
                from: self.from,
                to: self.to,
                q: self.q,
            },
            page,
        )
    }
}

/// Body of an upload intent; the content class is named on the wire.
#[derive(Debug)]
pub struct CreateFileUploadIntentRequest {
    pub content_type: Option<String>,
    pub retention_class: Option<String>,
    pub access_class: Option<String>,
    pub object_class: Option<String>,
    pub original_filename: Option<String>,
    /// JSON text.
    pub metadata: Option<String>,
    pub parent_file_id: Option<FileObjectId>,
    pub is_temporary: bool,
}

impl CreateFileUploadIntentRequest {
    /// The upload intent of `principal`, refused when the content class names none.
    pub fn into_command(self, principal: CorePrincipal) -> (r: Result<
        CreateFileUploadIntentCommand,
        CoreError,
    >)
        ensures
            match self.object_class {
                Some(raw) => match object_class_from_text(raw@) {
                    Some(c) => r matches Ok(cmd) && cmd.object_class == Some(c),
                    None => r matches Err(e) && is_validation(
                        e,
                        "unknown object_class '"@ + raw@ + "'"@,
                    ),
                },
                None => r matches Ok(cmd) && cmd.object_class is None,
            },
            r matches Ok(cmd) ==> {
                &&& cmd.tenant_id == principal.tenant_id
                &&& cmd.content_type == self.content_type
                &&& cmd.retention_class == self.retention_class
                &&& cmd.access_class == self.access_class
                &&& cmd.created_by == Some(principal.user_id)
                &&& cmd.original_filename == self.original_filename
                &&& cmd.metadata == self.metadata
                &&& cmd.parent_file_id == self.parent_file_id
                &&& cmd.is_temporary == self.is_temporary
                &&& cmd.expires_at is None
            },
    {
        let object_class = match &self.object_class {
            Some(raw) => match parse_object_class(raw.as_str()) {
                Ok(c) => Some(c),
                Err(e) => {
                    return Err(e);
                },
            },
            None => None,
        };
        Ok(
            CreateFileUploadIntentCommand {
                tenant_id: principal.tenant_id,
                content_type: self.content_type,
                retention_class: self.retention_class,
                access_class: self.access_class,
                created_by: Some(principal.user_id),
                object_class,
                original_filename: self.original_filename,
                metadata: self.metadata,
                parent_file_id: self.parent_file_id,
                is_temporary: self.is_temporary,
                expires_at: None,
            },
        )
    }
}

/// The HTTP status a Core error is answered with.
pub open spec fn status_of(err: CoreError) -> u16 {
    match err {
        CoreError::NotFound(_) => 404,
        CoreError::Validation(_) => 422,
        CoreError::Conflict(_) => 409,
        CoreError::Forbidden(_) => 403,
        CoreError::Unauthorized => 401,
        CoreError::Internal(_) => 500,
    }
}

/// The detail a problem response shows: the error's text, except that an internal error and a
/// refusal keep their reasons to the server.
pub open spec fn public_detail_of(err: CoreError) -> Seq<char> {
    match err {
        CoreError::Internal(_) => "internal error"@,
        CoreError::Forbidden(_) => "forbidden"@,
        _ => error_text(err),
    }
}

/// The HTTP status of an error (see [`status_of`]).
pub fn http_status(err: &CoreError) -> (r: u16)
    ensures
        r == status_of(*err),
{
    match err {
        CoreError::NotFound(_) => 404,
        CoreError::Validation(_) => 422,
        CoreError::Conflict(_) => 409,
        CoreError::Forbidden(_) => 403,
        CoreError::Unauthorized => 401,
        CoreError::Internal(_) => 500,
    }
}

/// The detail shown to the client for an error (see [`public_detail_of`]).
pub fn public_detail(err: &CoreError) -> (r: String)
    ensures
        r@ == public_detail_of(*err),
{
    match err {
        CoreError::Internal(_) => text("internal error"),
        CoreError::Forbidden(_) => text("forbidden"),
        _ => err.message(),
    }
}

} // verus!

//! Core aggregates, entities and value objects.
use vstd::prelude::*;

use crate::domain::authz::AccessScope;
use crate::domain::enums::{
    CompanyStatus, CompanyType, FileObjectStatus, GrantKind, LicenseStatus, MembershipStatus,
    OrgUnitStatus, OverrideEffect, RoleKind, RoleStatus, SessionStatus, SettingScopeType,
    TeamStatus, TenantStatus, UserStatus,
};
use crate::domain::files::{FileObjectClass, VirusScanStatus};
use crate::ids::{
    AuditEntryId, CausationId, CompanyId, CorrelationId, FileObjectId, GrantId, LicenseId,
    OrgUnitId, PermissionOverrideId, PersonId, ProjectId, ProjectMembershipId, RoleId, SessionId,
    TeamId, TenantId, Timestamp, UserId, Uuid,
};
use crate::text::{clone_opt_string, clone_strings, text};

verus! {

broadcast use vstd::string::group_string_axioms;

/// Workspace lifecycle, region defaults, status; the isolation root.
#[derive(Debug)]
pub struct Tenant {
    pub id: TenantId,
    pub slug: String,
    pub display_name: String,
    pub region_code: String,
    pub status: TenantStatus,
    pub created_at: Timestamp,
    pub updated_at: Timestamp,
    pub version: i64,
}

impl Clone for Tenant {
    fn clone(&self) -> (r: Self)
        ensures
            r == *self,
    {
        Tenant {
            id: self.id,
            slug: self.slug.clone(),
            display_name: self.display_name.clone(),
            region_code: self.region_code.clone(),
            status: self.status,
            created_at: self.created_at,
            updated_at: self.updated_at,
            version: self.version,
        }
    }
}

/// Legal or operating company known to a tenant (owner company or partner).
#[derive(Debug)]
pub struct Company {
    pub id: CompanyId,
    pub tenant_id: TenantId,
    pub legal_name: String,
    pub display_name: String,
    pub company_type: CompanyType,
    pub status: CompanyStatus,
    pub created_at: Timestamp,
    pub updated_at: Timestamp,
    pub version: i64,
}

impl Clone for Company {
    fn clone(&self) -> (r: Self)
        ensures
            r == *self,
    {
        Company {
            id: self.id,
            tenant_id: self.tenant_id,
            legal_name: self.legal_name.clone(),
            display_name: self.display_name.clone(),
            company_type: self.company_type,
            status: self.status,
            created_at: self.created_at,
            updated_at: self.updated_at,
            version: self.version,
        }
    }
}

/// Hierarchical unit tree node within a tenant.
#[derive(Debug)]
pub struct OrgUnit {
    pub id: OrgUnitId,
    pub tenant_id: TenantId,
    pub parent_id: Option<OrgUnitId>,
    pub name: String,
    pub status: OrgUnitStatus,
    pub created_at: Timestamp,
    pub updated_at: Timestamp,
    pub version: i64,
}

impl Clone for OrgUnit {
    fn clone(&self) -> (r: Self)
        ensures
            r == *self,
    {
        OrgUnit {
            id: self.id,
            tenant_id: self.tenant_id,
            parent_id: self.parent_id,
            name: self.name.clone(),
            status: self.status,
            created_at: self.created_at,
            updated_at: self.updated_at,
            version: self.version,
        }
    }
}

/// Human account identity that can authenticate.
#[derive(Debug)]
pub struct User {
    pub id: UserId,
    pub tenant_id: TenantId,
    pub email: String,
    pub display_name: String,
    pub status: UserStatus,
    pub person_id: Option<PersonId>,
    pub created_at: Timestamp,
    pub updated_at: Timestamp,
    pub version: i64,
}

impl Clone for User {
    fn clone(&self) -> (r: Self)
        ensures
            r == *self,
    {
        User {
            id: self.id,
            tenant_id: self.tenant_id,
            email: self.email.clone(),
            display_name: self.display_name.clone(),
            status: self.status,
            person_id: self.person_id,
            created_at: self.created_at,
            updated_at: self.updated_at,
            version: self.version,
        }
    }
}

/// Authenticatable session lifecycle and revocation ledger entry.
#[derive(Debug)]
pub struct Session {
    pub id: SessionId,
    pub tenant_id: TenantId,
    pub user_id: UserId,
    pub status: SessionStatus,
    pub expires_at: Timestamp,
    pub revoked_at: Option<Timestamp>,
    pub created_at: Timestamp,
    pub ip_address: Option<String>,
    pub user_agent: Option<String>,
}

impl Clone for Session {
    fn clone(&self) -> (r: Self)
        ensures
            r == *self,
    {
        Session {
            id: self.id,
            tenant_id: self.tenant_id,
            user_id: self.user_id,
            status: self.status,
            expires_at: self.expires_at,
            revoked_at: self.revoked_at,
            created_at: self.created_at,
            ip_address: clone_opt_string(&self.ip_address),
            user_agent: clone_opt_string(&self.user_agent),
        }
    }
}

/// Principal ↔ role ↔ scope binding: the only authorization primitive.
#[derive(Debug)]
pub struct AccessGrant {
    pub id: GrantId,
    pub tenant_id: TenantId,
    pub user_id: UserId,
    pub role_id: RoleId,
    pub scope: AccessScope,
    pub grant_kind: GrantKind,
    pub expires_at: Option<Timestamp>,
    pub revoked_at: Option<Timestamp>,
    pub created_at: Timestamp,
    pub created_by: Option<UserId>,
}

impl Clone for AccessGrant {
    fn clone(&self) -> (r: Self)
        ensures
            r == *self,
    {
        AccessGrant {
            id: self.id,
            tenant_id: self.tenant_id,
            user_id: self.user_id,
            role_id: self.role_id,
            scope: self.scope,
            grant_kind: self.grant_kind,
            expires_at: self.expires_at,
            revoked_at: self.revoked_at,
            created_at: self.created_at,
            created_by: self.created_by,
        }
    }
}

/// Principal or person ↔ project participation and membership role binding.
#[derive(Debug)]
pub struct ProjectMembership {
    pub id: ProjectMembershipId,
    pub tenant_id: TenantId,
    pub project_id: ProjectId,
    pub user_id: Option<UserId>,
    pub person_id: Option<PersonId>,
    pub membership_role: String,
    pub status: MembershipStatus,
    pub created_at: Timestamp,
    pub updated_at: Timestamp,
    pub version: i64,
}

impl Clone for ProjectMembership {
    fn clone(&self) -> (r: Self)
        ensures
            r == *self,
    {
        ProjectMembership {
            id: self.id,
            tenant_id: self.tenant_id,
            project_id: self.project_id,
            user_id: self.user_id,
            person_id: self.person_id,
            membership_role: self.membership_role.clone(),
            status: self.status,
            created_at: self.created_at,
            updated_at: self.updated_at,
            version: self.version,
        }
    }
}

/// Named group of people for operational assignment (tenant- or project-scoped).
#[derive(Debug)]
pub struct Team {
    pub id: TeamId,
    pub tenant_id: TenantId,
    pub name: String,
    pub project_id: Option<ProjectId>,
    pub status: TeamStatus,
    pub created_at: Timestamp,
    pub updated_at: Timestamp,
    pub version: i64,
}

impl Clone for Team {
    fn clone(&self) -> (r: Self)
        ensures
            r == *self,
    {
        Team {
            id: self.id,
            tenant_id: self.tenant_id,
            name: self.name.clone(),
            project_id: self.project_id,
            status: self.status,
            created_at: self.created_at,
            updated_at: self.updated_at,
            version: self.version,
        }
    }
}

/// Membership of a user or person in a team.
#[derive(Debug)]
pub struct TeamMember {
    pub team_id: TeamId,
    pub user_id: Option<UserId>,
    pub person_id: Option<PersonId>,
    pub added_at: Timestamp,
}

impl Clone for TeamMember {
    fn clone(&self) -> (r: Self)
        ensures
            r == *self,
    {
        TeamMember {
            team_id: self.team_id,
            user_id: self.user_id,
            person_id: self.person_id,
            added_at: self.added_at,
        }
    }
}

/// Stored binary's identity and metadata; the bytes live in object storage.
#[derive(Debug)]
pub struct FileObject {
    pub id: FileObjectId,
    pub tenant_id: TenantId,
    pub status: FileObjectStatus,
    pub storage_key: String,
    pub content_type: Option<String>,
    pub byte_size: Option<i64>,
    pub checksum_sha256: Option<String>,
    pub retention_class: String,
    pub access_class: String,
    pub created_by: Option<UserId>,
    pub created_at: Timestamp,
    pub updated_at: Timestamp,
    pub version: i64,
    pub object_class: FileObjectClass,
    pub original_filename: Option<String>,
    pub metadata: String,
    pub parent_file_id: Option<FileObjectId>,
    pub content_version: i32,
    pub is_temporary: bool,
    pub expires_at: Option<Timestamp>,
    pub scan_status: VirusScanStatus,
    pub scan_detail: Option<String>,
}

impl Clone for FileObject {
    fn clone(&self) -> (r: Self)
        ensures
            r == *self,
    {
        FileObject {
            id: self.id,
            tenant_id: self.tenant_id,
            status: self.status,
            storage_key: self.storage_key.clone(),
            content_type: clone_opt_string(&self.content_type),
            byte_size: self.byte_size,
            checksum_sha256: clone_opt_string(&self.checksum_sha256),
            retention_class: self.retention_class.clone(),
            access_class: self.access_class.clone(),
            created_by: self.created_by,
            created_at: self.created_at,
            updated_at: self.updated_at,
            version: self.version,
            object_class: self.object_class,
            original_filename: clone_opt_string(&self.original_filename),
            metadata: self.metadata.clone(),
            parent_file_id: self.parent_file_id,
            content_version: self.content_version,
            is_temporary: self.is_temporary,
            expires_at: self.expires_at,
            scan_status: self.scan_status,
            scan_detail: clone_opt_string(&self.scan_detail),
        }
    }
}

/// Key/value entry within a tenant, org unit or user settings scope; `value` is JSON text.
#[derive(Debug)]
pub struct SettingEntry {
    pub tenant_id: TenantId,
    pub scope_type: SettingScopeType,
    pub scope_id: Option<Uuid>,
    pub key: String,
    pub value: String,
    pub updated_at: Timestamp,
}

impl Clone for SettingEntry {
    fn clone(&self) -> (r: Self)
        ensures
            r == *self,
    {
        SettingEntry {
            tenant_id: self.tenant_id,
            scope_type: self.scope_type,
            scope_id: self.scope_id,
            key: self.key.clone(),
            value: self.value.clone(),
            updated_at: self.updated_at,
        }
    }
}

/// Runtime capability toggle.
#[derive(Debug)]
pub struct FeatureFlag {
    pub key: String,
    pub description: String,
    pub default_enabled: bool,
    pub created_at: Timestamp,
    pub updated_at: Timestamp,
}

impl Clone for FeatureFlag {
    fn clone(&self) -> (r: Self)
        ensures
            r == *self,
    {
        FeatureFlag {
            key: self.key.clone(),
            description: self.description.clone(),
            default_enabled: self.default_enabled,
            created_at: self.created_at,
            updated_at: self.updated_at,
        }
    }
}

/// Commercial entitlement governing modules, seats and limits.
#[derive(Debug)]
pub struct License {
    pub id: LicenseId,
    pub tenant_id: TenantId,
    pub status: LicenseStatus,
    pub plan_code: String,
    pub seats_limit: i32,
    pub starts_at: Timestamp,
    pub ends_at: Option<Timestamp>,
    pub created_at: Timestamp,
    pub updated_at: Timestamp,
    pub version: i64,
}

impl Clone for License {
    fn clone(&self) -> (r: Self)
        ensures
            r == *self,
    {
        License {
            id: self.id,
            tenant_id: self.tenant_id,
            status: self.status,
            plan_code: self.plan_code.clone(),
            seats_limit: self.seats_limit,
            starts_at: self.starts_at,
            ends_at: self.ends_at,
            created_at: self.created_at,
            updated_at: self.updated_at,
            version: self.version,
        }
    }
}

/// Whether a license enables a module.
#[derive(Debug)]
pub struct ModuleEntitlement {
    pub license_id: LicenseId,
    pub module_key: String,
    pub enabled: bool,
}

impl Clone for ModuleEntitlement {
    fn clone(&self) -> (r: Self)
        ensures
            r == *self,
    {
        ModuleEntitlement {
            license_id: self.license_id,
            module_key: self.module_key.clone(),
            enabled: self.enabled,
        }
    }
}

/// Explicit allow or deny of one permission for one principal, evaluated before grants.
#[derive(Debug)]
pub struct PermissionOverride {
    pub id: PermissionOverrideId,
    pub tenant_id: TenantId,
    pub user_id: UserId,
    pub permission_code: String,
    pub effect: OverrideEffect,
    pub scope: AccessScope,
    pub reason: Option<String>,
    pub expires_at: Option<Timestamp>,
    pub revoked_at: Option<Timestamp>,
    pub created_at: Timestamp,
    pub created_by: Option<UserId>,
}

impl Clone for PermissionOverride {
    fn clone(&self) -> (r: Self)
        ensures
            r == *self,
    {
        PermissionOverride {
            id: self.id,
            tenant_id: self.tenant_id,
            user_id: self.user_id,
            permission_code: self.permission_code.clone(),
            effect: self.effect,
            scope: self.scope,
            reason: clone_opt_string(&self.reason),
            expires_at: self.expires_at,
            revoked_at: self.revoked_at,
            created_at: self.created_at,
            created_by: self.created_by,
        }
    }
}

/// Role name and permission set (a system role when `tenant_id` is `None`).
#[derive(Debug)]
pub struct RoleDefinition {
    pub id: RoleId,
    pub tenant_id: Option<TenantId>,
    pub name: String,
    pub kind: RoleKind,
    pub status: RoleStatus,
    pub permissions: Vec<String>,
    pub created_at: Timestamp,
    pub updated_at: Timestamp,
    pub version: i64,
}

impl RoleDefinition {
    /// Field-by-field equality, the list field compared by its contents.
    pub open spec fn same_as(self, other: Self) -> bool {
        &&& self.id == other.id
        &&& self.tenant_id == other.tenant_id
        &&& self.name == other.name
        &&& self.kind == other.kind
        &&& self.status == other.status
        &&& self.permissions@ == other.permissions@
        &&& self.created_at == other.created_at
        &&& self.updated_at == other.updated_at
        &&& self.version == other.version
    }

    pub fn duplicate(&self) -> (r: Self)
        ensures
            r.same_as(*self),
    {
        RoleDefinition {
            id: self.id,
            tenant_id: self.tenant_id,
            name: self.name.clone(),
            kind: self.kind,
            status: self.status,
            permissions: clone_strings(&self.permissions),
            created_at: self.created_at,
            updated_at: self.updated_at,
            version: self.version,
        }
    }
}

/// Append-only record of a significant action. `payload`, `old_value`, `new_value` and `changes` (an array of field diffs) are JSON text; `payload_digest` is the SHA-256 hex digest of `payload`; `integrity_hash` chains to the tenant's previous entry.
#[derive(Debug)]
pub struct AuditEntry {
    pub id: AuditEntryId,
    pub tenant_id: TenantId,
    pub occurred_at: Timestamp,
    pub recorded_at: Timestamp,
    pub actor_user_id: Option<UserId>,
    pub actor_type: String,
    pub action: String,
    pub resource_type: String,
    pub resource_id: Option<Uuid>,
    pub correlation_id: Option<CorrelationId>,
    pub causation_id: Option<CausationId>,
    pub payload: String,
    pub payload_digest: String,
    pub module_key: Option<String>,
    pub category: String,
    pub outcome: String,
    pub project_id: Option<ProjectId>,
    pub company_id: Option<CompanyId>,
    pub session_id: Option<SessionId>,
    pub ip_address: Option<String>,
    pub device_id: Option<String>,
    pub user_agent: Option<String>,
    pub workflow_instance_id: Option<Uuid>,
    pub signature_package_id: Option<Uuid>,
    pub old_value: Option<String>,
    pub new_value: Option<String>,
    pub changes: String,
    pub retention_class: String,
    pub sensitivity: String,
    pub integrity_prev_hash: Option<String>,
    pub integrity_hash: Option<String>,
}

impl Clone for AuditEntry {
    fn clone(&self) -> (r: Self)
        ensures
            r == *self,
    {
        AuditEntry {
            id: self.id,
            tenant_id: self.tenant_id,
            occurred_at: self.occurred_at,
            recorded_at: self.recorded_at,
            actor_user_id: self.actor_user_id,
            actor_type: self.actor_type.clone(),
            action: self.action.clone(),
            resource_type: self.resource_type.clone(),
            resource_id: self.resource_id,
            correlation_id: self.correlation_id,
            causation_id: self.causation_id,
            payload: self.payload.clone(),
            payload_digest: self.payload_digest.clone(),
            module_key: clone_opt_string(&self.module_key),
            category: self.category.clone(),
            outcome: self.outcome.clone(),
            project_id: self.project_id,
            company_id: self.company_id,
            session_id: self.session_id,
            ip_address: clone_opt_string(&self.ip_address),
            device_id: clone_opt_string(&self.device_id),
            user_agent: clone_opt_string(&self.user_agent),
            workflow_instance_id: self.workflow_instance_id,
            signature_package_id: self.signature_package_id,
            old_value: clone_opt_string(&self.old_value),
            new_value: clone_opt_string(&self.new_value),
            changes: self.changes.clone(),
            retention_class: self.retention_class.clone(),
            sensitivity: self.sensitivity.clone(),
            integrity_prev_hash: clone_opt_string(&self.integrity_prev_hash),
            integrity_hash: clone_opt_string(&self.integrity_hash),
        }
    }
}

/// Whether `codes` lists a code with text `code`.
pub open spec fn lists_code(codes: Seq<String>, code: Seq<char>) -> bool {
    exists|i: int| 0 <= i < codes.len() && codes[i]@ == code
}

/// Whether a list of strings holds one with the given text.
pub fn contains_code(codes: &Vec<String>, code: &str) -> (r: bool)
    ensures
        r == lists_code(codes@, code@),
{
    let mut i: usize = 0;
    while i < codes.len()
        invariant
            i <= codes.len(),
            forall|k: int| 0 <= k < i ==> codes@[k]@ != code@,
        decreases codes.len() - i,
    {
        if crate::text::str_eq(codes[i].as_str(), code) {
            return true;
        }
        i = i + 1;
    }
    false
}

impl RoleDefinition {
    /// Active and listing the permission.
    pub open spec fn grants_permission(self, code: Seq<char>) -> bool {
        self.status == RoleStatus::Active && lists_code(self.permissions@, code)
    }

    pub fn has_permission(&self, code: &str) -> (r: bool)
        ensures
            r == self.grants_permission(code@),
    {
        self.status == RoleStatus::Active && contains_code(&self.permissions, code)
    }
}

/// Not revoked and (no expiry, or expiry still after `now`).
pub open spec fn active_at(revoked_at: Option<Timestamp>, expires_at: Option<Timestamp>, now: Timestamp) -> bool {
    revoked_at is None && match expires_at {
        Some(exp) => exp > now,
        None => true,
    }
}

impl AccessGrant {
    pub fn is_active(&self, now: Timestamp) -> (r: bool)
        ensures
            r == active_at(self.revoked_at, self.expires_at, now),
    {
        self.revoked_at.is_none() && match self.expires_at {
            Some(exp) => exp > now,
            None => true,
        }
    }
}

impl PermissionOverride {
    pub fn is_active(&self, now: Timestamp) -> (r: bool)
        ensures
            r == active_at(self.revoked_at, self.expires_at, now),
    {
        self.revoked_at.is_none() && match self.expires_at {
            Some(exp) => exp > now,
            None => true,
        }
    }
}

impl License {
    /// Trial, active or grace: a state that permits platform writes.
    pub open spec fn usable(self) -> bool {
        self.status == LicenseStatus::Trial || self.status == LicenseStatus::Active || self.status
            == LicenseStatus::Grace
    }

    pub fn is_usable(&self) -> (r: bool)
        ensures
            r == self.usable(),
    {
        match self.status {
            LicenseStatus::Trial | LicenseStatus::Active | LicenseStatus::Grace => true,
            _ => false,
        }
    }
}

/// The metadata a file object has when none is given: the empty JSON object.
pub fn default_file_metadata() -> (r: String)
    ensures
        r@ == "{}"@,
{
    text("{}")
}

/// The content version of an original upload.
pub fn default_content_version() -> (r: i32)
    ensures
        r == 1,
{
    1
}

} // verus!

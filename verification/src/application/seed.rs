//! The platform-shipped system roles every store starts with: Tenant Admin over the whole `core.*`
//! catalog, and the enterprise roles (Company Admin through Temporary Elevated).
use vstd::prelude::*;

use crate::application::store::{MemoryStore, Table};
use crate::domain::enums::{RoleKind, RoleStatus};
use crate::domain::models::RoleDefinition;
use crate::domain::permissions::{

    APPROVALS_POLICY_MANAGE, APPROVALS_REQUEST_APPROVE, APPROVALS_REQUEST_CREATE, APPROVALS_REQUEST_REJECT, AUDIT_EXPORT, AUDIT_READ, COMPANY_MANAGE, COMPANY_READ, DOCUMENTS_ACK_MANAGE, DOCUMENTS_ACL_MANAGE, DOCUMENTS_DOCUMENT_MANAGE, DOCUMENTS_DOCUMENT_READ, DOCUMENTS_VERSION_PUBLISH, EQUIPMENT_ASSET_MANAGE, EQUIPMENT_ASSET_READ, EQUIPMENT_INSPECTION_PERFORM, EQUIPMENT_READINESS_OVERRIDE, FEATURE_MODULE_ACCESS, FILE_DELETE, FILE_READ, FILE_UPLOAD, FLAGS_MANAGE, GRANT_MANAGE, GRANT_READ, LICENSE_READ, MEMBERSHIP_MANAGE, ORG_MANAGE, OVERRIDE_MANAGE, PROJECTS_PROJECT_CREATE, PROJECTS_PROJECT_MANAGE, PROJECTS_PROJECT_READ, ROLE_MANAGE, ROLE_READ, SAFETY_ACTIVITY_CREATE, SAFETY_ACTIVITY_REVIEW, SAFETY_ACTIVITY_SUBMIT, SAFETY_CA_MANAGE, SAFETY_INCIDENT_MANAGE, SETTINGS_MANAGE, TEAM_MANAGE, TENANT_MANAGE, TENANT_READ, TRAINING_ASSIGNMENT_MANAGE, TRAINING_COMPLETION_RECORD, TRAINING_COURSE_MANAGE, TRAINING_COURSE_READ, USER_INVITE, USER_MANAGE, SYSTEM_TENANT_ADMIN_ROLE_UUID, SYSTEM_COMPANY_ADMIN_ROLE_UUID, SYSTEM_PROJECT_ADMIN_ROLE_UUID, SYSTEM_SUPERVISOR_ROLE_UUID, SYSTEM_WORKER_ROLE_UUID, SYSTEM_SAFETY_COORDINATOR_ROLE_UUID, SYSTEM_EQUIPMENT_MANAGER_ROLE_UUID, SYSTEM_TRAINING_ADMIN_ROLE_UUID, SYSTEM_DOCUMENT_CONTROL_ROLE_UUID, SYSTEM_TEMPORARY_ELEVATED_ROLE_UUID,
};
use crate::external::clock_now;
use crate::ids::{representable, RoleId, Timestamp};
use crate::text::text;

verus! {

broadcast use vstd::string::group_string_axioms;

/// The codes of `codes` as strings.
pub open spec fn codes_are(codes: Seq<String>, want: Seq<&'static str>) -> bool {
    codes.len() == want.len() && forall|i: int| 0 <= i < codes.len() ==> #[trigger] codes[i]@ == want[i]@
}

fn code_strings(codes: Vec<&'static str>) -> (r: Vec<String>)
    ensures
        codes_are(r@, codes@),
{
    let mut r: Vec<String> = Vec::new();
    let mut i: usize = 0;
    while i < codes.len()
        invariant
            i <= codes.len(),
            r@.len() == i,
            forall|k: int| 0 <= k < i ==> #[trigger] r@[k]@ == codes@[k]@,
        decreases codes.len() - i,
    {
        r.push(text(codes[i]));
        i = i + 1;
    }
    r
}

/// `role` is the active, tenant-less system role `id` named `name`, created at `at`, version 1.
pub open spec fn is_system_role(
    role: RoleDefinition,
    id: RoleId,
    name: Seq<char>,
    kind: RoleKind,
    codes: Seq<&'static str>,
    at: Timestamp,
) -> bool {
    &&& role.id == id
    &&& role.tenant_id is None
    &&& role.name@ == name
    &&& role.kind == kind
    &&& role.status == RoleStatus::Active
    &&& codes_are(role.permissions@, codes)
    &&& role.created_at == at
    &&& role.updated_at == at
    &&& role.version == 1
}

fn system_role(id: RoleId, name: &str, kind: RoleKind, codes: Vec<&'static str>, at: Timestamp) -> (r:
    RoleDefinition)
    ensures
        is_system_role(r, id, name@, kind, codes@, at),
{
    RoleDefinition {
        id,
        tenant_id: None,
        name: text(name),
        kind,
        status: RoleStatus::Active,
        permissions: code_strings(codes),
        created_at: at,
        updated_at: at,
        version: 1,
    }
}

/// The permission codes of the Tenant Admin system role.
pub open spec fn tenant_admin_codes() -> Seq<&'static str> {
    seq![TENANT_READ, TENANT_MANAGE, COMPANY_MANAGE, ORG_MANAGE, USER_INVITE, USER_MANAGE, ROLE_MANAGE, GRANT_MANAGE, MEMBERSHIP_MANAGE, TEAM_MANAGE, FILE_UPLOAD, FILE_READ, FILE_DELETE, AUDIT_READ, AUDIT_EXPORT, SETTINGS_MANAGE, FLAGS_MANAGE, LICENSE_READ, COMPANY_READ, ROLE_READ, GRANT_READ, OVERRIDE_MANAGE, FEATURE_MODULE_ACCESS, PROJECTS_PROJECT_READ, PROJECTS_PROJECT_MANAGE, PROJECTS_PROJECT_CREATE]
}

/// The permission codes of the Company Admin system role.
pub open spec fn company_admin_codes() -> Seq<&'static str> {
    seq![COMPANY_READ, COMPANY_MANAGE, FEATURE_MODULE_ACCESS]
}

/// The permission codes of the Project Admin system role.
pub open spec fn project_admin_codes() -> Seq<&'static str> {
    seq![PROJECTS_PROJECT_READ, PROJECTS_PROJECT_MANAGE, MEMBERSHIP_MANAGE, SAFETY_ACTIVITY_CREATE, SAFETY_ACTIVITY_REVIEW, DOCUMENTS_DOCUMENT_READ, EQUIPMENT_ASSET_READ, TRAINING_ASSIGNMENT_MANAGE, FEATURE_MODULE_ACCESS]
}

/// The permission codes of the Supervisor system role.
pub open spec fn supervisor_codes() -> Seq<&'static str> {
    seq![PROJECTS_PROJECT_READ, SAFETY_ACTIVITY_CREATE, SAFETY_ACTIVITY_REVIEW, SAFETY_CA_MANAGE, TRAINING_COMPLETION_RECORD, DOCUMENTS_DOCUMENT_READ, EQUIPMENT_ASSET_READ, APPROVALS_REQUEST_APPROVE]
}

/// The permission codes of the Worker system role.
pub open spec fn worker_codes() -> Seq<&'static str> {
    seq![PROJECTS_PROJECT_READ, SAFETY_ACTIVITY_CREATE, SAFETY_ACTIVITY_SUBMIT, TRAINING_COURSE_READ, DOCUMENTS_DOCUMENT_READ, EQUIPMENT_INSPECTION_PERFORM, APPROVALS_REQUEST_CREATE]
}

/// The permission codes of the Safety Coordinator system role.
pub open spec fn safety_coordinator_codes() -> Seq<&'static str> {
    seq![SAFETY_ACTIVITY_CREATE, SAFETY_ACTIVITY_SUBMIT, SAFETY_ACTIVITY_REVIEW, SAFETY_INCIDENT_MANAGE, SAFETY_CA_MANAGE, PROJECTS_PROJECT_READ, DOCUMENTS_DOCUMENT_READ]
}

/// The permission codes of the Equipment Manager system role.
pub open spec fn equipment_manager_codes() -> Seq<&'static str> {
    seq![EQUIPMENT_ASSET_READ, EQUIPMENT_ASSET_MANAGE, EQUIPMENT_INSPECTION_PERFORM, EQUIPMENT_READINESS_OVERRIDE, PROJECTS_PROJECT_READ, FEATURE_MODULE_ACCESS]
}

/// The permission codes of the Training Admin system role.
pub open spec fn training_admin_codes() -> Seq<&'static str> {
    seq![TRAINING_COURSE_READ, TRAINING_COURSE_MANAGE, TRAINING_ASSIGNMENT_MANAGE, TRAINING_COMPLETION_RECORD, PROJECTS_PROJECT_READ, FEATURE_MODULE_ACCESS]
}

/// The permission codes of the Document Control system role.
pub open spec fn document_control_codes() -> Seq<&'static str> {
    seq![DOCUMENTS_DOCUMENT_READ, DOCUMENTS_DOCUMENT_MANAGE, DOCUMENTS_VERSION_PUBLISH, DOCUMENTS_ACK_MANAGE, DOCUMENTS_ACL_MANAGE, APPROVALS_REQUEST_APPROVE, FEATURE_MODULE_ACCESS]
}

/// The permission codes of the Temporary Elevated system role.
pub open spec fn temporary_elevated_codes() -> Seq<&'static str> {
    seq![EQUIPMENT_READINESS_OVERRIDE, DOCUMENTS_VERSION_PUBLISH, DOCUMENTS_ACL_MANAGE, APPROVALS_REQUEST_APPROVE, APPROVALS_REQUEST_REJECT, APPROVALS_POLICY_MANAGE, SAFETY_INCIDENT_MANAGE, SAFETY_CA_MANAGE, OVERRIDE_MANAGE]
}

/// `roles` is exactly the shipped system roles, created at `at`, Tenant Admin first.
pub open spec fn seeded_roles(roles: Seq<RoleDefinition>, at: Timestamp) -> bool {
    &&& roles.len() == 10
    &&& is_system_role(roles[0], SYSTEM_TENANT_ADMIN_ROLE_UUID, "Tenant Admin"@, RoleKind::System, tenant_admin_codes(), at)
    &&& is_system_role(roles[1], SYSTEM_COMPANY_ADMIN_ROLE_UUID, "Company Admin"@, RoleKind::Company, company_admin_codes(), at)
    &&& is_system_role(roles[2], SYSTEM_PROJECT_ADMIN_ROLE_UUID, "Project Admin"@, RoleKind::Project, project_admin_codes(), at)
    &&& is_system_role(roles[3], SYSTEM_SUPERVISOR_ROLE_UUID, "Supervisor"@, RoleKind::Project, supervisor_codes(), at)
    &&& is_system_role(roles[4], SYSTEM_WORKER_ROLE_UUID, "Worker"@, RoleKind::Project, worker_codes(), at)
    &&& is_system_role(roles[5], SYSTEM_SAFETY_COORDINATOR_ROLE_UUID, "Safety Coordinator"@, RoleKind::Project, safety_coordinator_codes(), at)
    &&& is_system_role(roles[6], SYSTEM_EQUIPMENT_MANAGER_ROLE_UUID, "Equipment Manager"@, RoleKind::Company, equipment_manager_codes(), at)
    &&& is_system_role(roles[7], SYSTEM_TRAINING_ADMIN_ROLE_UUID, "Training Admin"@, RoleKind::Company, training_admin_codes(), at)
    &&& is_system_role(roles[8], SYSTEM_DOCUMENT_CONTROL_ROLE_UUID, "Document Control"@, RoleKind::Company, document_control_codes(), at)
    &&& is_system_role(roles[9], SYSTEM_TEMPORARY_ELEVATED_ROLE_UUID, "Temporary Elevated"@, RoleKind::Temporary, temporary_elevated_codes(), at)
}

impl MemoryStore {
    /// A store holding only the system roles, stamped with the current time.
    pub fn seeded() -> (r: Self)
        ensures
            exists|at: Timestamp| representable(at as int) && seeded_roles(r.roles@, at),
            r.empty_except(set![Table::Roles]),
    {
        let mut store = MemoryStore::new();
        let now = clock_now();
        store.roles.push(system_role(SYSTEM_TENANT_ADMIN_ROLE_UUID, "Tenant Admin", RoleKind::System, vec![TENANT_READ, TENANT_MANAGE, COMPANY_MANAGE, ORG_MANAGE, USER_INVITE, USER_MANAGE, ROLE_MANAGE, GRANT_MANAGE, MEMBERSHIP_MANAGE, TEAM_MANAGE, FILE_UPLOAD, FILE_READ, FILE_DELETE, AUDIT_READ, AUDIT_EXPORT, SETTINGS_MANAGE, FLAGS_MANAGE, LICENSE_READ, COMPANY_READ, ROLE_READ, GRANT_READ, OVERRIDE_MANAGE, FEATURE_MODULE_ACCESS, PROJECTS_PROJECT_READ, PROJECTS_PROJECT_MANAGE, PROJECTS_PROJECT_CREATE], now));
        store.roles.push(system_role(SYSTEM_COMPANY_ADMIN_ROLE_UUID, "Company Admin", RoleKind::Company, vec![COMPANY_READ, COMPANY_MANAGE, FEATURE_MODULE_ACCESS], now));
        store.roles.push(system_role(SYSTEM_PROJECT_ADMIN_ROLE_UUID, "Project Admin", RoleKind::Project, vec![PROJECTS_PROJECT_READ, PROJECTS_PROJECT_MANAGE, MEMBERSHIP_MANAGE, SAFETY_ACTIVITY_CREATE, SAFETY_ACTIVITY_REVIEW, DOCUMENTS_DOCUMENT_READ, EQUIPMENT_ASSET_READ, TRAINING_ASSIGNMENT_MANAGE, FEATURE_MODULE_ACCESS], now));
        store.roles.push(system_role(SYSTEM_SUPERVISOR_ROLE_UUID, "Supervisor", RoleKind::Project, vec![PROJECTS_PROJECT_READ, SAFETY_ACTIVITY_CREATE, SAFETY_ACTIVITY_REVIEW, SAFETY_CA_MANAGE, TRAINING_COMPLETION_RECORD, DOCUMENTS_DOCUMENT_READ, EQUIPMENT_ASSET_READ, APPROVALS_REQUEST_APPROVE], now));
        store.roles.push(system_role(SYSTEM_WORKER_ROLE_UUID, "Worker", RoleKind::Project, vec![PROJECTS_PROJECT_READ, SAFETY_ACTIVITY_CREATE, SAFETY_ACTIVITY_SUBMIT, TRAINING_COURSE_READ, DOCUMENTS_DOCUMENT_READ, EQUIPMENT_INSPECTION_PERFORM, APPROVALS_REQUEST_CREATE], now));
        store.roles.push(system_role(SYSTEM_SAFETY_COORDINATOR_ROLE_UUID, "Safety Coordinator", RoleKind::Project, vec![SAFETY_ACTIVITY_CREATE, SAFETY_ACTIVITY_SUBMIT, SAFETY_ACTIVITY_REVIEW, SAFETY_INCIDENT_MANAGE, SAFETY_CA_MANAGE, PROJECTS_PROJECT_READ, DOCUMENTS_DOCUMENT_READ], now));
        store.roles.push(system_role(SYSTEM_EQUIPMENT_MANAGER_ROLE_UUID, "Equipment Manager", RoleKind::Company, vec![EQUIPMENT_ASSET_READ, EQUIPMENT_ASSET_MANAGE, EQUIPMENT_INSPECTION_PERFORM, EQUIPMENT_READINESS_OVERRIDE, PROJECTS_PROJECT_READ, FEATURE_MODULE_ACCESS], now));
        store.roles.push(system_role(SYSTEM_TRAINING_ADMIN_ROLE_UUID, "Training Admin", RoleKind::Company, vec![TRAINING_COURSE_READ, TRAINING_COURSE_MANAGE, TRAINING_ASSIGNMENT_MANAGE, TRAINING_COMPLETION_RECORD, PROJECTS_PROJECT_READ, FEATURE_MODULE_ACCESS], now));
        store.roles.push(system_role(SYSTEM_DOCUMENT_CONTROL_ROLE_UUID, "Document Control", RoleKind::Company, vec![DOCUMENTS_DOCUMENT_READ, DOCUMENTS_DOCUMENT_MANAGE, DOCUMENTS_VERSION_PUBLISH, DOCUMENTS_ACK_MANAGE, DOCUMENTS_ACL_MANAGE, APPROVALS_REQUEST_APPROVE, FEATURE_MODULE_ACCESS], now));
        store.roles.push(system_role(SYSTEM_TEMPORARY_ELEVATED_ROLE_UUID, "Temporary Elevated", RoleKind::Temporary, vec![EQUIPMENT_READINESS_OVERRIDE, DOCUMENTS_VERSION_PUBLISH, DOCUMENTS_ACL_MANAGE, APPROVALS_REQUEST_APPROVE, APPROVALS_REQUEST_REJECT, APPROVALS_POLICY_MANAGE, SAFETY_INCIDENT_MANAGE, SAFETY_CA_MANAGE, OVERRIDE_MANAGE], now));
        assert(seeded_roles(store.roles@, now));
        store
    }
}

} // verus!

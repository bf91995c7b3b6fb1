//! Stable Core permission codes, the module permission catalog, license-gated module prefixes and
//! the platform-shipped system role ids. Permission codes are append-only; never renamed.
use vstd::prelude::*;

use crate::ids::RoleId;

verus! {

pub const TENANT_READ: &'static str = "core.tenant.read";
pub const TENANT_MANAGE: &'static str = "core.tenant.manage";
pub const COMPANY_MANAGE: &'static str = "core.company.manage";
pub const ORG_MANAGE: &'static str = "core.org.manage";
pub const USER_INVITE: &'static str = "core.user.invite";
pub const USER_MANAGE: &'static str = "core.user.manage";
pub const ROLE_MANAGE: &'static str = "core.role.manage";
pub const GRANT_MANAGE: &'static str = "core.grant.manage";
pub const MEMBERSHIP_MANAGE: &'static str = "core.membership.manage";
pub const TEAM_MANAGE: &'static str = "core.team.manage";
pub const FILE_UPLOAD: &'static str = "core.file.upload";
pub const FILE_READ: &'static str = "core.file.read";
pub const FILE_DELETE: &'static str = "core.file.delete";
pub const AUDIT_READ: &'static str = "core.audit.read";
pub const AUDIT_EXPORT: &'static str = "core.audit.export";
pub const SETTINGS_MANAGE: &'static str = "core.settings.manage";
pub const FLAGS_MANAGE: &'static str = "core.flags.manage";
pub const LICENSE_READ: &'static str = "core.license.read";
pub const COMPANY_READ: &'static str = "core.company.read";
pub const ROLE_READ: &'static str = "core.role.read";
pub const GRANT_READ: &'static str = "core.grant.read";
pub const OVERRIDE_MANAGE: &'static str = "core.override.manage";

/// Full catalog of Core-owned (`core.*`) permission codes.
pub fn all_core_permissions() -> (r: Vec<&'static str>)
    ensures
        r@.len() == 22,
        r@[0] == TENANT_READ,
        r@[1] == TENANT_MANAGE,
        r@[2] == COMPANY_MANAGE,
        r@[3] == ORG_MANAGE,
        r@[4] == USER_INVITE,
        r@[5] == USER_MANAGE,
        r@[6] == ROLE_MANAGE,
        r@[7] == GRANT_MANAGE,
        r@[8] == MEMBERSHIP_MANAGE,
        r@[9] == TEAM_MANAGE,
        r@[10] == FILE_UPLOAD,
        r@[11] == FILE_READ,
        r@[12] == FILE_DELETE,
        r@[13] == AUDIT_READ,
        r@[14] == AUDIT_EXPORT,
        r@[15] == SETTINGS_MANAGE,
        r@[16] == FLAGS_MANAGE,
        r@[17] == LICENSE_READ,
        r@[18] == COMPANY_READ,
        r@[19] == ROLE_READ,
        r@[20] == GRANT_READ,
        r@[21] == OVERRIDE_MANAGE,
{
    let mut r = Vec::new();
    r.push(TENANT_READ);
    r.push(TENANT_MANAGE);
    r.push(COMPANY_MANAGE);
    r.push(ORG_MANAGE);
    r.push(USER_INVITE);
    r.push(USER_MANAGE);
    r.push(ROLE_MANAGE);
    r.push(GRANT_MANAGE);
    r.push(MEMBERSHIP_MANAGE);
    r.push(TEAM_MANAGE);
    r.push(FILE_UPLOAD);
    r.push(FILE_READ);
    r.push(FILE_DELETE);
    r.push(AUDIT_READ);
    r.push(AUDIT_EXPORT);
    r.push(SETTINGS_MANAGE);
    r.push(FLAGS_MANAGE);
    r.push(LICENSE_READ);
    r.push(COMPANY_READ);
    r.push(ROLE_READ);
    r.push(GRANT_READ);
    r.push(OVERRIDE_MANAGE);
    r
}

pub const FEATURE_MODULE_ACCESS: &'static str = "feature.module.access";
pub const FEATURE_FLAG_EVALUATE: &'static str = "feature.flag.evaluate";

/// The `feature.*` permission codes.
pub fn feature_permissions() -> (r: Vec<&'static str>)
    ensures
        r@.len() == 2,
        r@[0] == FEATURE_MODULE_ACCESS,
        r@[1] == FEATURE_FLAG_EVALUATE,
{
    let mut r = Vec::new();
    r.push(FEATURE_MODULE_ACCESS);
    r.push(FEATURE_FLAG_EVALUATE);
    r
}

pub const DOCUMENTS_DOCUMENT_READ: &'static str = "documents.document.read";
pub const DOCUMENTS_DOCUMENT_MANAGE: &'static str = "documents.document.manage";
pub const DOCUMENTS_VERSION_PUBLISH: &'static str = "documents.version.publish";
pub const DOCUMENTS_ACK_MANAGE: &'static str = "documents.ack.manage";
pub const DOCUMENTS_ACL_MANAGE: &'static str = "documents.acl.manage";

/// The `documents.*` permission codes.
pub fn documents_permissions() -> (r: Vec<&'static str>)
    ensures
        r@.len() == 5,
        r@[0] == DOCUMENTS_DOCUMENT_READ,
        r@[1] == DOCUMENTS_DOCUMENT_MANAGE,
        r@[2] == DOCUMENTS_VERSION_PUBLISH,
        r@[3] == DOCUMENTS_ACK_MANAGE,
        r@[4] == DOCUMENTS_ACL_MANAGE,
{
    let mut r = Vec::new();
    r.push(DOCUMENTS_DOCUMENT_READ);
    r.push(DOCUMENTS_DOCUMENT_MANAGE);
    r.push(DOCUMENTS_VERSION_PUBLISH);
    r.push(DOCUMENTS_ACK_MANAGE);
    r.push(DOCUMENTS_ACL_MANAGE);
    r
}

pub const APPROVALS_REQUEST_CREATE: &'static str = "approvals.request.create";
pub const APPROVALS_REQUEST_APPROVE: &'static str = "approvals.request.approve";
pub const APPROVALS_REQUEST_REJECT: &'static str = "approvals.request.reject";
pub const APPROVALS_POLICY_MANAGE: &'static str = "approvals.policy.manage";

/// The `approvals.*` permission codes.
pub fn approvals_permissions() -> (r: Vec<&'static str>)
    ensures
        r@.len() == 4,
        r@[0] == APPROVALS_REQUEST_CREATE,
        r@[1] == APPROVALS_REQUEST_APPROVE,
        r@[2] == APPROVALS_REQUEST_REJECT,
        r@[3] == APPROVALS_POLICY_MANAGE,
{
    let mut r = Vec::new();
    r.push(APPROVALS_REQUEST_CREATE);
    r.push(APPROVALS_REQUEST_APPROVE);
    r.push(APPROVALS_REQUEST_REJECT);
    r.push(APPROVALS_POLICY_MANAGE);
    r
}

pub const EQUIPMENT_ASSET_READ: &'static str = "equipment.asset.read";
pub const EQUIPMENT_ASSET_MANAGE: &'static str = "equipment.asset.manage";
pub const EQUIPMENT_INSPECTION_PERFORM: &'static str = "equipment.inspection.perform";
pub const EQUIPMENT_READINESS_OVERRIDE: &'static str = "equipment.readiness.override";

/// The `equipment.*` permission codes.
pub fn equipment_permissions() -> (r: Vec<&'static str>)
    ensures
        r@.len() == 4,
        r@[0] == EQUIPMENT_ASSET_READ,
        r@[1] == EQUIPMENT_ASSET_MANAGE,
        r@[2] == EQUIPMENT_INSPECTION_PERFORM,
        r@[3] == EQUIPMENT_READINESS_OVERRIDE,
{
    let mut r = Vec::new();
    r.push(EQUIPMENT_ASSET_READ);
    r.push(EQUIPMENT_ASSET_MANAGE);
    r.push(EQUIPMENT_INSPECTION_PERFORM);
    r.push(EQUIPMENT_READINESS_OVERRIDE);
    r
}

pub const TRAINING_COURSE_READ: &'static str = "training.course.read";
pub const TRAINING_COURSE_MANAGE: &'static str = "training.course.manage";
pub const TRAINING_ASSIGNMENT_MANAGE: &'static str = "training.assignment.manage";
pub const TRAINING_COMPLETION_RECORD: &'static str = "training.completion.record";

/// The `training.*` permission codes.
pub fn training_permissions() -> (r: Vec<&'static str>)
    ensures
        r@.len() == 4,
        r@[0] == TRAINING_COURSE_READ,
        r@[1] == TRAINING_COURSE_MANAGE,
        r@[2] == TRAINING_ASSIGNMENT_MANAGE,
        r@[3] == TRAINING_COMPLETION_RECORD,
{
    let mut r = Vec::new();
    r.push(TRAINING_COURSE_READ);
    r.push(TRAINING_COURSE_MANAGE);
    r.push(TRAINING_ASSIGNMENT_MANAGE);
    r.push(TRAINING_COMPLETION_RECORD);
    r
}

pub const SAFETY_ACTIVITY_CREATE: &'static str = "safety.activity.create";
pub const SAFETY_ACTIVITY_SUBMIT: &'static str = "safety.activity.submit";
pub const SAFETY_ACTIVITY_REVIEW: &'static str = "safety.activity.review";
pub const SAFETY_INCIDENT_MANAGE: &'static str = "safety.incident.manage";
pub const SAFETY_CA_MANAGE: &'static str = "safety.ca.manage";

/// The `safety.*` permission codes.
pub fn safety_permissions() -> (r: Vec<&'static str>)
    ensures
        r@.len() == 5,
        r@[0] == SAFETY_ACTIVITY_CREATE,
        r@[1] == SAFETY_ACTIVITY_SUBMIT,
        r@[2] == SAFETY_ACTIVITY_REVIEW,
        r@[3] == SAFETY_INCIDENT_MANAGE,
        r@[4] == SAFETY_CA_MANAGE,
{
    let mut r = Vec::new();
    r.push(SAFETY_ACTIVITY_CREATE);
    r.push(SAFETY_ACTIVITY_SUBMIT);
    r.push(SAFETY_ACTIVITY_REVIEW);
    r.push(SAFETY_INCIDENT_MANAGE);
    r.push(SAFETY_CA_MANAGE);
    r
}

pub const PROJECTS_PROJECT_READ: &'static str = "projects.project.read";
pub const PROJECTS_PROJECT_MANAGE: &'static str = "projects.project.manage";
pub const PROJECTS_PROJECT_CREATE: &'static str = "projects.project.create";

/// The `projects.*` permission codes.
pub fn projects_permissions() -> (r: Vec<&'static str>)
    ensures
        r@.len() == 3,
        r@[0] == PROJECTS_PROJECT_READ,
        r@[1] == PROJECTS_PROJECT_MANAGE,
        r@[2] == PROJECTS_PROJECT_CREATE,
{
    let mut r = Vec::new();
    r.push(PROJECTS_PROJECT_READ);
    r.push(PROJECTS_PROJECT_MANAGE);
    r.push(PROJECTS_PROJECT_CREATE);
    r
}

/// Every non-Core module permission code published so far.
pub fn all_module_permission_samples() -> (r: Vec<&'static str>)
    ensures
        r@.len() == 27,
        r@[0] == FEATURE_MODULE_ACCESS,
        r@[1] == FEATURE_FLAG_EVALUATE,
        r@[2] == DOCUMENTS_DOCUMENT_READ,
        r@[3] == DOCUMENTS_DOCUMENT_MANAGE,
        r@[4] == DOCUMENTS_VERSION_PUBLISH,
        r@[5] == DOCUMENTS_ACK_MANAGE,
        r@[6] == DOCUMENTS_ACL_MANAGE,
        r@[7] == APPROVALS_REQUEST_CREATE,
        r@[8] == APPROVALS_REQUEST_APPROVE,
        r@[9] == APPROVALS_REQUEST_REJECT,
        r@[10] == APPROVALS_POLICY_MANAGE,
        r@[11] == EQUIPMENT_ASSET_READ,
        r@[12] == EQUIPMENT_ASSET_MANAGE,
        r@[13] == EQUIPMENT_INSPECTION_PERFORM,
        r@[14] == EQUIPMENT_READINESS_OVERRIDE,
        r@[15] == TRAINING_COURSE_READ,
        r@[16] == TRAINING_COURSE_MANAGE,
        r@[17] == TRAINING_ASSIGNMENT_MANAGE,
        r@[18] == TRAINING_COMPLETION_RECORD,
        r@[19] == SAFETY_ACTIVITY_CREATE,
        r@[20] == SAFETY_ACTIVITY_SUBMIT,
        r@[21] == SAFETY_ACTIVITY_REVIEW,
        r@[22] == SAFETY_INCIDENT_MANAGE,
        r@[23] == SAFETY_CA_MANAGE,
        r@[24] == PROJECTS_PROJECT_READ,
        r@[25] == PROJECTS_PROJECT_MANAGE,
        r@[26] == PROJECTS_PROJECT_CREATE,
{
    let mut r = Vec::new();
    r.push(FEATURE_MODULE_ACCESS);
    r.push(FEATURE_FLAG_EVALUATE);
    r.push(DOCUMENTS_DOCUMENT_READ);
    r.push(DOCUMENTS_DOCUMENT_MANAGE);
    r.push(DOCUMENTS_VERSION_PUBLISH);
    r.push(DOCUMENTS_ACK_MANAGE);
    r.push(DOCUMENTS_ACL_MANAGE);
    r.push(APPROVALS_REQUEST_CREATE);
    r.push(APPROVALS_REQUEST_APPROVE);
    r.push(APPROVALS_REQUEST_REJECT);
    r.push(APPROVALS_POLICY_MANAGE);
    r.push(EQUIPMENT_ASSET_READ);
    r.push(EQUIPMENT_ASSET_MANAGE);
    r.push(EQUIPMENT_INSPECTION_PERFORM);
    r.push(EQUIPMENT_READINESS_OVERRIDE);
    r.push(TRAINING_COURSE_READ);
    r.push(TRAINING_COURSE_MANAGE);
    r.push(TRAINING_ASSIGNMENT_MANAGE);
    r.push(TRAINING_COMPLETION_RECORD);
    r.push(SAFETY_ACTIVITY_CREATE);
    r.push(SAFETY_ACTIVITY_SUBMIT);
    r.push(SAFETY_ACTIVITY_REVIEW);
    r.push(SAFETY_INCIDENT_MANAGE);
    r.push(SAFETY_CA_MANAGE);
    r.push(PROJECTS_PROJECT_READ);
    r.push(PROJECTS_PROJECT_MANAGE);
    r.push(PROJECTS_PROJECT_CREATE);
    r
}

/// Module key prefixes whose permissions are gated by the tenant's license before RBAC is
/// evaluated. Codes outside these prefixes (such as `core.*`) are never license-gated.
pub open spec fn license_gated_prefix(p: Seq<char>) -> bool {
    p == "documents"@ || p == "equipment"@ || p == "training"@ || p == "safety"@ || p
        == "approvals"@ || p == "projects"@ || p == "feature"@
}

/// The license-gated module prefixes, in catalog order.
pub fn license_gated_module_prefixes() -> (r: Vec<&'static str>)
    ensures
        r@.len() == 7,
        forall|p: Seq<char>| license_gated_prefix(p) <==> exists|i: int| 0 <= i < 7 && r@[i]@ == p,
{
    let mut r = Vec::new();
    r.push("documents");
    r.push("equipment");
    r.push("training");
    r.push("safety");
    r.push("approvals");
    r.push("projects");
    r.push("feature");
    assert forall|p: Seq<char>| license_gated_prefix(p) implies exists|i: int| 0 <= i < 7 && r@[i]@ == p by {
        if p == "documents"@ { assert(r@[0]@ == p); }
        else if p == "equipment"@ { assert(r@[1]@ == p); }
        else if p == "training"@ { assert(r@[2]@ == p); }
        else if p == "safety"@ { assert(r@[3]@ == p); }
        else if p == "approvals"@ { assert(r@[4]@ == p); }
        else if p == "projects"@ { assert(r@[5]@ == p); }
        else { assert(r@[6]@ == p); }
    }
    r
}

pub const SYSTEM_TENANT_ADMIN_ROLE_UUID: u128 = 0x0000_0000_0000_4000_8000_0000_0000_0001;
pub const SYSTEM_COMPANY_ADMIN_ROLE_UUID: u128 = 0x0000_0000_0000_4000_8000_0000_0000_0010;
pub const SYSTEM_PROJECT_ADMIN_ROLE_UUID: u128 = 0x0000_0000_0000_4000_8000_0000_0000_0011;
pub const SYSTEM_SUPERVISOR_ROLE_UUID: u128 = 0x0000_0000_0000_4000_8000_0000_0000_0012;
pub const SYSTEM_WORKER_ROLE_UUID: u128 = 0x0000_0000_0000_4000_8000_0000_0000_0013;
pub const SYSTEM_SAFETY_COORDINATOR_ROLE_UUID: u128 = 0x0000_0000_0000_4000_8000_0000_0000_0014;
pub const SYSTEM_EQUIPMENT_MANAGER_ROLE_UUID: u128 = 0x0000_0000_0000_4000_8000_0000_0000_0015;
pub const SYSTEM_TRAINING_ADMIN_ROLE_UUID: u128 = 0x0000_0000_0000_4000_8000_0000_0000_0016;
pub const SYSTEM_DOCUMENT_CONTROL_ROLE_UUID: u128 = 0x0000_0000_0000_4000_8000_0000_0000_0017;
pub const SYSTEM_TEMPORARY_ELEVATED_ROLE_UUID: u128 = 0x0000_0000_0000_4000_8000_0000_0000_0018;
/// The platform-shipped System Tenant Admin role id.
pub fn system_tenant_admin_role_id() -> (r: RoleId)
    ensures
        r == SYSTEM_TENANT_ADMIN_ROLE_UUID,
{
    SYSTEM_TENANT_ADMIN_ROLE_UUID
}

/// The platform-shipped Company Admin role id.
pub fn company_admin_role_id() -> (r: RoleId)
    ensures
        r == SYSTEM_COMPANY_ADMIN_ROLE_UUID,
{
    SYSTEM_COMPANY_ADMIN_ROLE_UUID
}

/// The platform-shipped Project Admin role id.
pub fn project_admin_role_id() -> (r: RoleId)
    ensures
        r == SYSTEM_PROJECT_ADMIN_ROLE_UUID,
{
    SYSTEM_PROJECT_ADMIN_ROLE_UUID
}

/// The platform-shipped Supervisor role id.
pub fn supervisor_role_id() -> (r: RoleId)
    ensures
        r == SYSTEM_SUPERVISOR_ROLE_UUID,
{
    SYSTEM_SUPERVISOR_ROLE_UUID
}

/// The platform-shipped Worker role id.
pub fn worker_role_id() -> (r: RoleId)
    ensures
        r == SYSTEM_WORKER_ROLE_UUID,
{
    SYSTEM_WORKER_ROLE_UUID
}

/// The platform-shipped Safety Coordinator role id.
pub fn safety_coordinator_role_id() -> (r: RoleId)
    ensures
        r == SYSTEM_SAFETY_COORDINATOR_ROLE_UUID,
{
    SYSTEM_SAFETY_COORDINATOR_ROLE_UUID
}

/// The platform-shipped Equipment Manager role id.
pub fn equipment_manager_role_id() -> (r: RoleId)
    ensures
        r == SYSTEM_EQUIPMENT_MANAGER_ROLE_UUID,
{
    SYSTEM_EQUIPMENT_MANAGER_ROLE_UUID
}

/// The platform-shipped Training Admin role id.
pub fn training_admin_role_id() -> (r: RoleId)
    ensures
        r == SYSTEM_TRAINING_ADMIN_ROLE_UUID,
{
    SYSTEM_TRAINING_ADMIN_ROLE_UUID
}

/// The platform-shipped Document Control role id.
pub fn document_control_role_id() -> (r: RoleId)
    ensures
        r == SYSTEM_DOCUMENT_CONTROL_ROLE_UUID,
{
    SYSTEM_DOCUMENT_CONTROL_ROLE_UUID
}

/// The platform-shipped Temporary Elevated role id.
pub fn temporary_elevated_role_id() -> (r: RoleId)
    ensures
        r == SYSTEM_TEMPORARY_ELEVATED_ROLE_UUID,
{
    SYSTEM_TEMPORARY_ELEVATED_ROLE_UUID
}

} // verus!

//! Pure rules about role kinds, scopes and expiry.
use vstd::prelude::*;

use crate::domain::authz::AccessScope;
use crate::domain::enums::{GrantKind, GrantScopeType, RoleKind};
use crate::domain::permissions::{
    company_admin_role_id, document_control_role_id, equipment_manager_role_id,
    project_admin_role_id, safety_coordinator_role_id, supervisor_role_id,
    system_tenant_admin_role_id, temporary_elevated_role_id, training_admin_role_id,
    worker_role_id, SYSTEM_COMPANY_ADMIN_ROLE_UUID, SYSTEM_DOCUMENT_CONTROL_ROLE_UUID,
    SYSTEM_EQUIPMENT_MANAGER_ROLE_UUID, SYSTEM_PROJECT_ADMIN_ROLE_UUID,
    SYSTEM_SAFETY_COORDINATOR_ROLE_UUID, SYSTEM_SUPERVISOR_ROLE_UUID,
    SYSTEM_TEMPORARY_ELEVATED_ROLE_UUID, SYSTEM_TENANT_ADMIN_ROLE_UUID,
    SYSTEM_TRAINING_ADMIN_ROLE_UUID, SYSTEM_WORKER_ROLE_UUID,
};
use crate::ids::{RoleId, Timestamp};
use crate::text::join;

verus! {

broadcast use vstd::string::group_string_axioms;

/// Platform-shipped role kinds (tenant-authored `TenantCustom` and `Membership` are not).
pub open spec fn system_kind(kind: RoleKind) -> bool {
    kind == RoleKind::System || kind == RoleKind::Company || kind == RoleKind::Project || kind
        == RoleKind::Temporary
}

/// Role kinds that may only be granted with an expiry.
pub open spec fn kind_needs_expiry(kind: RoleKind) -> bool {
    kind == RoleKind::Temporary
}

/// Grant kinds that are time-bounded by definition.
pub open spec fn grant_kind_needs_expiry(kind: GrantKind) -> bool {
    kind == GrantKind::Temporary || kind == GrantKind::BreakGlass
}

/// The `Debug` name of a role kind.
pub open spec fn role_kind_name(kind: RoleKind) -> Seq<char> {
    match kind {
        RoleKind::System => "System"@,
        RoleKind::TenantCustom => "TenantCustom"@,
        RoleKind::Membership => "Membership"@,
        RoleKind::Company => "Company"@,
        RoleKind::Project => "Project"@,
        RoleKind::Temporary => "Temporary"@,
    }
}

/// The `Debug` name of a grant kind.
pub open spec fn grant_kind_name(kind: GrantKind) -> Seq<char> {
    match kind {
        GrantKind::Standard => "Standard"@,
        GrantKind::Delegation => "Delegation"@,
        GrantKind::Temporary => "Temporary"@,
        GrantKind::BreakGlass => "BreakGlass"@,
    }
}

/// The `Debug` name of a scope type.
pub open spec fn scope_type_name(t: GrantScopeType) -> Seq<char> {
    match t {
        GrantScopeType::Tenant => "Tenant"@,
        GrantScopeType::OrgUnit => "OrgUnit"@,
        GrantScopeType::Company => "Company"@,
        GrantScopeType::Project => "Project"@,
        GrantScopeType::Team => "Team"@,
        GrantScopeType::SelfScope => "SelfScope"@,
    }
}

fn role_kind_debug(kind: RoleKind) -> (r: &'static str)
    ensures
        r@ == role_kind_name(kind),
{
    match kind {
        RoleKind::System => "System",
        RoleKind::TenantCustom => "TenantCustom",
        RoleKind::Membership => "Membership",
        RoleKind::Company => "Company",
        RoleKind::Project => "Project",
        RoleKind::Temporary => "Temporary",
    }
}

fn grant_kind_debug(kind: GrantKind) -> (r: &'static str)
    ensures
        r@ == grant_kind_name(kind),
{
    match kind {
        GrantKind::Standard => "Standard",
        GrantKind::Delegation => "Delegation",
        GrantKind::Temporary => "Temporary",
        GrantKind::BreakGlass => "BreakGlass",
    }
}

fn scope_type_debug(t: GrantScopeType) -> (r: &'static str)
    ensures
        r@ == scope_type_name(t),
{
    match t {
        GrantScopeType::Tenant => "Tenant",
        GrantScopeType::OrgUnit => "OrgUnit",
        GrantScopeType::Company => "Company",
        GrantScopeType::Project => "Project",
        GrantScopeType::Team => "Team",
        GrantScopeType::SelfScope => "SelfScope",
    }
}

/// The message refusing temporary access without an expiry.
pub open spec fn expiry_message(role_kind: RoleKind, grant_kind: GrantKind) -> Seq<char> {
    "temporary access (role kind "@ + role_kind_name(role_kind) + ", grant kind "@
        + grant_kind_name(grant_kind) + ") requires expires_at"@
}

/// The scope-mismatch warning for a role kind, if it has one for this scope.
pub open spec fn scope_warning(kind: RoleKind, scope: AccessScope) -> Option<Seq<char>> {
    if kind == RoleKind::Company && scope.scope_type != GrantScopeType::Company {
        Some(
            "role kind Company typically expects Company scope, got "@ + scope_type_name(
                scope.scope_type,
            ),
        )
    } else if kind == RoleKind::Project && scope.scope_type != GrantScopeType::Project
        && scope.scope_type != GrantScopeType::Team {
        Some(
            "role kind Project typically expects Project or Team scope, got "@ + scope_type_name(
                scope.scope_type,
            ),
        )
    } else {
        None
    }
}

/// The platform-shipped system role ids.
pub open spec fn system_role_id_seq() -> Seq<RoleId> {
    seq![
        SYSTEM_TENANT_ADMIN_ROLE_UUID,
        SYSTEM_COMPANY_ADMIN_ROLE_UUID,
        SYSTEM_PROJECT_ADMIN_ROLE_UUID,
        SYSTEM_SUPERVISOR_ROLE_UUID,
        SYSTEM_WORKER_ROLE_UUID,
        SYSTEM_SAFETY_COORDINATOR_ROLE_UUID,
        SYSTEM_EQUIPMENT_MANAGER_ROLE_UUID,
        SYSTEM_TRAINING_ADMIN_ROLE_UUID,
        SYSTEM_DOCUMENT_CONTROL_ROLE_UUID,
        SYSTEM_TEMPORARY_ELEVATED_ROLE_UUID,
    ]
}

pub fn is_system_role(kind: RoleKind) -> (r: bool)
    ensures
        r == system_kind(kind),
{
    match kind {
        RoleKind::System | RoleKind::Company | RoleKind::Project | RoleKind::Temporary => true,
        _ => false,
    }
}

pub fn requires_expiry_for_role_kind(kind: RoleKind) -> (r: bool)
    ensures
        r == kind_needs_expiry(kind),
{
    match kind {
        RoleKind::Temporary => true,
        _ => false,
    }
}

pub fn requires_expiry_for_grant_kind(kind: GrantKind) -> (r: bool)
    ensures
        r == grant_kind_needs_expiry(kind),
{
    match kind {
        GrantKind::Temporary | GrantKind::BreakGlass => true,
        _ => false,
    }
}

/// Hard validation: a temporary role kind or a temporary / break-glass grant kind without an
/// expiry is refused.
pub fn validate_expiry(role_kind: RoleKind, grant_kind: GrantKind, expires_at: Option<Timestamp>) -> (r:
    Result<(), String>)
    ensures
        match r {
            Ok(()) => !((kind_needs_expiry(role_kind) || grant_kind_needs_expiry(grant_kind))
                && expires_at is None),
            Err(m) => (kind_needs_expiry(role_kind) || grant_kind_needs_expiry(grant_kind))
                && expires_at is None && m@ == expiry_message(role_kind, grant_kind),
        },
{
    if (requires_expiry_for_role_kind(role_kind) || requires_expiry_for_grant_kind(grant_kind))
        && expires_at.is_none() {
        let mut m = join("temporary access (role kind ", role_kind_debug(role_kind));
        m.append(", grant kind ");
        m.append(grant_kind_debug(grant_kind));
        m.append(") requires expires_at");
        return Err(m);
    }
    Ok(())
}

/// Soft validation: some role kinds have a natural scope; a mismatch is reported, not refused.
pub fn validate_role_for_scope(kind: RoleKind, scope: &AccessScope) -> (r: Option<String>)
    ensures
        match r {
            Some(m) => scope_warning(kind, *scope) == Some(m@),
            None => scope_warning(kind, *scope) is None,
        },
{
    match kind {
        RoleKind::Company => {
            if scope.scope_type != GrantScopeType::Company {
                return Some(
                    join(
                        "role kind Company typically expects Company scope, got ",
                        scope_type_debug(scope.scope_type),
                    ),
                );
            }
            None
        },
        RoleKind::Project => {
            match scope.scope_type {
                GrantScopeType::Project | GrantScopeType::Team => None,
                _ => Some(
                    join(
                        "role kind Project typically expects Project or Team scope, got ",
                        scope_type_debug(scope.scope_type),
                    ),
                ),
            }
        },
        _ => None,
    }
}

/// Every platform-shipped system role id (tenant-independent).
pub fn system_role_ids() -> (r: Vec<RoleId>)
    ensures
        r@ == system_role_id_seq(),
{
    let mut r = Vec::new();
    r.push(system_tenant_admin_role_id());
    r.push(company_admin_role_id());
    r.push(project_admin_role_id());
    r.push(supervisor_role_id());
    r.push(worker_role_id());
    r.push(safety_coordinator_role_id());
    r.push(equipment_manager_role_id());
    r.push(training_admin_role_id());
    r.push(document_control_role_id());
    r.push(temporary_elevated_role_id());
    assert(r@ =~= system_role_id_seq());
    r
}

pub fn is_system_role_id(id: RoleId) -> (r: bool)
    ensures
        r == system_role_id_seq().contains(id),
{
    let ids = system_role_ids();
    let mut i: usize = 0;
    while i < ids.len()
        invariant
            ids@ == system_role_id_seq(),
            i <= ids.len(),
            forall|k: int| 0 <= k < i ==> ids@[k] != id,
        decreases ids.len() - i,
    {
        if ids[i] == id {
            assert(ids@[i as int] == id);
            return true;
        }
        i = i + 1;
    }
    false
}

/// Namespace for the role rules above.
pub struct RoleEngine;

impl RoleEngine {
    pub fn is_system_role(kind: RoleKind) -> (r: bool)
        ensures
            r == system_kind(kind),
    {
        is_system_role(kind)
    }

    pub fn requires_expiry_for_role_kind(kind: RoleKind) -> (r: bool)
        ensures
            r == kind_needs_expiry(kind),
    {
        requires_expiry_for_role_kind(kind)
    }

    pub fn requires_expiry_for_grant_kind(kind: GrantKind) -> (r: bool)
        ensures
            r == grant_kind_needs_expiry(kind),
    {
        requires_expiry_for_grant_kind(kind)
    }

    pub fn validate_expiry(
        role_kind: RoleKind,
        grant_kind: GrantKind,
        expires_at: Option<Timestamp>,
    ) -> (r: Result<(), String>)
        ensures
            match r {
                Ok(()) => !((kind_needs_expiry(role_kind) || grant_kind_needs_expiry(grant_kind))
                    && expires_at is None),
                Err(m) => (kind_needs_expiry(role_kind) || grant_kind_needs_expiry(grant_kind))
                    && expires_at is None && m@ == expiry_message(role_kind, grant_kind),
            },
    {
        validate_expiry(role_kind, grant_kind, expires_at)
    }

    pub fn validate_role_for_scope(kind: RoleKind, scope: &AccessScope) -> (r: Option<String>)
        ensures
            match r {
                Some(m) => scope_warning(kind, *scope) == Some(m@),
                None => scope_warning(kind, *scope) is None,
            },
    {
        validate_role_for_scope(kind, scope)
    }

    pub fn system_role_ids() -> (r: Vec<RoleId>)
        ensures
            r@ == system_role_id_seq(),
    {
        system_role_ids()
    }

    pub fn is_system_role_id(id: RoleId) -> (r: bool)
        ensures
            r == system_role_id_seq().contains(id),
    {
        is_system_role_id(id)
    }
}

} // verus!

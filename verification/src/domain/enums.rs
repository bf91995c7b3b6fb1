//! Core enumerations and lifecycle states.
use vstd::prelude::*;

verus! {

#[derive(Debug, Clone, Copy, PartialEq, Eq, Structural)]
pub enum TenantStatus {
    Active,
    Suspended,
    Closed,
}

#[derive(Debug, Clone, Copy, PartialEq, Eq, Structural)]
pub enum UserStatus {
    Invited,
    Active,
    Locked,
    Deactivated,
}

#[derive(Debug, Clone, Copy, PartialEq, Eq, Structural)]
pub enum CompanyType {
    Prime,
    Subcontractor,
    Crane,
    Forming,
    Civil,
    Industrial,
    Other,
}

/// Boundary of an access scope: tenant, org unit, company, project, team, or the principal's
/// own user record.
#[derive(Debug, Clone, Copy, PartialEq, Eq, Structural)]
pub enum GrantScopeType {
    Tenant,
    OrgUnit,
    Company,
    Project,
    Team,
    /// A principal's own user record (`self` on the wire).
    SelfScope,
}

#[derive(Debug, Clone, Copy, PartialEq, Eq, Structural)]
pub enum MembershipStatus {
    Invited,
    Active,
    Suspended,
    Removed,
}

#[derive(Debug, Clone, Copy, PartialEq, Eq, Structural)]
pub enum FileObjectStatus {
    PendingUpload,
    /// Upload complete; virus scan in progress.
    Processing,
    Available,
    Quarantined,
    Deleted,
}

#[derive(Debug, Clone, Copy, PartialEq, Eq, Structural)]
pub enum LicenseStatus {
    Trial,
    Active,
    Grace,
    Expired,
    Suspended,
}

/// Role classification. `Company`, `Project` and `Temporary` are platform-shipped kinds that
/// describe the intended scope or lifecycle of the role.
#[derive(Debug, Clone, Copy, PartialEq, Eq, Structural)]
pub enum RoleKind {
    System,
    TenantCustom,
    Membership,
    Company,
    Project,
    Temporary,
}

#[derive(Debug, Clone, Copy, PartialEq, Eq, Structural)]
pub enum GrantKind {
    Standard,
    Delegation,
    Temporary,
    BreakGlass,
}

#[derive(Debug, Clone, Copy, PartialEq, Eq, Structural)]
pub enum CompanyStatus {
    Active,
    Deactivated,
}

#[derive(Debug, Clone, Copy, PartialEq, Eq, Structural)]
pub enum OrgUnitStatus {
    Active,
    Archived,
}

#[derive(Debug, Clone, Copy, PartialEq, Eq, Structural)]
pub enum SessionStatus {
    Active,
    Revoked,
}

#[derive(Debug, Clone, Copy, PartialEq, Eq, Structural)]
pub enum RoleStatus {
    Active,
    Retired,
}

#[derive(Debug, Clone, Copy, PartialEq, Eq, Structural)]
pub enum TeamStatus {
    Active,
    Archived,
}

/// Setting scopes, in precedence order User → OrgUnit → Tenant → Platform.
#[derive(Debug, Clone, Copy, PartialEq, Eq, Structural)]
pub enum SettingScopeType {
    Platform,
    Tenant,
    OrgUnit,
    User,
}

/// Effect of a permission override: `Deny` wins over `Allow` and over any covering grant.
#[derive(Debug, Clone, Copy, PartialEq, Eq, Structural)]
pub enum OverrideEffect {
    Allow,
    Deny,
}

/// Grouping used for permission catalog browsing and policy authoring.
#[derive(Debug, Clone, Copy, PartialEq, Eq, Structural)]
pub enum PermissionFamily {
    Core,
    Feature,
    Documents,
    Approvals,
    Equipment,
    Training,
    Safety,
    Projects,
    Other,
}

/// Sensitivity classification driving step-up and audit emphasis.
#[derive(Debug, Clone, Copy, PartialEq, Eq, Structural)]
pub enum PermissionSensitivity {
    Standard,
    Elevated,
    BreakGlass,
}

} // verus!

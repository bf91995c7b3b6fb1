//! Authorization decision types.
use vstd::prelude::*;

use crate::domain::enums::GrantScopeType;
use crate::ids::Uuid;
use crate::text::text;

verus! {

/// A concrete boundary: either a grant's boundary or a resource's boundary.
#[derive(Debug, Clone, Copy, PartialEq, Eq, Structural)]
pub struct AccessScope {
    pub scope_type: GrantScopeType,
    pub scope_id: Option<Uuid>,
}

impl AccessScope {
    pub fn tenant() -> (r: Self)
        ensures
            r == (AccessScope { scope_type: GrantScopeType::Tenant, scope_id: None }),
    {
        AccessScope { scope_type: GrantScopeType::Tenant, scope_id: None }
    }

    pub fn company(company_id: Uuid) -> (r: Self)
        ensures
            r == (AccessScope { scope_type: GrantScopeType::Company, scope_id: Some(company_id) }),
    {
        AccessScope { scope_type: GrantScopeType::Company, scope_id: Some(company_id) }
    }

    pub fn project(project_id: Uuid) -> (r: Self)
        ensures
            r == (AccessScope { scope_type: GrantScopeType::Project, scope_id: Some(project_id) }),
    {
        AccessScope { scope_type: GrantScopeType::Project, scope_id: Some(project_id) }
    }

    pub fn self_scope(user_id: Uuid) -> (r: Self)
        ensures
            r == (AccessScope { scope_type: GrantScopeType::SelfScope, scope_id: Some(user_id) }),
    {
        AccessScope { scope_type: GrantScopeType::SelfScope, scope_id: Some(user_id) }
    }
}

/// Result of `principal + permission + resource scope → allow / deny`. Fail closed: the absence
/// of an explicit allow is a deny.
#[derive(Debug)]
pub enum AuthzDecision {
    Allow { reasons: Vec<String> },
    Deny { reasons: Vec<String> },
}

/// The texts of a list of strings.
pub open spec fn texts(v: Seq<String>) -> Seq<Seq<char>> {
    v.map_values(|s: String| s@)
}

/// Whether a decision allows.
pub open spec fn allows(d: AuthzDecision) -> bool {
    d is Allow
}

/// The reasons a decision carries, as texts.
pub open spec fn reasons_of(d: AuthzDecision) -> Seq<Seq<char>> {
    match d {
        AuthzDecision::Allow { reasons } => texts(reasons@),
        AuthzDecision::Deny { reasons } => texts(reasons@),
    }
}

/// A decision that allows (or denies) for exactly one reason, `reason`.
pub open spec fn decided(d: AuthzDecision, allow: bool, reason: Seq<char>) -> bool {
    allows(d) == allow && reasons_of(d) == seq![reason]
}

impl AuthzDecision {
    pub fn is_allowed(&self) -> (r: bool)
        ensures
            r == allows(*self),
    {
        match self {
            AuthzDecision::Allow { .. } => true,
            AuthzDecision::Deny { .. } => false,
        }
    }

    pub fn deny(reason: String) -> (r: Self)
        ensures
            decided(r, false, reason@),
    {
        let mut reasons = Vec::new();
        reasons.push(reason);
        let r = AuthzDecision::Deny { reasons };
        assert(reasons_of(r) =~= seq![reason@]);
        r
    }

    pub fn allow(reason: String) -> (r: Self)
        ensures
            decided(r, true, reason@),
    {
        let mut reasons = Vec::new();
        reasons.push(reason);
        let r = AuthzDecision::Allow { reasons };
        assert(reasons_of(r) =~= seq![reason@]);
        r
    }

    /// A deny for a fixed reason code.
    pub fn deny_for(reason: &str) -> (r: Self)
        ensures
            decided(r, false, reason@),
    {
        AuthzDecision::deny(text(reason))
    }
}

} // verus!

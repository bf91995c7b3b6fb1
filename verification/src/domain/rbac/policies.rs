//! Authorization policies: composable steps around the permission engine. `before_rbac` runs
//! first and can short-circuit a deny; `after_allow` runs only when RBAC would allow and can
//! still revoke to deny.
use vstd::prelude::*;

use crate::domain::authz::{decided, AuthzDecision};
use crate::text::{contains_text, str_contains, str_eq};

verus! {

broadcast use vstd::string::group_string_axioms;

/// Attribute-based context accompanying an authorization request. Missing data means "no
/// signal" and never blocks on its own.
#[derive(Debug)]
pub struct AbacContext {
    /// Free-form resource attributes (name, value).
    pub resource_attributes: Vec<(String, String)>,
    /// Authentication assurance signal (e.g. `mfa`).
    pub assurance_level: Option<String>,
    /// Resource lifecycle state (e.g. `sealed`, `draft`, `published`).
    pub resource_state: Option<String>,
}

impl AbacContext {
    /// The context with no signal at all.
    pub open spec fn is_empty_context(self) -> bool {
        self.resource_attributes@.len() == 0 && self.assurance_level is None
            && self.resource_state is None
    }

    pub fn empty() -> (r: Self)
        ensures
            r.is_empty_context(),
    {
        AbacContext { resource_attributes: Vec::new(), assurance_level: None, resource_state: None }
    }
}

impl Default for AbacContext {
    fn default() -> (r: Self)
        ensures
            r.is_empty_context(),
    {
        AbacContext::empty()
    }
}

/// A composable authorization policy evaluated around the core RBAC decision.
pub trait AuthorizationPolicy {
    fn name(&self) -> &'static str;

    /// Runs before RBAC. `Some(deny)` short-circuits the whole authorization call.
    fn before_rbac(&self, ctx: &AbacContext, permission: &str) -> Option<AuthzDecision>;

    /// Runs only when RBAC produced an allow. `Some(deny)` revokes that allow.
    fn after_allow(&self, ctx: &AbacContext, permission: &str) -> Option<AuthzDecision>;
}

/// No-op policy: the plain RBAC baseline, made explicit in the chain.
pub struct DefaultRbacPolicy;

impl AuthorizationPolicy for DefaultRbacPolicy {
    fn name(&self) -> (r: &'static str)
        ensures
            r@ == "default_rbac"@,
    {
        "default_rbac"
    }

    fn before_rbac(&self, ctx: &AbacContext, permission: &str) -> (r: Option<AuthzDecision>)
        ensures
            r is None,
    {
        None
    }

    fn after_allow(&self, ctx: &AbacContext, permission: &str) -> (r: Option<AuthzDecision>)
        ensures
            r is None,
    {
        None
    }
}

/// A permission "looks like" a mutation when it contains `.manage`, `.publish` or `.void`.
pub open spec fn mutating_action(code: Seq<char>) -> bool {
    contains_text(code, ".manage"@) || contains_text(code, ".publish"@) || contains_text(
        code,
        ".void"@,
    )
}

/// A sealed resource refuses mutating permissions.
pub open spec fn sealed_refuses(state: Option<String>, permission: Seq<char>) -> bool {
    &&& state matches Some(s) && s@ == "sealed"@
    &&& mutating_action(permission)
}

/// Sealed-evidence immutability: once a resource is `sealed`, mutating actions are denied
/// regardless of role.
pub struct SealedResourcePolicy;

impl SealedResourcePolicy {
    pub fn is_mutating_action(permission: &str) -> (r: bool)
        ensures
            r == mutating_action(permission@),
    {
        str_contains(permission, ".manage") || str_contains(permission, ".publish")
            || str_contains(permission, ".void")
    }
}

impl AuthorizationPolicy for SealedResourcePolicy {
    fn name(&self) -> (r: &'static str)
        ensures
            r@ == "sealed_resource"@,
    {
        "sealed_resource"
    }

    fn before_rbac(&self, ctx: &AbacContext, permission: &str) -> (r: Option<AuthzDecision>)
        ensures
            match r {
                Some(d) => sealed_refuses(ctx.resource_state, permission@) && decided(
                    d,
                    false,
                    "resource_sealed"@,
                ),
                None => !sealed_refuses(ctx.resource_state, permission@),
            },
    {
        let sealed = match &ctx.resource_state {
            Some(s) => str_eq(s.as_str(), "sealed"),
            None => false,
        };
        if sealed && SealedResourcePolicy::is_mutating_action(permission) {
            return Some(AuthzDecision::deny_for("resource_sealed"));
        }
        None
    }

    fn after_allow(&self, ctx: &AbacContext, permission: &str) -> (r: Option<AuthzDecision>)
        ensures
            r is None,
    {
        None
    }
}

} // verus!

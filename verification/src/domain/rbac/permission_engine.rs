//! The fail-closed evaluation core behind authorization. Pure: the caller loads grants, roles and
//! overrides and hands them here.
//!
//! Evaluation order:
//! 1. module not enabled → deny `module_disabled`;
//! 2. an active deny override covering (permission, scope) → deny `override_deny:<id>`;
//! 3. an active allow override covering (permission, scope) → allow `override_allow:<id>`;
//! 4. an active grant whose role has the permission and whose scope covers the resource →
//!    allow `grant:<id> role:<name>`;
//! 5. otherwise → deny `no_covering_grant`.
use vstd::prelude::*;

use crate::domain::authz::{decided, AccessScope, AuthzDecision};
use crate::domain::enums::{GrantScopeType, OverrideEffect};
use crate::domain::models::{active_at, AccessGrant, PermissionOverride, RoleDefinition};
use crate::external::{uuid_hyphenated, uuid_text};
use crate::ids::{Timestamp, Uuid};
use crate::lists::{
    first_where, lemma_first_where_found, lemma_first_where_none, lemma_first_where_props,
};
use crate::text::{join, str_eq};

verus! {

broadcast use vstd::string::group_string_axioms;

/// Everything the engine needs to decide one (principal, permission, resource) triple.
pub struct EvaluationInput<'a> {
    pub permission: &'a str,
    pub resource: AccessScope,
    pub principal_user_id: Uuid,
    pub grants: &'a Vec<AccessGrant>,
    pub roles: &'a Vec<RoleDefinition>,
    pub overrides: &'a Vec<PermissionOverride>,
    pub now: Timestamp,
    /// License / feature precondition, already resolved by the caller.
    pub module_enabled: bool,
}

/// Coverage rule shared by grants and overrides: tenant scope covers everything; self scope
/// covers only the principal's own user record; every other scope kind needs an exact
/// (kind, id) match, so a company grant never covers a project resource, nor another company.
pub open spec fn covers(grant_scope: AccessScope, resource: AccessScope, own_user_id: Uuid) -> bool {
    match grant_scope.scope_type {
        GrantScopeType::Tenant => true,
        GrantScopeType::SelfScope => resource.scope_type == GrantScopeType::SelfScope
            && resource.scope_id == Some(own_user_id),
        _ => grant_scope.scope_type == resource.scope_type && grant_scope.scope_id
            == resource.scope_id,
    }
}

pub fn scope_covers(grant_scope: &AccessScope, resource: &AccessScope, own_user_id: Uuid) -> (r:
    bool)
    ensures
        r == covers(*grant_scope, *resource, own_user_id),
{
    match grant_scope.scope_type {
        GrantScopeType::Tenant => true,
        GrantScopeType::SelfScope => resource.scope_type == GrantScopeType::SelfScope
            && match resource.scope_id {
            Some(id) => id == own_user_id,
            None => false,
        },
        _ => grant_scope.scope_type == resource.scope_type && match (
            grant_scope.scope_id,
            resource.scope_id,
        ) {
            (Some(g), Some(r)) => g == r,
            (None, None) => true,
            _ => false,
        },
    }
}

/// An override with `effect` that is active at `now`, names `permission`, and covers `resource`.
pub open spec fn override_applies(
    effect: OverrideEffect,
    permission: Seq<char>,
    resource: AccessScope,
    principal: Uuid,
    now: Timestamp,
) -> spec_fn(PermissionOverride) -> bool {
    |o: PermissionOverride|
        o.effect == effect && active_at(o.revoked_at, o.expires_at, now) && o.permission_code@
            == permission && covers(o.scope, resource, principal)
}

/// The role with id `id`: the first such entry of `roles`.
pub open spec fn role_index(roles: Seq<RoleDefinition>, id: Uuid) -> Option<int> {
    first_where(roles, |r: RoleDefinition| r.id == id)
}

/// An active grant whose role exists, holds `permission`, and whose scope covers `resource`.
pub open spec fn grant_applies(
    roles: Seq<RoleDefinition>,
    permission: Seq<char>,
    resource: AccessScope,
    principal: Uuid,
    now: Timestamp,
) -> spec_fn(AccessGrant) -> bool {
    |g: AccessGrant|
        active_at(g.revoked_at, g.expires_at, now) && match role_index(roles, g.role_id) {
            Some(j) => roles[j].grants_permission(permission) && covers(g.scope, resource, principal),
            None => false,
        }
}

/// The engine's decision: whether it allows, and its single reason.
pub open spec fn evaluation(
    permission: Seq<char>,
    resource: AccessScope,
    principal: Uuid,
    grants: Seq<AccessGrant>,
    roles: Seq<RoleDefinition>,
    overrides: Seq<PermissionOverride>,
    now: Timestamp,
    module_enabled: bool,
) -> (bool, Seq<char>) {
    if !module_enabled {
        (false, "module_disabled"@)
    } else if let Some(i) = first_where(
        overrides,
        override_applies(OverrideEffect::Deny, permission, resource, principal, now),
    ) {
        (false, "override_deny:"@ + uuid_text(overrides[i].id))
    } else if let Some(i) = first_where(
        overrides,
        override_applies(OverrideEffect::Allow, permission, resource, principal, now),
    ) {
        (true, "override_allow:"@ + uuid_text(overrides[i].id))
    } else if let Some(i) = first_where(
        grants,
        grant_applies(roles, permission, resource, principal, now),
    ) {
        (
            true,
            "grant:"@ + uuid_text(grants[i].id) + " role:"@ + roles[role_index(
                roles,
                grants[i].role_id,
            ).unwrap()].name@,
        )
    } else {
        (false, "no_covering_grant"@)
    }
}

impl<'a> EvaluationInput<'a> {
    pub open spec fn decision(self) -> (bool, Seq<char>) {
        evaluation(
            self.permission@,
            self.resource,
            self.principal_user_id,
            self.grants@,
            self.roles@,
            self.overrides@,
            self.now,
            self.module_enabled,
        )
    }
}

fn override_matches(
    o: &PermissionOverride,
    effect: OverrideEffect,
    permission: &str,
    resource: &AccessScope,
    principal: Uuid,
    now: Timestamp,
) -> (r: bool)
    ensures
        r == (override_applies(effect, permission@, *resource, principal, now))(*o),
{
    o.effect == effect && o.is_active(now) && str_eq(o.permission_code.as_str(), permission)
        && scope_covers(&o.scope, resource, principal)
}

/// Index of the first override with `effect` that applies.
fn find_override(
    overrides: &Vec<PermissionOverride>,
    effect: OverrideEffect,
    permission: &str,
    resource: &AccessScope,
    principal: Uuid,
    now: Timestamp,
) -> (r: Option<usize>)
    ensures
        match r {
            Some(i) => i < overrides.len() && first_where(
                overrides@,
                override_applies(effect, permission@, *resource, principal, now),
            ) == Some(i as int),
            None => first_where(
                overrides@,
                override_applies(effect, permission@, *resource, principal, now),
            ) is None,
        },
{
    let ghost p = override_applies(effect, permission@, *resource, principal, now);
    let mut i: usize = 0;
    while i < overrides.len()
        invariant
            i <= overrides.len(),
            p == override_applies(effect, permission@, *resource, principal, now),
            forall|k: int| 0 <= k < i ==> !p(overrides@[k]),
        decreases overrides.len() - i,
    {
        if override_matches(&overrides[i], effect, permission, resource, principal, now) {
            proof {
                lemma_first_where_found(overrides@, p, i as int);
            }
            return Some(i);
        }
        i = i + 1;
    }
    proof {
        lemma_first_where_none(overrides@, p);
    }
    None
}

/// Index of the role with id `id` in `roles` (the first one).
pub fn find_role(roles: &Vec<RoleDefinition>, id: Uuid) -> (r: Option<usize>)
    ensures
        match r {
            Some(j) => j < roles.len() && role_index(roles@, id) == Some(j as int),
            None => role_index(roles@, id) is None,
        },
{
    let ghost p = |r: RoleDefinition| r.id == id;
    let mut i: usize = 0;
    while i < roles.len()
        invariant
            i <= roles.len(),
            p == (|r: RoleDefinition| r.id == id),
            forall|k: int| 0 <= k < i ==> !p(roles@[k]),
        decreases roles.len() - i,
    {
        if roles[i].id == id {
            proof {
                lemma_first_where_found(roles@, p, i as int);
            }
            return Some(i);
        }
        i = i + 1;
    }
    proof {
        lemma_first_where_none(roles@, p);
    }
    None
}

/// Index of the first grant that applies.
fn find_grant(
    grants: &Vec<AccessGrant>,
    roles: &Vec<RoleDefinition>,
    permission: &str,
    resource: &AccessScope,
    principal: Uuid,
    now: Timestamp,
) -> (r: Option<(usize, usize)>)
    ensures
        match r {
            Some((i, j)) => i < grants.len() && j < roles.len() && first_where(
                grants@,
                grant_applies(roles@, permission@, *resource, principal, now),
            ) == Some(i as int) && role_index(roles@, grants@[i as int].role_id) == Some(j as int),
            None => first_where(
                grants@,
                grant_applies(roles@, permission@, *resource, principal, now),
            ) is None,
        },
{
    let ghost p = grant_applies(roles@, permission@, *resource, principal, now);
    let mut i: usize = 0;
    while i < grants.len()
        invariant
            i <= grants.len(),
            p == grant_applies(roles@, permission@, *resource, principal, now),
            forall|k: int| 0 <= k < i ==> !p(grants@[k]),
        decreases grants.len() - i,
    {
        let grant = &grants[i];
        if grant.is_active(now) {
            match find_role(roles, grant.role_id) {
                Some(j) => {
                    if roles[j].has_permission(permission) && scope_covers(
                        &grant.scope,
                        resource,
                        principal,
                    ) {
                        proof {
                            lemma_first_where_found(grants@, p, i as int);
                        }
                        return Some((i, j));
                    }
                },
                None => {},
            }
        }
        i = i + 1;
    }
    proof {
        lemma_first_where_none(grants@, p);
    }
    None
}

/// Namespace for the pure evaluation entry point.
pub struct PermissionEngine;

impl PermissionEngine {
    pub fn evaluate(input: EvaluationInput<'_>) -> (r: AuthzDecision)
        ensures
            decided(r, input.decision().0, input.decision().1),
    {
        evaluate(input)
    }
}

/// Run the fail-closed decision described in the module docs.
pub fn evaluate(input: EvaluationInput<'_>) -> (r: AuthzDecision)
    ensures
        decided(r, input.decision().0, input.decision().1),
{
    if !input.module_enabled {
        return AuthzDecision::deny_for("module_disabled");
    }
    match find_override(
        input.overrides,
        OverrideEffect::Deny,
        input.permission,
        &input.resource,
        input.principal_user_id,
        input.now,
    ) {
        Some(i) => {
            let id = uuid_hyphenated(input.overrides[i].id);
            return AuthzDecision::deny(join("override_deny:", id.as_str()));
        },
        None => {},
    }
    match find_override(
        input.overrides,
        OverrideEffect::Allow,
        input.permission,
        &input.resource,
        input.principal_user_id,
        input.now,
    ) {
        Some(i) => {
            let id = uuid_hyphenated(input.overrides[i].id);
            return AuthzDecision::allow(join("override_allow:", id.as_str()));
        },
        None => {},
    }
    match find_grant(
        input.grants,
        input.roles,
        input.permission,
        &input.resource,
        input.principal_user_id,
        input.now,
    ) {
        Some((i, j)) => {
            let id = uuid_hyphenated(input.grants[i].id);
            let mut reason = join("grant:", id.as_str());
            reason.append(" role:");
            reason.append(input.roles[j].name.as_str());
            AuthzDecision::allow(reason)
        },
        None => AuthzDecision::deny_for("no_covering_grant"),
    }
}

} // verus!

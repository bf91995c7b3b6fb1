//! The authorization service: the only fail-closed permission decision path, and the grant and
//! override writes that feed it.
//!
//! `allow ⇔ tenant active ∧ principal active ∧ no policy refuses ∧ the permission engine allows`,
//! where the engine is told whether the permission's module is licensed.
use vstd::prelude::*;

use crate::application::apis::CorePorts;
use crate::application::audit::{id_json, id_json_text, logged, last_hash};
use crate::application::license::{module_enabled, LicenseService};
use crate::application::store::{find_key, key_index, upsert, upserted, MemoryStore, Table};
use crate::domain::authz::{decided, AccessScope, AuthzDecision};
use crate::domain::codes::{override_effect_str, override_effect_text};
use crate::domain::enums::{GrantKind, OverrideEffect, TenantStatus, UserStatus};
use crate::domain::error::{is_forbidden, is_not_found, is_validation, CoreError};
use crate::domain::models::{AccessGrant, PermissionOverride, RoleDefinition, Tenant, User};
use crate::domain::permissions::{license_gated_module_prefixes, license_gated_prefix};
use crate::domain::rbac::permission_engine::{evaluation, EvaluationInput, PermissionEngine};
use crate::domain::rbac::policies::{
    sealed_refuses, AbacContext, AuthorizationPolicy, DefaultRbacPolicy, SealedResourcePolicy,
};
use crate::domain::rbac::role_engine::{expiry_message, grant_kind_needs_expiry, kind_needs_expiry, RoleEngine};
use crate::events::{actor_for, actor_of, CoreEvent, EventEnvelope, ResourceRef};
use crate::external::{clock_now, json_quoted, json_string, new_uuid, string_from_chars};
use crate::ids::{
    representable, GrantId, PermissionOverrideId, PrincipalId, RoleId, TenantId, Timestamp, UserId,
    Uuid,
};
use crate::lists::{keep, lemma_keep_step};
use crate::text::{
    before_first, chars_are, chars_of, first_segment, json_object, json_object_text, text,
};

verus! {

broadcast use vstd::string::group_string_axioms;

/// One authorization question: may `principal` exercise `permission` on `resource`?
#[derive(Debug)]
pub struct AuthorizeRequest {
    pub tenant_id: TenantId,
    pub principal: PrincipalId,
    pub permission: String,
    pub resource: AccessScope,
    pub abac: AbacContext,
}

impl AuthorizeRequest {
    /// A request with no attribute signal.
    pub fn new(tenant_id: TenantId, principal: PrincipalId, permission: String, resource: AccessScope) -> (r:
        Self)
        ensures
            r.tenant_id == tenant_id,
            r.principal == principal,
            r.permission == permission,
            r.resource == resource,
            r.abac.is_empty_context(),
    {
        AuthorizeRequest { tenant_id, principal, permission, resource, abac: AbacContext::empty() }
    }
}

/// Bind a user to a role within a scope.
#[derive(Debug)]
pub struct GrantAccessCommand {
    pub tenant_id: TenantId,
    pub user_id: UserId,
    pub role_id: RoleId,
    pub scope: AccessScope,
    pub grant_kind: GrantKind,
    pub expires_at: Option<Timestamp>,
    pub created_by: Option<UserId>,
}

/// Create an explicit allow or deny of one permission for one user.
#[derive(Debug)]
pub struct UpsertPermissionOverrideCommand {
    pub tenant_id: TenantId,
    pub user_id: UserId,
    pub permission: String,
    pub effect: OverrideEffect,
    pub scope: AccessScope,
    pub reason: Option<String>,
    pub expires_at: Option<Timestamp>,
    pub created_by: Option<UserId>,
}

/// The module a permission is license-gated under: its first dot-separated segment, when that
/// is a gated module prefix. Other permissions (such as `core.*`) are never gated.
pub open spec fn gated_module(permission: Seq<char>) -> Option<Seq<char>> {
    let prefix = before_first(permission, '.');
    if license_gated_prefix(prefix) {
        Some(prefix)
    } else {
        None
    }
}

/// The license gate of `permission` is open for the tenant.
pub open spec fn gate_open(store: MemoryStore, tenant_id: TenantId, permission: Seq<char>) -> bool {
    match gated_module(permission) {
        Some(m) => module_enabled(store, tenant_id, m),
        None => true,
    }
}

/// The stored tenant with this id.
pub open spec fn tenant_of(store: MemoryStore, id: TenantId) -> Option<Tenant> {
    match key_index(store.tenants@, id) {
        Some(i) => Some(store.tenants@[i]),
        None => None,
    }
}

/// The stored user with this id, when it belongs to the tenant.
pub open spec fn user_of(store: MemoryStore, tenant_id: TenantId, id: UserId) -> Option<User> {
    match key_index(store.users@, id) {
        Some(i) => if store.users@[i].tenant_id == tenant_id {
            Some(store.users@[i])
        } else {
            None
        },
        None => None,
    }
}

pub open spec fn grant_of_user(tenant_id: TenantId, user_id: UserId) -> spec_fn(AccessGrant) -> bool {
    |g: AccessGrant| g.tenant_id == tenant_id && g.user_id == user_id
}

pub open spec fn override_of_user(tenant_id: TenantId, user_id: UserId) -> spec_fn(
    PermissionOverride,
) -> bool {
    |o: PermissionOverride| o.tenant_id == tenant_id && o.user_id == user_id
}

/// The user's grants in the tenant, in store order.
pub open spec fn grants_for(store: MemoryStore, tenant_id: TenantId, user_id: UserId) -> Seq<AccessGrant> {
    keep(store.grants@, grant_of_user(tenant_id, user_id))
}

/// The user's overrides in the tenant, in store order.
pub open spec fn overrides_for(store: MemoryStore, tenant_id: TenantId, user_id: UserId) -> Seq<
    PermissionOverride,
> {
    keep(store.overrides@, override_of_user(tenant_id, user_id))
}

/// The decision on `permission` over `resource` for `principal` at `now`, given the resource's
/// lifecycle state: whether it allows, and its reason.
pub open spec fn decision_for(
    store: MemoryStore,
    tenant_id: TenantId,
    principal: PrincipalId,
    permission: Seq<char>,
    resource: AccessScope,
    resource_state: Option<String>,
    now: Timestamp,
) -> (bool, Seq<char>) {
    match tenant_of(store, tenant_id) {
        None => (false, "tenant_not_found"@),
        Some(t) => if t.status != TenantStatus::Active {
            (false, "tenant_not_active"@)
        } else {
            match user_of(store, tenant_id, principal) {
                None => (false, "principal_not_found"@),
                Some(u) => if u.status != UserStatus::Active {
                    (false, "user_not_active"@)
                } else if sealed_refuses(resource_state, permission) {
                    (false, "resource_sealed"@)
                } else {
                    evaluation(
                        permission,
                        resource,
                        u.id,
                        grants_for(store, tenant_id, principal),
                        store.roles@,
                        overrides_for(store, tenant_id, principal),
                        now,
                        gate_open(store, tenant_id, permission),
                    )
                },
            }
        },
    }
}

/// The decision on `req` at `now`: whether it allows, and its reason.
pub open spec fn authorization(store: MemoryStore, req: AuthorizeRequest, now: Timestamp) -> (bool, Seq<char>) {
    decision_for(
        store,
        req.tenant_id,
        req.principal,
        req.permission@,
        req.resource,
        req.abac.resource_state,
        now,
    )
}

/// The whole-tenant scope.
pub open spec fn tenant_scope() -> AccessScope {
    AccessScope { scope_type: crate::domain::enums::GrantScopeType::Tenant, scope_id: None }
}

/// The module a permission is gated under (see [`gated_module`]).
pub fn license_gated_module(permission: &str) -> (r: Option<String>)
    ensures
        match gated_module(permission@) {
            Some(m) => r matches Some(s) && s@ == m,
            None => r is None,
        },
{
    let chars = chars_of(permission);
    let prefix = first_segment(&chars, '.');
    let gated = license_gated_module_prefixes();
    let mut i: usize = 0;
    while i < gated.len()
        invariant
            i <= gated.len(),
            gated@.len() == 7,
            prefix@ == before_first(permission@, '.'),
            forall|p: Seq<char>| license_gated_prefix(p) <==> exists|k: int|
                0 <= k < 7 && gated@[k]@ == p,
            forall|k: int| 0 <= k < i ==> gated@[k]@ != prefix@,
        decreases gated.len() - i,
    {
        if chars_are(&prefix, gated[i]) {
            return Some(string_from_chars(&prefix));
        }
        i = i + 1;
    }
    None
}

fn user_grants(rows: &Vec<AccessGrant>, tenant_id: TenantId, user_id: UserId) -> (r: Vec<AccessGrant>)
    ensures
        r@ == keep(rows@, grant_of_user(tenant_id, user_id)),
{
    let ghost p = grant_of_user(tenant_id, user_id);
    let mut r: Vec<AccessGrant> = Vec::new();
    let mut i: usize = 0;
    while i < rows.len()
        invariant
            i <= rows.len(),
            p == grant_of_user(tenant_id, user_id),
            r@ == keep(rows@.subrange(0, i as int), p),
        decreases rows.len() - i,
    {
        proof {
            lemma_keep_step(rows@, p, i as int);
        }
        if rows[i].tenant_id == tenant_id && rows[i].user_id == user_id {
            r.push(rows[i].clone());
        }
        i = i + 1;
    }
    proof {
        assert(rows@.subrange(0, rows@.len() as int) =~= rows@);
    }
    r
}

fn user_overrides(rows: &Vec<PermissionOverride>, tenant_id: TenantId, user_id: UserId) -> (r: Vec<
    PermissionOverride,
>)
    ensures
        r@ == keep(rows@, override_of_user(tenant_id, user_id)),
{
    let ghost p = override_of_user(tenant_id, user_id);
    let mut r: Vec<PermissionOverride> = Vec::new();
    let mut i: usize = 0;
    while i < rows.len()
        invariant
            i <= rows.len(),
            p == override_of_user(tenant_id, user_id),
            r@ == keep(rows@.subrange(0, i as int), p),
        decreases rows.len() - i,
    {
        proof {
            lemma_keep_step(rows@, p, i as int);
        }
        if rows[i].tenant_id == tenant_id && rows[i].user_id == user_id {
            r.push(rows[i].clone());
        }
        i = i + 1;
    }
    proof {
        assert(rows@.subrange(0, rows@.len() as int) =~= rows@);
    }
    r
}

/// The fail-closed authorization service.
#[derive(Debug, Clone, Copy)]
pub struct AuthzService;

impl AuthzService {
    pub fn new() -> (r: Self) {
        AuthzService
    }

    fn module_enabled(&self, ports: &CorePorts, tenant_id: TenantId, permission: &str) -> (r: Result<
        bool,
        CoreError,
    >)
        ensures
            r == Ok::<bool, CoreError>(gate_open(ports.store, tenant_id, permission@)),
    {
        match license_gated_module(permission) {
            Some(module) => LicenseService::new().is_module_enabled(ports, tenant_id, module.as_str()),
            None => Ok(true),
        }
    }

    /// Decide `req` as of `now` (see [`authorization`]).
    pub fn authorize_at(&self, ports: &CorePorts, req: &AuthorizeRequest, now: Timestamp) -> (r:
        Result<AuthzDecision, CoreError>)
        ensures
            r matches Ok(d) && decided(
                d,
                authorization(ports.store, *req, now).0,
                authorization(ports.store, *req, now).1,
            ),
    {
        let tenant = match find_key(&ports.store.tenants, req.tenant_id) {
            Some(i) => &ports.store.tenants[i],
            None => {
                return Ok(AuthzDecision::deny_for("tenant_not_found"));
            },
        };
        if tenant.status != TenantStatus::Active {
            return Ok(AuthzDecision::deny_for("tenant_not_active"));
        }
        let user_id = req.principal;
        let user = match find_key(&ports.store.users, user_id) {
            Some(i) => {
                if ports.store.users[i].tenant_id == req.tenant_id {
                    &ports.store.users[i]
                } else {
                    return Ok(AuthzDecision::deny_for("principal_not_found"));
                }
            },
            None => {
                return Ok(AuthzDecision::deny_for("principal_not_found"));
            },
        };
        if user.status != UserStatus::Active {
            return Ok(AuthzDecision::deny_for("user_not_active"));
        }
        match SealedResourcePolicy.before_rbac(&req.abac, req.permission.as_str()) {
            Some(d) => {
                return Ok(d);
            },
            None => {},
        }
        match DefaultRbacPolicy.before_rbac(&req.abac, req.permission.as_str()) {
            Some(d) => {
                return Ok(d);
            },
            None => {},
        }
        let module_enabled = match self.module_enabled(ports, req.tenant_id, req.permission.as_str()) {
            Ok(b) => b,
            Err(e) => {
                return Err(e);
            },
        };
        let grants = user_grants(&ports.store.grants, req.tenant_id, user_id);
        let overrides = user_overrides(&ports.store.overrides, req.tenant_id, user_id);
        let decision = PermissionEngine::evaluate(
            EvaluationInput {
                permission: req.permission.as_str(),
                resource: req.resource,
                principal_user_id: user.id,
                grants: &grants,
                roles: &ports.store.roles,
                overrides: &overrides,
                now,
                module_enabled,
            },
        );
        if decision.is_allowed() {
            match SealedResourcePolicy.after_allow(&req.abac, req.permission.as_str()) {
                Some(revoked) => {
                    return Ok(revoked);
                },
                None => {},
            }
            match DefaultRbacPolicy.after_allow(&req.abac, req.permission.as_str()) {
                Some(revoked) => {
                    return Ok(revoked);
                },
                None => {},
            }
        }
        Ok(decision)
    }

    /// Decide `req` now.
    pub fn authorize(&self, ports: &CorePorts, req: AuthorizeRequest) -> (r: Result<
        AuthzDecision,
        CoreError,
    >)
        ensures
            r matches Ok(d) && exists|now: Timestamp|
                representable(now as int) && decided(
                    d,
                    #[trigger] authorization(ports.store, req, now).0,
                    authorization(ports.store, req, now).1,
                ),
    {
        let now = clock_now();
        self.authorize_at(ports, &req, now)
    }
}

/// The audit payload of a grant: `{"role_id":..,"user_id":..}`.
pub open spec fn grant_payload(g: AccessGrant) -> Seq<char> {
    json_object_text(seq![("role_id"@, id_json_text(g.role_id)), ("user_id"@, id_json_text(g.user_id))])
}

/// The audit payload of an override: `{"effect":..,"permission_code":..,"user_id":..}`.
pub open spec fn override_payload(o: PermissionOverride) -> Seq<char> {
    json_object_text(
        seq![
            ("effect"@, json_quoted(override_effect_text(o.effect))),
            ("permission_code"@, json_quoted(o.permission_code@)),
            ("user_id"@, id_json_text(o.user_id)),
        ],
    )
}

/// The empty JSON object.
pub open spec fn empty_object() -> Seq<char> {
    "{}"@
}

/// `g` is the grant `cmd` asks for, with a fresh id and a creation time.
pub open spec fn grant_from(g: AccessGrant, cmd: GrantAccessCommand) -> bool {
    &&& g.tenant_id == cmd.tenant_id
    &&& g.user_id == cmd.user_id
    &&& g.role_id == cmd.role_id
    &&& g.scope == cmd.scope
    &&& g.grant_kind == cmd.grant_kind
    &&& g.expires_at == cmd.expires_at
    &&& g.revoked_at is None
    &&& representable(g.created_at as int)
    &&& g.created_by == cmd.created_by
}

/// `o` is the override `cmd` asks for, with a fresh id and a creation time.
pub open spec fn override_from(o: PermissionOverride, cmd: UpsertPermissionOverrideCommand) -> bool {
    &&& o.tenant_id == cmd.tenant_id
    &&& o.user_id == cmd.user_id
    &&& o.permission_code == cmd.permission
    &&& o.effect == cmd.effect
    &&& o.scope == cmd.scope
    &&& o.reason == cmd.reason
    &&& o.expires_at == cmd.expires_at
    &&& o.revoked_at is None
    &&& representable(o.created_at as int)
    &&& o.created_by == cmd.created_by
}

/// The stored role with this id.
pub open spec fn role_of(store: MemoryStore, id: RoleId) -> Option<RoleDefinition> {
    match key_index(store.roles@, id) {
        Some(i) => Some(store.roles@[i]),
        None => None,
    }
}

/// `codes` with every code of `more` not yet in it appended, in order.
pub open spec fn add_codes(codes: Seq<Seq<char>>, more: Seq<String>) -> Seq<Seq<char>>
    decreases more.len(),
{
    if more.len() == 0 {
        codes
    } else {
        let before = add_codes(codes, more.drop_last());
        if before.contains(more.last()@) {
            before
        } else {
            before.push(more.last()@)
        }
    }
}

/// The distinct permission codes of the roles of the active grants among `grants`, in the order
/// first met.
pub open spec fn effective_codes(grants: Seq<AccessGrant>, store: MemoryStore, now: Timestamp) -> Seq<
    Seq<char>,
>
    decreases grants.len(),
{
    if grants.len() == 0 {
        Seq::empty()
    } else {
        let before = effective_codes(grants.drop_last(), store, now);
        let g = grants.last();
        if crate::domain::models::active_at(g.revoked_at, g.expires_at, now) {
            match role_of(store, g.role_id) {
                Some(role) => add_codes(before, role.permissions@),
                None => before,
            }
        } else {
            before
        }
    }
}

fn contains_text_in(codes: &Vec<String>, code: &String) -> (r: bool)
    ensures
        r == texts_of(codes@).contains(code@),
{
    let mut i: usize = 0;
    while i < codes.len()
        invariant
            i <= codes.len(),
            forall|k: int| 0 <= k < i ==> codes@[k]@ != code@,
        decreases codes.len() - i,
    {
        if crate::text::str_eq(codes[i].as_str(), code.as_str()) {
            assert(texts_of(codes@)[i as int] == code@);
            return true;
        }
        i = i + 1;
    }
    proof {
        if texts_of(codes@).contains(code@) {
            let k = choose|k: int| 0 <= k < texts_of(codes@).len() && texts_of(codes@)[k] == code@;
            assert(codes@[k]@ == code@);
        }
    }
    false
}

/// The texts of a list of strings.
pub open spec fn texts_of(v: Seq<String>) -> Seq<Seq<char>> {
    v.map_values(|s: String| s@)
}

fn append_new_codes(codes: &mut Vec<String>, more: &Vec<String>)
    ensures
        texts_of(final(codes)@) == add_codes(texts_of(old(codes)@), more@),
{
    let ghost start = texts_of(codes@);
    let mut i: usize = 0;
    while i < more.len()
        invariant
            i <= more.len(),
            texts_of(codes@) == add_codes(start, more@.subrange(0, i as int)),
        decreases more.len() - i,
    {
        proof {
            assert(more@.subrange(0, i + 1).drop_last() =~= more@.subrange(0, i as int));
        }
        if !contains_text_in(codes, &more[i]) {
            codes.push(more[i].clone());
            proof {
                assert(texts_of(codes@) =~= add_codes(start, more@.subrange(0, i as int)).push(
                    more@[i as int]@,
                ));
            }
        }
        i = i + 1;
    }
    proof {
        assert(more@.subrange(0, more@.len() as int) =~= more@);
    }
}

impl AuthzService {
    /// Bind a user to a role within a scope. The role must exist; temporary access needs an
    /// expiry. A scope that does not suit the role's kind is allowed.
    pub fn grant_access(&self, ports: &mut CorePorts, cmd: GrantAccessCommand) -> (r: Result<
        AccessGrant,
        CoreError,
    >)
        ensures
            match role_of(old(ports).store, cmd.role_id) {
                None => r matches Err(e) && is_validation(e, "role does not exist"@) && *final(ports)
                    == *old(ports),
                Some(role) => if (kind_needs_expiry(role.kind) || grant_kind_needs_expiry(
                    cmd.grant_kind,
                )) && cmd.expires_at is None {
                    r matches Err(e) && is_validation(e, expiry_message(role.kind, cmd.grant_kind))
                        && *final(ports) == *old(ports)
                } else {
                    r matches Ok(g) && {
                        &&& grant_from(g, cmd)
                        &&& final(ports).store.grants@ == upserted(old(ports).store.grants@, g)
                        &&& logged(
                            old(ports).store.audit@,
                            final(ports).store.audit@,
                            cmd.tenant_id,
                            cmd.created_by,
                            "user"@,
                            "core.access.granted"@,
                            "access_grant"@,
                            Some(g.id),
                            grant_payload(g),
                            "authz"@,
                            None,
                        )
                        &&& final(ports).evolved(*old(ports), set![Table::Grants, Table::Audit], 1)
                        &&& final(ports).event(*old(ports), 0).wraps(
                            cmd.tenant_id,
                            actor_of(cmd.created_by),
                            "access_grant"@,
                            g.id,
                            None,
                            None,
                            CoreEvent::AccessGranted {
                                tenant_id: cmd.tenant_id,
                                grant_id: g.id,
                                user_id: g.user_id,
                                role_id: g.role_id,
                            },
                        )
                    }
                },
            },
    {
        let role_kind = match find_key(&ports.store.roles, cmd.role_id) {
            Some(i) => ports.store.roles[i].kind,
            None => {
                return Err(CoreError::validation("role does not exist"));
            },
        };
        match RoleEngine::validate_expiry(role_kind, cmd.grant_kind, cmd.expires_at) {
            Ok(()) => {},
            Err(m) => {
                return Err(CoreError::Validation(m));
            },
        }
        let _warning = RoleEngine::validate_role_for_scope(role_kind, &cmd.scope);
        let ghost old_events = ports.outbox.events@;
        let grant = AccessGrant {
            id: new_uuid(),
            tenant_id: cmd.tenant_id,
            user_id: cmd.user_id,
            role_id: cmd.role_id,
            scope: cmd.scope,
            grant_kind: cmd.grant_kind,
            expires_at: cmd.expires_at,
            revoked_at: None,
            created_at: clock_now(),
            created_by: cmd.created_by,
        };
        upsert(&mut ports.store.grants, grant.clone());
        let keys: Vec<&str> = vec!["role_id", "user_id"];
        let values: Vec<String> = vec![id_json(grant.role_id), id_json(grant.user_id)];
        let payload = json_object(&keys, &values);
        proof {
            let fields = Seq::new(keys.len() as nat, |i: int| (keys@[i]@, values@[i]@));
            assert(fields =~= seq![
                ("role_id"@, id_json_text(grant.role_id)),
                ("user_id"@, id_json_text(grant.user_id)),
            ]);
        }
        ports.store.log_service_action(
            cmd.tenant_id,
            cmd.created_by,
            "user",
            "core.access.granted",
            "access_grant",
            Some(grant.id),
            payload,
            "authz",
            None,
        );
        let envelope = EventEnvelope::new(
            cmd.tenant_id,
            actor_for(cmd.created_by),
            ResourceRef { resource_type: text("access_grant"), resource_id: grant.id },
            None,
            None,
            CoreEvent::AccessGranted {
                tenant_id: cmd.tenant_id,
                grant_id: grant.id,
                user_id: grant.user_id,
                role_id: grant.role_id,
            },
        );
        ports.outbox.publish(envelope);
        proof {
            assert(ports.outbox.events@.subrange(0, old_events.len() as int) =~= old_events);
        }
        Ok(grant)
    }

    /// Revoke a grant of the tenant (it stays stored, stamped with its revocation time).
    pub fn revoke_access(
        &self,
        ports: &mut CorePorts,
        tenant_id: TenantId,
        grant_id: GrantId,
        revoked_by: Option<UserId>,
    ) -> (r: Result<(), CoreError>)
        ensures
            match key_index(old(ports).store.grants@, grant_id) {
                Some(i) if old(ports).store.grants@[i].tenant_id == tenant_id => r is Ok && {
                    let g = old(ports).store.grants@[i];
                    &&& final(ports).store.grants@.len() == old(ports).store.grants@.len()
                    &&& final(ports).store.grants@ == old(ports).store.grants@.update(
                        i,
                        AccessGrant { revoked_at: final(ports).store.grants@[i].revoked_at, ..g },
                    )
                    &&& final(ports).store.grants@[i].revoked_at matches Some(t) && representable(
                        t as int,
                    )
                    &&& logged(
                        old(ports).store.audit@,
                        final(ports).store.audit@,
                        tenant_id,
                        revoked_by,
                        "user"@,
                        "core.access.revoked"@,
                        "access_grant"@,
                        Some(grant_id),
                        empty_object(),
                        "authz"@,
                        None,
                    )
                    &&& final(ports).evolved(*old(ports), set![Table::Grants, Table::Audit], 1)
                    &&& final(ports).event(*old(ports), 0).wraps(
                        tenant_id,
                        actor_of(revoked_by),
                        "access_grant"@,
                        grant_id,
                        None,
                        None,
                        CoreEvent::AccessRevoked { tenant_id, grant_id },
                    )
                },
                _ => r matches Err(e) && is_not_found(e, "access_grant"@) && *final(ports)
                    == *old(ports),
            },
    {
        let i = match find_key(&ports.store.grants, grant_id) {
            Some(i) => {
                if ports.store.grants[i].tenant_id != tenant_id {
                    return Err(CoreError::not_found("access_grant"));
                }
                i
            },
            None => {
                return Err(CoreError::not_found("access_grant"));
            },
        };
        let ghost old_events = ports.outbox.events@;
        let mut revoked = ports.store.grants[i].clone();
        revoked.revoked_at = Some(clock_now());
        ports.store.grants.set(i, revoked);
        ports.store.log_service_action(
            tenant_id,
            revoked_by,
            "user",
            "core.access.revoked",
            "access_grant",
            Some(grant_id),
            text("{}"),
            "authz",
            None,
        );
        let envelope = EventEnvelope::new(
            tenant_id,
            actor_for(revoked_by),
            ResourceRef { resource_type: text("access_grant"), resource_id: grant_id },
            None,
            None,
            CoreEvent::AccessRevoked { tenant_id, grant_id },
        );
        ports.outbox.publish(envelope);
        proof {
            assert(ports.outbox.events@.subrange(0, old_events.len() as int) =~= old_events);
        }
        Ok(())
    }

    /// The distinct permission codes of the roles the principal holds through grants active at
    /// `now` (see [`effective_codes`]).
    pub fn list_effective_permissions_at(
        &self,
        ports: &CorePorts,
        tenant_id: TenantId,
        principal: PrincipalId,
        now: Timestamp,
    ) -> (r: Result<Vec<String>, CoreError>)
        ensures
            r matches Ok(codes) && texts_of(codes@) == effective_codes(
                grants_for(ports.store, tenant_id, principal),
                ports.store,
                now,
            ),
    {
        let grants = user_grants(&ports.store.grants, tenant_id, principal);
        let mut codes: Vec<String> = Vec::new();
        let mut i: usize = 0;
        while i < grants.len()
            invariant
                i <= grants.len(),
                texts_of(codes@) == effective_codes(grants@.subrange(0, i as int), ports.store, now),
            decreases grants.len() - i,
        {
            proof {
                assert(grants@.subrange(0, i + 1).drop_last() =~= grants@.subrange(0, i as int));
            }
            if grants[i].is_active(now) {
                match find_key(&ports.store.roles, grants[i].role_id) {
                    Some(j) => {
                        append_new_codes(&mut codes, &ports.store.roles[j].permissions);
                    },
                    None => {},
                }
            }
            i = i + 1;
        }
        proof {
            assert(grants@.subrange(0, grants@.len() as int) =~= grants@);
            assert(texts_of(Seq::<String>::empty()) =~= Seq::<Seq<char>>::empty());
        }
        Ok(codes)
    }

    /// The distinct permission codes the principal holds now.
    pub fn list_effective_permissions(&self, ports: &CorePorts, tenant_id: TenantId, principal: PrincipalId) -> (r:
        Result<Vec<String>, CoreError>)
        ensures
            r matches Ok(codes) && exists|now: Timestamp|
                representable(now as int) && texts_of(codes@) == #[trigger] effective_codes(
                    grants_for(ports.store, tenant_id, principal),
                    ports.store,
                    now,
                ),
    {
        self.list_effective_permissions_at(ports, tenant_id, principal, clock_now())
    }

    /// Create an explicit allow or deny of one permission for one user. A deny wins over any
    /// covering grant; an allow grants access without any role.
    pub fn upsert_permission_override(&self, ports: &mut CorePorts, cmd: UpsertPermissionOverrideCommand) -> (r:
        Result<PermissionOverride, CoreError>)
        ensures
            r matches Ok(o) && {
                &&& override_from(o, cmd)
                &&& final(ports).store.overrides@ == upserted(old(ports).store.overrides@, o)
                &&& logged(
                    old(ports).store.audit@,
                    final(ports).store.audit@,
                    cmd.tenant_id,
                    cmd.created_by,
                    "user"@,
                    "core.override.created"@,
                    "permission_override"@,
                    Some(o.id),
                    override_payload(o),
                    "authz"@,
                    None,
                )
                &&& final(ports).evolved(*old(ports), set![Table::Overrides, Table::Audit], 1)
                &&& final(ports).event(*old(ports), 0).wraps(
                    cmd.tenant_id,
                    actor_of(cmd.created_by),
                    "permission_override"@,
                    o.id,
                    None,
                    None,
                    final(ports).event(*old(ports), 0).payload,
                )
                &&& final(ports).event(*old(ports), 0).payload matches CoreEvent::PermissionOverrideCreated {
                    tenant_id,
                    override_id,
                    user_id,
                    permission_code,
                } && tenant_id == cmd.tenant_id && override_id == o.id && user_id == o.user_id
                    && permission_code == o.permission_code
            },
    {
        let ghost old_events = ports.outbox.events@;
        let o = PermissionOverride {
            id: new_uuid(),
            tenant_id: cmd.tenant_id,
            user_id: cmd.user_id,
            permission_code: cmd.permission,
            effect: cmd.effect,
            scope: cmd.scope,
            reason: cmd.reason,
            expires_at: cmd.expires_at,
            revoked_at: None,
            created_at: clock_now(),
            created_by: cmd.created_by,
        };
        upsert(&mut ports.store.overrides, o.clone());
        let keys: Vec<&str> = vec!["effect", "permission_code", "user_id"];
        let values: Vec<String> = vec![
            json_string(override_effect_str(o.effect)),
            json_string(o.permission_code.as_str()),
            id_json(o.user_id),
        ];
        let payload = json_object(&keys, &values);
        proof {
            let fields = Seq::new(keys.len() as nat, |i: int| (keys@[i]@, values@[i]@));
            assert(fields =~= seq![
                ("effect"@, json_quoted(override_effect_text(o.effect))),
                ("permission_code"@, json_quoted(o.permission_code@)),
                ("user_id"@, id_json_text(o.user_id)),
            ]);
        }
        ports.store.log_service_action(
            cmd.tenant_id,
            cmd.created_by,
            "user",
            "core.override.created",
            "permission_override",
            Some(o.id),
            payload,
            "authz",
            None,
        );
        let envelope = EventEnvelope::new(
            cmd.tenant_id,
            actor_for(cmd.created_by),
            ResourceRef { resource_type: text("permission_override"), resource_id: o.id },
            None,
            None,
            CoreEvent::PermissionOverrideCreated {
                tenant_id: cmd.tenant_id,
                override_id: o.id,
                user_id: o.user_id,
                permission_code: o.permission_code.clone(),
            },
        );
        ports.outbox.publish(envelope);
        proof {
            assert(ports.outbox.events@.subrange(0, old_events.len() as int) =~= old_events);
        }
        Ok(o)
    }

    /// Revoke an override of the tenant (it stays stored, stamped with its revocation time).
    pub fn revoke_permission_override(
        &self,
        ports: &mut CorePorts,
        tenant_id: TenantId,
        id: PermissionOverrideId,
        revoked_by: Option<UserId>,
    ) -> (r: Result<(), CoreError>)
        ensures
            match key_index(old(ports).store.overrides@, id) {
                Some(i) if old(ports).store.overrides@[i].tenant_id == tenant_id => r is Ok && {
                    let o = old(ports).store.overrides@[i];
                    &&& final(ports).store.overrides@ == old(ports).store.overrides@.update(
                        i,
                        PermissionOverride {
                            revoked_at: final(ports).store.overrides@[i].revoked_at,
                            ..o
                        },
                    )
                    &&& final(ports).store.overrides@[i].revoked_at matches Some(t)
                        && representable(t as int)
                    &&& logged(
                        old(ports).store.audit@,
                        final(ports).store.audit@,
                        tenant_id,
                        revoked_by,
                        "user"@,
                        "core.override.revoked"@,
                        "permission_override"@,
                        Some(id),
                        empty_object(),
                        "authz"@,
                        None,
                    )
                    &&& final(ports).evolved(*old(ports), set![Table::Overrides, Table::Audit], 1)
                    &&& final(ports).event(*old(ports), 0).wraps(
                        tenant_id,
                        actor_of(revoked_by),
                        "permission_override"@,
                        id,
                        None,
                        None,
                        CoreEvent::PermissionOverrideRevoked { tenant_id, override_id: id },
                    )
                },
                _ => r matches Err(e) && is_not_found(e, "permission_override"@) && *final(ports)
                    == *old(ports),
            },
    {
        let i = match find_key(&ports.store.overrides, id) {
            Some(i) => {
                if ports.store.overrides[i].tenant_id != tenant_id {
                    return Err(CoreError::not_found("permission_override"));
                }
                i
            },
            None => {
                return Err(CoreError::not_found("permission_override"));
            },
        };
        let ghost old_events = ports.outbox.events@;
        let mut revoked = ports.store.overrides[i].clone();
        revoked.revoked_at = Some(clock_now());
        ports.store.overrides.set(i, revoked);
        ports.store.log_service_action(
            tenant_id,
            revoked_by,
            "user",
            "core.override.revoked",
            "permission_override",
            Some(id),
            text("{}"),
            "authz",
            None,
        );
        let envelope = EventEnvelope::new(
            tenant_id,
            actor_for(revoked_by),
            ResourceRef { resource_type: text("permission_override"), resource_id: id },
            None,
            None,
            CoreEvent::PermissionOverrideRevoked { tenant_id, override_id: id },
        );
        ports.outbox.publish(envelope);
        proof {
            assert(ports.outbox.events@.subrange(0, old_events.len() as int) =~= old_events);
        }
        Ok(())
    }

    /// The user's overrides in the tenant, revoked ones included, in store order.
    pub fn list_permission_overrides(&self, ports: &CorePorts, tenant_id: TenantId, user_id: UserId) -> (r:
        Result<Vec<PermissionOverride>, CoreError>)
        ensures
            r matches Ok(v) && v@ == overrides_for(ports.store, tenant_id, user_id),
    {
        Ok(user_overrides(&ports.store.overrides, tenant_id, user_id))
    }

    /// The role with this id, for catalog browsing.
    pub fn get_role(&self, ports: &CorePorts, id: RoleId) -> (r: Result<Option<RoleDefinition>, CoreError>)
        ensures
            r matches Ok(found) && match role_of(ports.store, id) {
                Some(role) => found matches Some(f) && f.same_as(role),
                None => found is None,
            },
    {
        match find_key(&ports.store.roles, id) {
            Some(i) => Ok(Some(ports.store.roles[i].duplicate())),
            None => Ok(None),
        }
    }
}

/// The message refusing a caller that lacks `permission`.
pub open spec fn missing_permission_message(permission: Seq<char>) -> Seq<char> {
    "missing permission: "@ + permission
}

impl AuthzService {
    /// Refuse unless the principal holds `permission` over the whole tenant at `now`.
    pub fn require_permission_at(
        &self,
        ports: &CorePorts,
        tenant_id: TenantId,
        principal: PrincipalId,
        permission: &str,
        now: Timestamp,
    ) -> (r: Result<(), CoreError>)
        ensures
            r is Ok <==> decision_for(
                ports.store,
                tenant_id,
                principal,
                permission@,
                tenant_scope(),
                None,
                now,
            ).0,
            r matches Err(e) ==> is_forbidden(e, missing_permission_message(permission@)),
    {
        let req = AuthorizeRequest::new(tenant_id, principal, text(permission), AccessScope::tenant());
        let decision = match self.authorize_at(ports, &req, now) {
            Ok(d) => d,
            Err(e) => {
                return Err(e);
            },
        };
        if decision.is_allowed() {
            Ok(())
        } else {
            Err(CoreError::Forbidden(crate::text::join("missing permission: ", permission)))
        }
    }
}

impl AuthzService {
    /// Refuse unless the principal now holds `permission` over the whole tenant.
    pub fn require_permission(
        &self,
        ports: &CorePorts,
        tenant_id: TenantId,
        principal: PrincipalId,
        permission: &str,
    ) -> (r: Result<(), CoreError>)
        ensures
            exists|now: Timestamp|
                representable(now as int) && (r is Ok <==> #[trigger] decision_for(
                    ports.store,
                    tenant_id,
                    principal,
                    permission@,
                    tenant_scope(),
                    None,
                    now,
                ).0),
            r matches Err(e) ==> is_forbidden(e, missing_permission_message(permission@)),
    {
        let now = clock_now();
        let r = self.require_permission_at(ports, tenant_id, principal, permission, now);
        proof {
            let d = decision_for(ports.store, tenant_id, principal, permission@, tenant_scope(), None, now);
            assert(representable(now as int) && (r is Ok <==> d.0));
        }
        r
    }

    /// The stored system roles, in catalog order (ids with no stored role are skipped).
    pub fn list_system_roles(&self, ports: &CorePorts) -> (r: Result<Vec<RoleDefinition>, CoreError>)
        ensures
            r matches Ok(roles) && roles@.len() == system_roles_found(
                ports.store,
                crate::domain::rbac::role_engine::system_role_id_seq(),
            ).len() && forall|k: int|
                0 <= k < roles@.len() ==> #[trigger] roles@[k].same_as(
                    system_roles_found(
                        ports.store,
                        crate::domain::rbac::role_engine::system_role_id_seq(),
                    )[k],
                ),
    {
        let ids = RoleEngine::system_role_ids();
        let ghost all = crate::domain::rbac::role_engine::system_role_id_seq();
        let mut roles: Vec<RoleDefinition> = Vec::new();
        let mut i: usize = 0;
        while i < ids.len()
            invariant
                i <= ids.len(),
                ids@ == all,
                roles@.len() == system_roles_found(ports.store, all.subrange(0, i as int)).len(),
                forall|k: int|
                    0 <= k < roles@.len() ==> #[trigger] roles@[k].same_as(
                        system_roles_found(ports.store, all.subrange(0, i as int))[k],
                    ),
            decreases ids.len() - i,
        {
            proof {
                assert(all.subrange(0, i + 1).drop_last() =~= all.subrange(0, i as int));
            }
            match find_key(&ports.store.roles, ids[i]) {
                Some(j) => {
                    roles.push(ports.store.roles[j].duplicate());
                },
                None => {},
            }
            i = i + 1;
        }
        proof {
            assert(all.subrange(0, all.len() as int) =~= all);
        }
        Ok(roles)
    }
}

/// The stored roles with the given ids, in order, skipping ids with no stored role.
pub open spec fn system_roles_found(store: MemoryStore, ids: Seq<RoleId>) -> Seq<RoleDefinition>
    decreases ids.len(),
{
    if ids.len() == 0 {
        Seq::empty()
    } else {
        let before = system_roles_found(store, ids.drop_last());
        match role_of(store, ids.last()) {
            Some(role) => before.push(role),
            None => before,
        }
    }
}

} // verus!

//! Properties of the library as a whole, each proved over the specifications the operations'
//! contracts are written in.
use vstd::prelude::*;

use crate::application::audit::{
    age_days, purge_due, threshold_days,
    audit_matches, entry_for, last_hash, newest_first, newest_pos, older_than, query_filter,
    search_results, AppendAuditEntryCommand,
};
use crate::application::authz::{
    add_codes, decision_for, effective_codes, gate_open, grant_of_user, grants_for, overrides_for,
    role_of, tenant_of, user_of,
};
use crate::application::files::{name_safe, sanitized, wrapping_succ};
use crate::domain::files::FileShareLink;
use crate::application::flags::{flag_default, flag_value, override_value};
use crate::application::identity::{email_taken, has_email};
use crate::application::membership::{live_membership, live_membership_of};
use crate::application::settings::{setting_lookup, setting_at, setting_resolved, with_setting};
use crate::application::store::{key_index, key_is, lemma_upserted_finds, upserted, Keyed, MemoryStore};
use crate::domain::authz::AccessScope;
use crate::domain::enums::{GrantScopeType, MembershipStatus, OverrideEffect, TenantStatus, UserStatus};
use crate::domain::models::{
    active_at, AccessGrant, AuditEntry, PermissionOverride, ProjectMembership, RoleDefinition,
    SettingEntry, User,
};
use crate::domain::rbac::permission_engine::{covers, evaluation, grant_applies, override_applies};
use crate::domain::rbac::policies::sealed_refuses;
use crate::ids::{PrincipalId, ProjectId, TenantId, Timestamp, UserId, Uuid};
use crate::lists::{first_where, keep, lemma_first_where_found, lemma_first_where_none, lemma_first_where_props};
use crate::text::{ascii_lower, trim, trim_end, trim_start};
use crate::external::{unicode_lowercase, unicode_whitespace};
use crate::application::files::scanned;
use crate::domain::audit::{unfiltered, AuditRetentionPolicy, AuditSearchQuery};
use crate::domain::enums::FileObjectStatus;
use crate::domain::files::{VirusScanOutcome, VirusScanStatus};
use crate::domain::models::FileObject;
use crate::text::contains_text;

verus! {

broadcast use vstd::seq_lib::group_to_multiset_ensures;

/// Every element kept satisfies the predicate.
pub proof fn lemma_keep_satisfies<T>(s: Seq<T>, p: spec_fn(T) -> bool)
    ensures
        forall|i: int| 0 <= i < keep(s, p).len() ==> p(#[trigger] keep(s, p)[i]),
    decreases s.len(),
{
    if s.len() > 0 {
        lemma_keep_satisfies(s.drop_last(), p);
        let before = keep(s.drop_last(), p);
        if p(s.last()) {
            assert forall|i: int| 0 <= i < keep(s, p).len() implies p(#[trigger] keep(s, p)[i]) by {
                if i < before.len() {
                    assert(keep(s, p)[i] == before[i]);
                }
            }
        }
    }
}

/// Every element satisfying the predicate is kept.
pub proof fn lemma_keep_complete<T>(s: Seq<T>, p: spec_fn(T) -> bool)
    ensures
        forall|k: int| 0 <= k < s.len() && p(s[k]) ==> keep(s, p).contains(#[trigger] s[k]),
    decreases s.len(),
{
    if s.len() > 0 {
        lemma_keep_complete(s.drop_last(), p);
        let before = keep(s.drop_last(), p);
        assert forall|k: int| 0 <= k < s.len() && p(s[k]) implies keep(s, p).contains(
            #[trigger] s[k],
        ) by {
            if k < s.len() - 1 {
                assert(s.drop_last()[k] == s[k]);
                assert(before.contains(s[k]));
                if p(s.last()) {
                    let j = choose|j: int| 0 <= j < before.len() && before[j] == s[k];
                    assert(before.push(s.last())[j] == s[k]);
                }
            } else {
                assert(before.push(s.last())[before.len() as int] == s[k]);
            }
        }
    }
}

proof fn lemma_newest_len_and_pos(s: Seq<AuditEntry>)
    ensures
        newest_first(s).len() == s.len(),
    decreases s.len(),
{
    if s.len() > 0 {
        lemma_newest_len_and_pos(s.drop_last());
        let r = newest_first(s.drop_last());
        lemma_first_where_props(r, older_than(s.last().occurred_at));
    }
}

/// Ordering newest first keeps every entry, as often as it occurs.
pub proof fn lemma_newest_first_permutes(s: Seq<AuditEntry>)
    ensures
        newest_first(s).to_multiset() =~= s.to_multiset(),
    decreases s.len(),
{
    if s.len() > 0 {
        let rest = s.drop_last();
        let x = s.last();
        lemma_newest_first_permutes(rest);
        lemma_newest_len_and_pos(rest);
        let r = newest_first(rest);
        lemma_first_where_props(r, older_than(x.occurred_at));
        let p = newest_pos(r, x.occurred_at);
        let ins = r.insert(p, x);
        assert(ins.remove(p) =~= r);
        assert(ins[p] == x);
        assert(s =~= rest.push(x));
        assert(ins.contains(x));
        assert forall|y: AuditEntry| ins.to_multiset().count(y) == s.to_multiset().count(y) by {
            assert(ins.remove(p).to_multiset() =~= ins.to_multiset().remove(x));
        }
    }
}

/// Ordering newest first yields a list whose times never increase.
pub proof fn lemma_newest_first_sorted(s: Seq<AuditEntry>)
    ensures
        forall|i: int, j: int|
            0 <= i < j < newest_first(s).len() ==> newest_first(s)[i].occurred_at
                >= newest_first(s)[j].occurred_at,
    decreases s.len(),
{
    if s.len() > 0 {
        let rest = s.drop_last();
        let x = s.last();
        lemma_newest_first_sorted(rest);
        lemma_newest_len_and_pos(rest);
        let r = newest_first(rest);
        let t = x.occurred_at;
        lemma_first_where_props(r, older_than(t));
        let p = newest_pos(r, t);
        let ins = r.insert(p, x);
        assert(ins.len() == r.len() + 1);
        assert forall|i: int, j: int| 0 <= i < j < ins.len() implies ins[i].occurred_at
            >= ins[j].occurred_at by {
            assert(forall|k: int| 0 <= k < p ==> ins[k] == r[k]);
            assert(forall|k: int| p < k < ins.len() ==> ins[k] == r[k - 1]);
            if i < p {
                if j == p {
                    assert(!older_than(t)(r[i]));
                } else if j > p {
                    assert(r[i].occurred_at >= r[j - 1].occurred_at);
                }
            } else if i == p {
                if p < r.len() {
                    assert(older_than(t)(r[p]));
                    assert(r[p].occurred_at >= r[j - 1].occurred_at || j - 1 == p);
                }
            } else {
                assert(r[i - 1].occurred_at >= r[j - 1].occurred_at);
            }
        }
    }
}

/// An audit search returns exactly the tenant's entries matching the query: every result
/// matches (so no other tenant's entry ever appears), every matching entry appears, each as
/// often as it is stored, and the results run newest first.
pub proof fn law_search_is_exact(log: Seq<AuditEntry>, tenant_id: TenantId, query: crate::domain::audit::AuditSearchQuery)
    ensures
        forall|i: int|
            0 <= i < search_results(log, tenant_id, query).len() ==> audit_matches(
                #[trigger] search_results(log, tenant_id, query)[i],
                tenant_id,
                query,
            ),
        forall|k: int|
            0 <= k < log.len() && audit_matches(log[k], tenant_id, query) ==> search_results(
                log,
                tenant_id,
                query,
            ).contains(#[trigger] log[k]),
        search_results(log, tenant_id, query).to_multiset() == keep(
            log,
            query_filter(tenant_id, query),
        ).to_multiset(),
        forall|i: int, j: int|
            0 <= i < j < search_results(log, tenant_id, query).len() ==> search_results(
                log,
                tenant_id,
                query,
            )[i].occurred_at >= search_results(log, tenant_id, query)[j].occurred_at,
{
    let f = query_filter(tenant_id, query);
    let kept = keep(log, f);
    let res = search_results(log, tenant_id, query);
    lemma_newest_first_permutes(kept);
    lemma_newest_first_sorted(kept);
    lemma_keep_satisfies(log, f);
    lemma_keep_complete(log, f);
    assert forall|i: int| 0 <= i < res.len() implies audit_matches(
        #[trigger] res[i],
        tenant_id,
        query,
    ) by {
        assert(res.to_multiset().count(res[i]) > 0);
        assert(kept.contains(res[i]));
        let j = choose|j: int| 0 <= j < kept.len() && kept[j] == res[i];
        assert(f(kept[j]));
    }
    assert forall|k: int| 0 <= k < log.len() && audit_matches(log[k], tenant_id, query) implies res.contains(
        #[trigger] log[k],
    ) by {
        assert(f(log[k]));
        assert(kept.contains(log[k]));
        assert(kept.to_multiset().count(log[k]) > 0);
    }
}

/// The audit log is a hash chain per tenant: an appended entry links to the tenant's previous
/// hash, becomes the tenant's latest hash, and leaves every other tenant's chain as it was.
pub proof fn law_append_extends_chain(
    log: Seq<AuditEntry>,
    cmd: AppendAuditEntryCommand,
    e: AuditEntry,
    other: TenantId,
)
    requires
        entry_for(e, cmd, last_hash(log, cmd.tenant_id)),
    ensures
        e.integrity_prev_hash == last_hash(log, cmd.tenant_id),
        last_hash(log.push(e), cmd.tenant_id) == e.integrity_hash,
        e.integrity_hash is Some,
        other != cmd.tenant_id ==> last_hash(log.push(e), other) == last_hash(log, other),
        log.push(e).subrange(0, log.len() as int) == log,
{
    assert(log.push(e).drop_last() =~= log);
    assert(log.push(e).subrange(0, log.len() as int) =~= log);
}

/// A deny override that applies wins: with the module enabled, no grant and no allow override
/// can lift it.
pub proof fn law_deny_override_wins(
    permission: Seq<char>,
    resource: AccessScope,
    principal: Uuid,
    grants: Seq<AccessGrant>,
    roles: Seq<RoleDefinition>,
    overrides: Seq<PermissionOverride>,
    now: Timestamp,
    module_enabled: bool,
    k: int,
)
    requires
        0 <= k < overrides.len(),
        override_applies(OverrideEffect::Deny, permission, resource, principal, now)(overrides[k]),
    ensures
        !evaluation(permission, resource, principal, grants, roles, overrides, now, module_enabled).0,
{
    lemma_first_where_props(
        overrides,
        override_applies(OverrideEffect::Deny, permission, resource, principal, now),
    );
}

/// An allow override that applies grants access without any role, when the module is enabled
/// and no deny override applies.
pub proof fn law_allow_override_needs_no_role(
    permission: Seq<char>,
    resource: AccessScope,
    principal: Uuid,
    grants: Seq<AccessGrant>,
    roles: Seq<RoleDefinition>,
    overrides: Seq<PermissionOverride>,
    now: Timestamp,
    k: int,
)
    requires
        0 <= k < overrides.len(),
        override_applies(OverrideEffect::Allow, permission, resource, principal, now)(overrides[k]),
        forall|j: int|
            0 <= j < overrides.len() ==> !override_applies(
                OverrideEffect::Deny,
                permission,
                resource,
                principal,
                now,
            )(#[trigger] overrides[j]),
    ensures
        evaluation(permission, resource, principal, grants, roles, overrides, now, true).0,
{
    lemma_first_where_none(
        overrides,
        override_applies(OverrideEffect::Deny, permission, resource, principal, now),
    );
    lemma_first_where_props(
        overrides,
        override_applies(OverrideEffect::Allow, permission, resource, principal, now),
    );
}

/// A module that is not enabled denies, whatever the grants and overrides.
pub proof fn law_disabled_module_denies(
    permission: Seq<char>,
    resource: AccessScope,
    principal: Uuid,
    grants: Seq<AccessGrant>,
    roles: Seq<RoleDefinition>,
    overrides: Seq<PermissionOverride>,
    now: Timestamp,
)
    ensures
        evaluation(permission, resource, principal, grants, roles, overrides, now, false) == (
            false,
            "module_disabled"@,
        ),
{
}

/// A revoked or expired grant never applies.
pub proof fn law_inactive_grant_never_applies(
    roles: Seq<RoleDefinition>,
    permission: Seq<char>,
    resource: AccessScope,
    principal: Uuid,
    now: Timestamp,
    g: AccessGrant,
)
    requires
        !active_at(g.revoked_at, g.expires_at, now),
    ensures
        !grant_applies(roles, permission, resource, principal, now)(g),
{
}

/// An active grant of a role that holds the permission and whose scope covers the resource
/// allows, when the module is enabled and no override applies.
pub proof fn law_covering_grant_allows(
    permission: Seq<char>,
    resource: AccessScope,
    principal: Uuid,
    grants: Seq<AccessGrant>,
    roles: Seq<RoleDefinition>,
    overrides: Seq<PermissionOverride>,
    now: Timestamp,
    k: int,
)
    requires
        0 <= k < grants.len(),
        grant_applies(roles, permission, resource, principal, now)(grants[k]),
        forall|j: int|
            0 <= j < overrides.len() ==> !override_applies(
                OverrideEffect::Deny,
                permission,
                resource,
                principal,
                now,
            )(#[trigger] overrides[j]),
    ensures
        evaluation(permission, resource, principal, grants, roles, overrides, now, true).0,
{
    lemma_first_where_none(
        overrides,
        override_applies(OverrideEffect::Deny, permission, resource, principal, now),
    );
    lemma_first_where_props(grants, grant_applies(roles, permission, resource, principal, now));
}

/// Every allow has a reason: the module is enabled, no deny override applies, and an allow
/// override or a covering grant does.
pub proof fn law_allow_is_justified(
    permission: Seq<char>,
    resource: AccessScope,
    principal: Uuid,
    grants: Seq<AccessGrant>,
    roles: Seq<RoleDefinition>,
    overrides: Seq<PermissionOverride>,
    now: Timestamp,
    module_enabled: bool,
)
    ensures
        evaluation(permission, resource, principal, grants, roles, overrides, now, module_enabled).0
            ==> {
            &&& module_enabled
            &&& forall|j: int|
                0 <= j < overrides.len() ==> !override_applies(
                    OverrideEffect::Deny,
                    permission,
                    resource,
                    principal,
                    now,
                )(#[trigger] overrides[j])
            &&& (exists|j: int|
                0 <= j < overrides.len() && override_applies(
                    OverrideEffect::Allow,
                    permission,
                    resource,
                    principal,
                    now,
                )(#[trigger] overrides[j])) || (exists|j: int|
                0 <= j < grants.len() && grant_applies(roles, permission, resource, principal, now)(
                    #[trigger] grants[j],
                ))
        },
{
    lemma_first_where_props(
        overrides,
        override_applies(OverrideEffect::Deny, permission, resource, principal, now),
    );
    lemma_first_where_props(
        overrides,
        override_applies(OverrideEffect::Allow, permission, resource, principal, now),
    );
    lemma_first_where_props(grants, grant_applies(roles, permission, resource, principal, now));
}

/// A scope of one kind other than the whole tenant never covers a resource of another kind
/// (a company grant does not reach a project).
pub proof fn law_scope_kinds_do_not_cross(grant_scope: AccessScope, resource: AccessScope, own: Uuid)
    requires
        grant_scope.scope_type != GrantScopeType::Tenant,
        grant_scope.scope_type != resource.scope_type,
    ensures
        !covers(grant_scope, resource, own),
{
}

/// Authorization fails closed: only an active principal of an active tenant is ever allowed,
/// and a sealed resource refuses every mutating permission.
pub proof fn law_authorization_fails_closed(
    store: MemoryStore,
    tenant_id: TenantId,
    principal: PrincipalId,
    permission: Seq<char>,
    resource: AccessScope,
    resource_state: Option<String>,
    now: Timestamp,
)
    ensures
        decision_for(store, tenant_id, principal, permission, resource, resource_state, now).0 ==> {
            &&& tenant_of(store, tenant_id) matches Some(t) && t.status == TenantStatus::Active
            &&& user_of(store, tenant_id, principal) matches Some(u) && u.status
                == UserStatus::Active
            &&& !sealed_refuses(resource_state, permission)
        },
{
}

/// What is granted is authorized: an active principal of an active tenant holding a stored,
/// active grant whose stored role holds the permission and whose scope covers the resource is
/// allowed, as long as the module is licensed, no deny override applies and the resource does
/// not refuse the action.
pub proof fn law_granted_access_is_authorized(
    store: MemoryStore,
    tenant_id: TenantId,
    principal: PrincipalId,
    permission: Seq<char>,
    resource: AccessScope,
    resource_state: Option<String>,
    now: Timestamp,
    k: int,
)
    requires
        tenant_of(store, tenant_id) matches Some(t) && t.status == TenantStatus::Active,
        user_of(store, tenant_id, principal) matches Some(u) && u.status == UserStatus::Active,
        !sealed_refuses(resource_state, permission),
        gate_open(store, tenant_id, permission),
        0 <= k < store.grants@.len(),
        store.grants@[k].tenant_id == tenant_id,
        store.grants@[k].user_id == principal,
        grant_applies(store.roles@, permission, resource, principal, now)(store.grants@[k]),
        forall|j: int|
            0 <= j < overrides_for(store, tenant_id, principal).len() ==> !override_applies(
                OverrideEffect::Deny,
                permission,
                resource,
                principal,
                now,
            )(#[trigger] overrides_for(store, tenant_id, principal)[j]),
    ensures
        decision_for(store, tenant_id, principal, permission, resource, resource_state, now).0,
{
    let u = user_of(store, tenant_id, principal).unwrap();
    lemma_first_where_props(store.users@, key_is::<User>(principal));
    assert(u.id == principal);
    let mine = crate::application::authz::grant_of_user(tenant_id, principal);
    lemma_keep_complete(store.grants@, mine);
    let gs = grants_for(store, tenant_id, principal);
    assert(gs.contains(store.grants@[k]));
    let j = choose|j: int| 0 <= j < gs.len() && gs[j] == store.grants@[k];
    law_covering_grant_allows(
        permission,
        resource,
        principal,
        gs,
        store.roles@,
        overrides_for(store, tenant_id, principal),
        now,
        j,
    );
}

/// A deny override of the principal that applies blocks access, whatever grants it holds.
pub proof fn law_deny_override_blocks_access(
    store: MemoryStore,
    tenant_id: TenantId,
    principal: PrincipalId,
    permission: Seq<char>,
    resource: AccessScope,
    resource_state: Option<String>,
    now: Timestamp,
    k: int,
)
    requires
        0 <= k < store.overrides@.len(),
        store.overrides@[k].tenant_id == tenant_id,
        store.overrides@[k].user_id == principal,
        override_applies(OverrideEffect::Deny, permission, resource, principal, now)(
            store.overrides@[k],
        ),
    ensures
        !decision_for(store, tenant_id, principal, permission, resource, resource_state, now).0,
{
    let mine = crate::application::authz::override_of_user(tenant_id, principal);
    lemma_keep_complete(store.overrides@, mine);
    let os = overrides_for(store, tenant_id, principal);
    assert(os.contains(store.overrides@[k]));
    let j = choose|j: int| 0 <= j < os.len() && os[j] == store.overrides@[k];
    lemma_first_where_props(store.users@, key_is::<User>(principal));
    if let Some(u) = user_of(store, tenant_id, principal) {
        assert(u.id == principal);
        law_deny_override_wins(
            permission,
            resource,
            principal,
            grants_for(store, tenant_id, principal),
            store.roles@,
            os,
            now,
            gate_open(store, tenant_id, permission),
            j,
        );
    }
}

/// A row written to a keyed table is what a lookup of its key then finds.
pub proof fn law_write_then_read<T: Keyed>(rows: Seq<T>, x: T)
    ensures
        key_index(upserted(rows, x), x.key_of()) matches Some(j) && upserted(rows, x)[j] == x,
{
    lemma_upserted_finds(rows, x);
}

/// A setting written is what a read of its place then returns: its own entry comes first in
/// the precedence chain.
pub proof fn law_setting_read_after_write(rows: Seq<SettingEntry>, e: SettingEntry)
    ensures
        setting_lookup(with_setting(rows, e), e.tenant_id, e.scope_type, e.scope_id, e.key@)
            == Some(e),
        setting_resolved(with_setting(rows, e), e.tenant_id, e.scope_type, e.scope_id, e.key@)
            == Some(e),
{
    let p = setting_at(e.tenant_id, e.scope_type, e.scope_id, e.key@);
    lemma_first_where_props(rows, p);
    match first_where(rows, p) {
        Some(i) => {
            let after = rows.update(i, e);
            assert forall|j: int| 0 <= j < i implies !p(#[trigger] after[j]) by {
                assert(after[j] == rows[j]);
            }
            lemma_first_where_found(after, p, i);
        },
        None => {
            let after = rows.push(e);
            assert forall|j: int| 0 <= j < rows.len() implies !p(#[trigger] after[j]) by {
                assert(after[j] == rows[j]);
            }
            lemma_first_where_found(after, p, rows.len() as int);
        },
    }
}

/// A user's own override decides a flag for that user, whatever the tenant override and the
/// default say.
pub proof fn law_user_override_wins(
    store: MemoryStore,
    key: Seq<char>,
    tenant_id: Option<TenantId>,
    user_id: UserId,
    enabled: bool,
)
    requires
        override_value(store, key, tenant_id, Some(user_id)) == Some(enabled),
    ensures
        flag_value(store, key, tenant_id, Some(user_id)) == enabled,
{
}

/// Without a user override, the tenant's override decides a flag, whatever the default says.
pub proof fn law_tenant_override_wins_over_default(
    store: MemoryStore,
    key: Seq<char>,
    tenant_id: TenantId,
    user_id: Option<UserId>,
    enabled: bool,
)
    requires
        user_id is None || override_value(store, key, Some(tenant_id), user_id) is None,
        override_value(store, key, Some(tenant_id), None) == Some(enabled),
    ensures
        flag_value(store, key, Some(tenant_id), user_id) == enabled,
{
}

/// With no override that applies, a flag takes its default, and an unknown flag is off.
pub proof fn law_flag_default(
    store: MemoryStore,
    key: Seq<char>,
    tenant_id: Option<TenantId>,
    user_id: Option<UserId>,
)
    requires
        user_id is None || override_value(store, key, tenant_id, user_id) is None,
        tenant_id is None || override_value(store, key, tenant_id, None) is None,
    ensures
        flag_value(store, key, tenant_id, user_id) == flag_default(store, key),
        first_where(store.flags@, crate::application::flags::flag_named(key)) is None ==> !flag_value(
            store,
            key,
            tenant_id,
            user_id,
        ),
{
}

/// Once a user is stored, its email (in any ASCII case) is taken in its tenant, so a second
/// invitation with it is refused.
pub proof fn law_invited_email_is_taken(users: Seq<User>, u: User, email: Seq<char>)
    requires
        ascii_lower(u.email@) == ascii_lower(email),
    ensures
        crate::lists::any_where(upserted(users, u), has_email(u.tenant_id, email)),
{
    lemma_upserted_finds(users, u);
    let after = upserted(users, u);
    let j = key_index(after, u.id).unwrap();
    lemma_first_where_props(after, has_email(u.tenant_id, email));
    if first_where(after, has_email(u.tenant_id, email)) is None {
        assert(has_email(u.tenant_id, email)(after[j]));
    }
}

/// Once a user holds a membership on a project that is not removed, another grant to the same
/// user on the same project is refused.
pub proof fn law_membership_blocks_regrant(rows: Seq<ProjectMembership>, m: ProjectMembership, user_id: UserId)
    requires
        m.user_id == Some(user_id),
        m.status != MembershipStatus::Removed,
    ensures
        first_where(upserted(rows, m), live_membership(m.tenant_id, m.project_id, user_id)) is Some,
{
    lemma_upserted_finds(rows, m);
    let after = upserted(rows, m);
    let j = key_index(after, m.id).unwrap();
    let p = live_membership(m.tenant_id, m.project_id, user_id);
    lemma_first_where_props(after, p);
    if first_where(after, p) is None {
        assert(p(after[j]));
    }
}

/// A stored file name is never blank, never longer than 128 characters, and holds only ASCII
/// letters, digits, `.`, `-` and `_`.
pub proof fn law_sanitized_names_are_safe(name: Seq<char>)
    ensures
        1 <= sanitized(name).len() <= 128,
        forall|i: int| 0 <= i < sanitized(name).len() ==> name_safe(#[trigger] sanitized(name)[i]),
{
    let t = trim(name);
    if t.len() == 0 {
        reveal_strlit("original");
        assert(sanitized(name) =~= seq!['o', 'r', 'i', 'g', 'i', 'n', 'a', 'l']);
    }
}

/// A character kept in a stored file name is never whitespace.
proof fn lemma_safe_char_not_whitespace(c: char)
    requires
        name_safe(c),
    ensures
        !unicode_whitespace(c),
{
}

/// Making a name safe twice changes nothing: a stored file name is already safe.
pub proof fn law_sanitizing_is_idempotent(name: Seq<char>)
    ensures
        sanitized(sanitized(name)) == sanitized(name),
{
    law_sanitized_names_are_safe(name);
    let r = sanitized(name);
    lemma_safe_char_not_whitespace(r[0]);
    lemma_safe_char_not_whitespace(r.last());
    assert(trim_start(r) == r);
    assert(trim_end(r) == r);
    assert(trim(r) == r);
    assert(sanitized(r) =~= r) by {
        assert forall|i: int| 0 <= i < r.len() implies #[trigger] name_safe(r[i]) by {}
    }
}

/// `after` is `before` with one more download counted, as a successful resolution leaves a
/// link that was usable at some instant.
pub open spec fn counts_download(before: FileShareLink, after: FileShareLink) -> bool {
    &&& exists|now: Timestamp| #[trigger] before.usable_at(now)
    &&& after == (FileShareLink { download_count: wrapping_succ(before.download_count), ..before })
}

/// The successive states of one share link: each step leaves it as it was (a refused or
/// unrelated call) or counts one download.
pub open spec fn link_history(h: Seq<FileShareLink>) -> bool {
    forall|i: int| 0 <= i < h.len() - 1 ==> h[i + 1] == h[i] || counts_download(h[i], #[trigger] h[i + 1])
}

/// How many steps of a link's history counted a download.
pub open spec fn downloads_in(h: Seq<FileShareLink>) -> nat
    decreases h.len(),
{
    if h.len() <= 1 {
        0
    } else {
        downloads_in(h.drop_last()) + if h.last() == h[h.len() - 2] { 0nat } else { 1nat }
    }
}

/// A share link capped at `n` downloads serves at most `n` of them (none when the cap is not
/// positive): from a fresh link, the counted resolutions never outnumber the cap, and the stored
/// count is exactly their number.
pub proof fn law_share_link_download_cap(h: Seq<FileShareLink>, n: i32)
    requires
        h.len() >= 1,
        link_history(h),
        h[0].max_downloads == Some(n),
        h[0].download_count == 0,
    ensures
        n >= 0 ==> downloads_in(h) <= n,
        n <= 0 ==> downloads_in(h) == 0,
        h.last().download_count == downloads_in(h),
    decreases h.len(),
{
    if h.len() > 1 {
        let p = h.drop_last();
        assert(link_history(p)) by {
            assert forall|i: int| 0 <= i < p.len() - 1 implies p[i + 1] == p[i] || counts_download(
                p[i],
                #[trigger] p[i + 1],
            ) by {
                assert(p[i] == h[i] && p[i + 1] == h[i + 1]);
            }
        }
        law_share_link_download_cap(p, n);
        lemma_history_keeps_cap(p, n);
        let k = h.len() - 2;
        assert(h[k + 1] == h[k] || counts_download(h[k], h[k + 1]));
        assert(p.last() == h[k]);
        assert(h.last() == h[k + 1]);
        assert(downloads_in(h) == downloads_in(p) + if h.last() == h[k] { 0nat } else { 1nat });
        if h.last() != h[k] {
            assert(counts_download(h[k], h[k + 1]));
            let now = choose|now: Timestamp| #[trigger] h[k].usable_at(now);
            assert(h[k].usable_at(now));
            assert(h[k].download_count < n);
            assert(h.last().download_count == h[k].download_count + 1);
        }
    } else {
        assert(downloads_in(h) == 0);
    }
}

/// Every state of a link's history keeps the link's cap.
proof fn lemma_history_keeps_cap(h: Seq<FileShareLink>, n: i32)
    requires
        h.len() >= 1,
        link_history(h),
        h[0].max_downloads == Some(n),
    ensures
        h.last().max_downloads == Some(n),
    decreases h.len(),
{
    if h.len() > 1 {
        let p = h.drop_last();
        assert(link_history(p)) by {
            assert forall|i: int| 0 <= i < p.len() - 1 implies p[i + 1] == p[i] || counts_download(
                p[i],
                #[trigger] p[i + 1],
            ) by {
                assert(p[i] == h[i] && p[i + 1] == h[i + 1]);
            }
        }
        lemma_history_keeps_cap(p, n);
        let k = h.len() - 2;
        assert(h[k + 1] == h[k] || counts_download(h[k], h[k + 1]));
    }
}

/// Every entry an audit search (or export) returns belongs to the tenant and meets every filter
/// the query sets: the same actor, action, module, category, project, company, resource type,
/// resource id, workflow, signature package and outcome, a time within the range, and the free
/// text, ignoring case, inside its action or payload.
pub proof fn law_search_results_meet_every_filter(
    log: Seq<AuditEntry>,
    tenant_id: TenantId,
    query: AuditSearchQuery,
)
    ensures
        forall|e: AuditEntry|
            #[trigger] search_results(log, tenant_id, query).contains(e) ==> {
                &&& e.tenant_id == tenant_id
                &&& (query.actor_user_id matches Some(a) ==> e.actor_user_id == Some(a))
                &&& (query.action matches Some(a) ==> e.action@ == a@)
                &&& (query.module_key matches Some(m) ==> (e.module_key matches Some(k) && k@
                    == m@))
                &&& (query.category matches Some(c) ==> e.category@ == c@)
                &&& (query.project_id matches Some(p) ==> e.project_id == Some(p))
                &&& (query.company_id matches Some(c) ==> e.company_id == Some(c))
                &&& (query.resource_type matches Some(t) ==> e.resource_type@ == t@)
                &&& (query.resource_id matches Some(r) ==> e.resource_id == Some(r))
                &&& (query.workflow_instance_id matches Some(w) ==> e.workflow_instance_id
                    == Some(w))
                &&& (query.signature_package_id matches Some(g) ==> e.signature_package_id
                    == Some(g))
                &&& (query.outcome matches Some(o) ==> e.outcome@ == o@)
                &&& (query.from matches Some(f) ==> e.occurred_at >= f)
                &&& (query.to matches Some(t) ==> e.occurred_at <= t)
                &&& (query.q matches Some(q) ==> (contains_text(
                    unicode_lowercase(e.action@),
                    unicode_lowercase(q@),
                ) || contains_text(unicode_lowercase(e.payload@), unicode_lowercase(q@))))
            },
{
    law_search_is_exact(log, tenant_id, query);
    let res = search_results(log, tenant_id, query);
    assert forall|e: AuditEntry| #[trigger] res.contains(e) implies audit_matches(
        e,
        tenant_id,
        query,
    ) by {
        let i = choose|i: int| 0 <= i < res.len() && res[i] == e;
        assert(audit_matches(res[i], tenant_id, query));
    }
}

/// A sealed resource refuses every permission that changes it (a code naming `.manage`,
/// `.publish` or `.void`), whatever the principal holds; for an active principal of an active
/// tenant the reason is `resource_sealed`.
pub proof fn law_sealed_resources_refuse_changes(
    store: MemoryStore,
    tenant_id: TenantId,
    principal: PrincipalId,
    permission: Seq<char>,
    resource: AccessScope,
    state: Option<String>,
    now: Timestamp,
)
    requires
        state matches Some(s) && s@ == "sealed"@,
        contains_text(permission, ".manage"@) || contains_text(permission, ".publish"@)
            || contains_text(permission, ".void"@),
    ensures
        !decision_for(store, tenant_id, principal, permission, resource, state, now).0,
        ((tenant_of(store, tenant_id) matches Some(t) && t.status == TenantStatus::Active)
            && (user_of(store, tenant_id, principal) matches Some(u) && u.status
            == UserStatus::Active)) ==> decision_for(
            store,
            tenant_id,
            principal,
            permission,
            resource,
            state,
            now,
        ).1 == "resource_sealed"@,
{
}

/// A scanned file is released (available) exactly on a clean verdict; an infected or failed scan
/// quarantines it and a pending one leaves it processing, and the recorded scan status names the
/// verdict.
pub proof fn law_only_clean_scans_release_files(
    before: FileObject,
    after: FileObject,
    o: VirusScanOutcome,
)
    requires
        scanned(before, after, o),
    ensures
        after.status == FileObjectStatus::Available <==> o is Clean,
        after.status == FileObjectStatus::Available ==> after.scan_status == VirusScanStatus::Clean,
        o is Infected ==> after.status == FileObjectStatus::Quarantined && after.scan_status
            == VirusScanStatus::Infected,
        o is Error ==> after.status == FileObjectStatus::Quarantined && after.scan_status
            == VirusScanStatus::Error,
        o is Pending ==> after.status == FileObjectStatus::Processing && after.scan_status
            == VirusScanStatus::Pending,
{
}

/// Every element kept comes from the list.
proof fn lemma_keep_from<T>(s: Seq<T>, p: spec_fn(T) -> bool)
    ensures
        forall|i: int| 0 <= i < keep(s, p).len() ==> s.contains(#[trigger] keep(s, p)[i]),
    decreases s.len(),
{
    if s.len() > 0 {
        let d = s.drop_last();
        lemma_keep_from(d, p);
        let before = keep(d, p);
        assert forall|i: int| 0 <= i < keep(s, p).len() implies s.contains(#[trigger] keep(s, p)[i]) by {
            if i < before.len() {
                assert(keep(s, p)[i] == before[i]);
                assert(d.contains(before[i]));
                let j = choose|j: int| 0 <= j < d.len() && d[j] == before[i];
                assert(s[j] == before[i]);
            } else {
                assert(keep(s, p)[i] == s.last());
                assert(s[s.len() - 1] == s.last());
            }
        }
    }
}

/// `g` is neither revoked nor past its expiry at `now`, and its stored role holds `code`.
pub open spec fn active_grant_holds(store: MemoryStore, g: AccessGrant, now: Timestamp, code: Seq<char>) -> bool {
    &&& g.revoked_at is None
    &&& (g.expires_at matches Some(exp) ==> exp > now)
    &&& role_of(store, g.role_id) matches Some(role) && exists|j: int|
        0 <= j < role.permissions@.len() && #[trigger] role.permissions@[j]@ == code
}

/// A code added to a list was already in it or comes from `more`.
proof fn lemma_add_codes_sources(codes: Seq<Seq<char>>, more: Seq<String>, c: Seq<char>)
    requires
        add_codes(codes, more).contains(c),
    ensures
        codes.contains(c) || exists|j: int| 0 <= j < more.len() && #[trigger] more[j]@ == c,
    decreases more.len(),
{
    if more.len() > 0 {
        let d = more.drop_last();
        let before = add_codes(codes, d);
        if before.contains(c) {
            lemma_add_codes_sources(codes, d, c);
            if !codes.contains(c) {
                let j = choose|j: int| 0 <= j < d.len() && #[trigger] d[j]@ == c;
                assert(more[j]@ == c);
            }
        } else {
            assert(add_codes(codes, more) == before.push(more.last()@));
            let k = choose|k: int| 0 <= k < before.push(more.last()@).len() && before.push(
                more.last()@,
            )[k] == c;
            if k < before.len() {
                assert(before[k] == c);
            }
            assert(more[more.len() - 1]@ == c);
        }
    }
}

/// A code effective through `grants` comes from one of them that is active and whose role
/// holds it.
proof fn lemma_effective_codes_sources(grants: Seq<AccessGrant>, store: MemoryStore, now: Timestamp, c: Seq<char>)
    requires
        effective_codes(grants, store, now).contains(c),
    ensures
        exists|k: int| 0 <= k < grants.len() && #[trigger] active_grant_holds(store, grants[k], now, c),
    decreases grants.len(),
{
    let d = grants.drop_last();
    let before = effective_codes(d, store, now);
    let g = grants.last();
    if before.contains(c) {
        lemma_effective_codes_sources(d, store, now, c);
        let k = choose|k: int| 0 <= k < d.len() && #[trigger] active_grant_holds(store, d[k], now, c);
        assert(grants[k] == d[k]);
    } else {
        let role = role_of(store, g.role_id).unwrap();
        assert(active_at(g.revoked_at, g.expires_at, now) && role_of(store, g.role_id) is Some);
        lemma_add_codes_sources(before, role.permissions@, c);
        let j = choose|j: int| 0 <= j < role.permissions@.len() && #[trigger] role.permissions@[j]@ == c;
        assert(grants[grants.len() - 1] == g);
        assert(active_grant_holds(store, grants[grants.len() - 1], now, c));
    }
}

/// Every permission listed as effective for a user is held by the role of one of that user's
/// grants in the tenant that is active at `now`: neither revoked nor expired.
pub proof fn law_effective_permissions_come_from_active_grants(
    store: MemoryStore,
    tenant_id: TenantId,
    user_id: UserId,
    now: Timestamp,
)
    ensures
        forall|c: Seq<char>|
            #[trigger] effective_codes(grants_for(store, tenant_id, user_id), store, now).contains(c)
                ==> exists|k: int|
                0 <= k < store.grants@.len() && store.grants@[k].tenant_id == tenant_id
                    && store.grants@[k].user_id == user_id && #[trigger] active_grant_holds(
                    store,
                    store.grants@[k],
                    now,
                    c,
                ),
{
    let mine = grants_for(store, tenant_id, user_id);
    assert forall|c: Seq<char>| #[trigger] effective_codes(mine, store, now).contains(c) implies exists|k: int|
        0 <= k < store.grants@.len() && store.grants@[k].tenant_id == tenant_id
            && store.grants@[k].user_id == user_id && #[trigger] active_grant_holds(
            store,
            store.grants@[k],
            now,
            c,
        ) by {
        lemma_effective_codes_sources(mine, store, now, c);
        let i = choose|i: int| 0 <= i < mine.len() && #[trigger] active_grant_holds(store, mine[i], now, c);
        lemma_keep_from(store.grants@, grant_of_user(tenant_id, user_id));
        lemma_keep_satisfies(store.grants@, grant_of_user(tenant_id, user_id));
        assert(store.grants@.contains(mine[i]));
        assert(grant_of_user(tenant_id, user_id)(mine[i]));
        let k = choose|k: int| 0 <= k < store.grants@.len() && store.grants@[k] == mine[i];
        assert(active_grant_holds(store, store.grants@[k], now, c));
    }
}

/// Whole days of age against milliseconds: an age of at least `w >= 1` whole days is an age of at
/// least `w` days' worth of milliseconds, and that many milliseconds (`w >= 0`) make `w` whole
/// days.
proof fn lemma_whole_days(now: int, at: int, w: int)
    ensures
        w >= 1 && age_days(now, at) >= w ==> now - at >= w * 86_400_000,
        w >= 0 && now - at >= w * 86_400_000 ==> age_days(now, at) >= w,
{
    let d = now - at;
    if d >= 0 {
        let q = d / 86_400_000;
        assert(86_400_000 * q <= d && d < 86_400_000 * q + 86_400_000) by (nonlinear_arith)
            requires
                d >= 0,
                q == d / 86_400_000,
        ;
        assert(q >= w ==> d >= w * 86_400_000) by (nonlinear_arith)
            requires
                86_400_000 * q <= d,
        ;
        assert(d >= w * 86_400_000 ==> q >= w) by (nonlinear_arith)
            requires
                d < 86_400_000 * q + 86_400_000,
        ;
    } else {
        let q = (-d) / 86_400_000;
        assert(q >= 0) by (nonlinear_arith)
            requires
                -d > 0,
                q == (-d) / 86_400_000,
        ;
    }
}

/// Audit retention judges each entry by its own class's window: every purge candidate at `now`
/// under `policy` is the tenant's and has been kept at least the window of its class —
/// `security_days`, `compliance_days` or `restricted_days` for those classes, `standard_days`
/// for any other — and every entry of the tenant that old is a candidate.
pub proof fn law_purge_candidates_use_their_class_window(
    log: Seq<AuditEntry>,
    tenant_id: TenantId,
    policy: AuditRetentionPolicy,
    now: Timestamp,
)
    ensures
        forall|e: AuditEntry|
            #[trigger] keep(search_results(log, tenant_id, unfiltered()), purge_due(policy, now)).contains(
                e,
            ) ==> {
                let w = if e.retention_class@ == "security"@ {
                    policy.security_days as int
                } else if e.retention_class@ == "compliance"@ {
                    policy.compliance_days as int
                } else if e.retention_class@ == "restricted"@ {
                    policy.restricted_days as int
                } else {
                    policy.standard_days as int
                };
                &&& e.tenant_id == tenant_id
                &&& (w >= 1 ==> now - e.occurred_at >= w * 86_400_000)
            },
        forall|k: int|
            0 <= k < log.len() && log[k].tenant_id == tenant_id ==> {
                let e = #[trigger] log[k];
                let w = if e.retention_class@ == "security"@ {
                    policy.security_days as int
                } else if e.retention_class@ == "compliance"@ {
                    policy.compliance_days as int
                } else if e.retention_class@ == "restricted"@ {
                    policy.restricted_days as int
                } else {
                    policy.standard_days as int
                };
                w >= 0 && now - e.occurred_at >= w * 86_400_000 ==> keep(
                    search_results(log, tenant_id, unfiltered()),
                    purge_due(policy, now),
                ).contains(e)
            },
{
    let res = search_results(log, tenant_id, unfiltered());
    let due = purge_due(policy, now);
    let cands = keep(res, due);
    law_search_is_exact(log, tenant_id, unfiltered());
    lemma_keep_satisfies(res, due);
    lemma_keep_complete(res, due);
    lemma_keep_from(res, due);
    assert forall|e: AuditEntry| #[trigger] cands.contains(e) implies {
        let w = threshold_days(policy, e.retention_class@);
        &&& e.tenant_id == tenant_id
        &&& (w >= 1 ==> now - e.occurred_at >= w * 86_400_000)
    } by {
        let i = choose|i: int| 0 <= i < cands.len() && cands[i] == e;
        assert(due(cands[i]));
        assert(res.contains(cands[i]));
        let j = choose|j: int| 0 <= j < res.len() && res[j] == e;
        assert(audit_matches(res[j], tenant_id, unfiltered()));
        lemma_whole_days(now as int, e.occurred_at as int, threshold_days(policy, e.retention_class@));
    }
    assert forall|k: int| 0 <= k < log.len() && log[k].tenant_id == tenant_id implies {
        let e = #[trigger] log[k];
        let w = threshold_days(policy, e.retention_class@);
        w >= 0 && now - e.occurred_at >= w * 86_400_000 ==> cands.contains(e)
    } by {
        let e = log[k];
        let w = threshold_days(policy, e.retention_class@);
        lemma_whole_days(now as int, e.occurred_at as int, w);
        if w >= 0 && now - e.occurred_at >= w * 86_400_000 {
            assert(audit_matches(log[k], tenant_id, unfiltered()));
            assert(res.contains(log[k]));
            let j = choose|j: int| 0 <= j < res.len() && res[j] == e;
            assert(due(res[j]));
            assert(cands.contains(res[j]));
        }
    }
}

/// Adding codes keeps every code already listed and lists every code of `more`.
proof fn lemma_add_codes_keeps(codes: Seq<Seq<char>>, more: Seq<String>)
    ensures
        forall|c: Seq<char>| codes.contains(c) ==> #[trigger] add_codes(codes, more).contains(c),
        forall|j: int| 0 <= j < more.len() ==> add_codes(codes, more).contains(#[trigger] more[j]@),
    decreases more.len(),
{
    if more.len() > 0 {
        let d = more.drop_last();
        lemma_add_codes_keeps(codes, d);
        let before = add_codes(codes, d);
        let after = add_codes(codes, more);
        assert forall|c: Seq<char>| before.contains(c) implies after.contains(c) by {
            if !before.contains(more.last()@) {
                let i = choose|i: int| 0 <= i < before.len() && before[i] == c;
                assert(after[i] == c);
            }
        }
        assert forall|j: int| 0 <= j < more.len() implies after.contains(#[trigger] more[j]@) by {
            if j < d.len() {
                assert(d[j] == more[j]);
                assert(before.contains(d[j]@));
            } else if !before.contains(more.last()@) {
                assert(after[before.len() as int] == more.last()@);
            }
        }
    }
}

/// Every code held by the role of an active grant among `grants` is effective through them.
proof fn lemma_effective_codes_complete(grants: Seq<AccessGrant>, store: MemoryStore, now: Timestamp)
    ensures
        forall|k: int, c: Seq<char>|
            0 <= k < grants.len() && #[trigger] active_grant_holds(store, grants[k], now, c)
                ==> effective_codes(grants, store, now).contains(c),
    decreases grants.len(),
{
    if grants.len() > 0 {
        let d = grants.drop_last();
        lemma_effective_codes_complete(d, store, now);
        let before = effective_codes(d, store, now);
        let g = grants.last();
        if active_at(g.revoked_at, g.expires_at, now) && role_of(store, g.role_id) is Some {
            lemma_add_codes_keeps(before, role_of(store, g.role_id).unwrap().permissions@);
        }
        assert forall|k: int, c: Seq<char>|
            0 <= k < grants.len() && #[trigger] active_grant_holds(store, grants[k], now, c)
            implies effective_codes(grants, store, now).contains(c) by {
            if k < d.len() {
                assert(grants[k] == d[k]);
                assert(before.contains(c));
            } else {
                let role = role_of(store, g.role_id).unwrap();
                let j = choose|j: int| 0 <= j < role.permissions@.len() && #[trigger] role.permissions@[j]@ == c;
                assert(role.permissions@[j]@ == c);
            }
        }
    }
}

/// Every code held by the role of one of the user's grants in the tenant that is active at
/// `now` is listed as effective.
pub proof fn law_active_grants_make_their_permissions_effective(
    store: MemoryStore,
    tenant_id: TenantId,
    user_id: UserId,
    now: Timestamp,
)
    ensures
        forall|k: int, c: Seq<char>|
            0 <= k < store.grants@.len() && store.grants@[k].tenant_id == tenant_id
                && store.grants@[k].user_id == user_id && #[trigger] active_grant_holds(
                store,
                store.grants@[k],
                now,
                c,
            ) ==> effective_codes(grants_for(store, tenant_id, user_id), store, now).contains(c),
{
    let mine = grants_for(store, tenant_id, user_id);
    lemma_effective_codes_complete(mine, store, now);
    lemma_keep_complete(store.grants@, grant_of_user(tenant_id, user_id));
    assert forall|k: int, c: Seq<char>|
        0 <= k < store.grants@.len() && store.grants@[k].tenant_id == tenant_id
            && store.grants@[k].user_id == user_id && #[trigger] active_grant_holds(
            store,
            store.grants@[k],
            now,
            c,
        ) implies effective_codes(mine, store, now).contains(c) by {
        assert(grant_of_user(tenant_id, user_id)(store.grants@[k]));
        assert(mine.contains(store.grants@[k]));
        let i = choose|i: int| 0 <= i < mine.len() && mine[i] == store.grants@[k];
        assert(active_grant_holds(store, mine[i], now, c));
    }
}

/// Every entry of the tenant that meets every filter the query sets is found by an audit search
/// (or export).
pub proof fn law_search_misses_no_matching_entry(
    log: Seq<AuditEntry>,
    tenant_id: TenantId,
    query: AuditSearchQuery,
)
    ensures
        forall|k: int|
            0 <= k < log.len() && {
                let e = #[trigger] log[k];
                &&& e.tenant_id == tenant_id
                &&& (query.actor_user_id matches Some(a) ==> e.actor_user_id == Some(a))
                &&& (query.action matches Some(a) ==> e.action@ == a@)
                &&& (query.module_key matches Some(m) ==> (e.module_key matches Some(k) && k@
                    == m@))
                &&& (query.category matches Some(c) ==> e.category@ == c@)
                &&& (query.project_id matches Some(p) ==> e.project_id == Some(p))
                &&& (query.company_id matches Some(c) ==> e.company_id == Some(c))
                &&& (query.resource_type matches Some(t) ==> e.resource_type@ == t@)
                &&& (query.resource_id matches Some(r) ==> e.resource_id == Some(r))
                &&& (query.workflow_instance_id matches Some(w) ==> e.workflow_instance_id
                    == Some(w))
                &&& (query.signature_package_id matches Some(g) ==> e.signature_package_id
                    == Some(g))
                &&& (query.outcome matches Some(o) ==> e.outcome@ == o@)
                &&& (query.from matches Some(f) ==> e.occurred_at >= f)
                &&& (query.to matches Some(t) ==> e.occurred_at <= t)
                &&& (query.q matches Some(q) ==> (contains_text(
                    unicode_lowercase(e.action@),
                    unicode_lowercase(q@),
                ) || contains_text(unicode_lowercase(e.payload@), unicode_lowercase(q@))))
            } ==> search_results(log, tenant_id, query).contains(log[k]),
{
    law_search_is_exact(log, tenant_id, query);
}

/// Sealing refuses only changes: for a code naming none of `.manage`, `.publish` and `.void`,
/// the decision on a resource in any state is the decision on one with no state.
pub proof fn law_sealing_leaves_other_permissions_alone(
    store: MemoryStore,
    tenant_id: TenantId,
    principal: PrincipalId,
    permission: Seq<char>,
    resource: AccessScope,
    state: Option<String>,
    now: Timestamp,
)
    requires
        !contains_text(permission, ".manage"@),
        !contains_text(permission, ".publish"@),
        !contains_text(permission, ".void"@),
    ensures
        decision_for(store, tenant_id, principal, permission, resource, state, now) == decision_for(
            store,
            tenant_id,
            principal,
            permission,
            resource,
            None,
            now,
        ),
{
}

} // verus!

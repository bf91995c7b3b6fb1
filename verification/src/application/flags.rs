//! Feature flags: a user override wins, then a tenant override, then the flag's default; an
//! unknown flag is off.
use vstd::prelude::*;

use crate::application::apis::CorePorts;
use crate::application::store::{FlagOverride, MemoryStore, Table};
use crate::domain::error::CoreError;
use crate::domain::models::FeatureFlag;
use crate::ids::{TenantId, UserId, Uuid};
use crate::lists::{first_where, lemma_first_where_found, lemma_first_where_none};
use crate::text::{str_eq, text};

verus! {

broadcast use vstd::string::group_string_axioms;

/// The flag is named `key`.
pub open spec fn flag_named(key: Seq<char>) -> spec_fn(FeatureFlag) -> bool {
    |f: FeatureFlag| f.key@ == key
}

/// The override is for exactly this (key, tenant, user) triple.
pub open spec fn override_for(key: Seq<char>, tenant_id: Option<Uuid>, user_id: Option<Uuid>) -> spec_fn(
    FlagOverride,
) -> bool {
    |o: FlagOverride| o.key@ == key && o.tenant_id == tenant_id && o.user_id == user_id
}

/// The override set for the triple, if any.
pub open spec fn override_value(
    store: MemoryStore,
    key: Seq<char>,
    tenant_id: Option<Uuid>,
    user_id: Option<Uuid>,
) -> Option<bool> {
    match first_where(store.flag_overrides@, override_for(key, tenant_id, user_id)) {
        Some(i) => Some(store.flag_overrides@[i].enabled),
        None => None,
    }
}

/// The flag's default, or off when it is not defined.
pub open spec fn flag_default(store: MemoryStore, key: Seq<char>) -> bool {
    match first_where(store.flags@, flag_named(key)) {
        Some(i) => store.flags@[i].default_enabled,
        None => false,
    }
}

/// The effective value of a flag for an optional tenant and user.
pub open spec fn flag_value(
    store: MemoryStore,
    key: Seq<char>,
    tenant_id: Option<TenantId>,
    user_id: Option<UserId>,
) -> bool {
    if user_id is Some && override_value(store, key, tenant_id, user_id) is Some {
        override_value(store, key, tenant_id, user_id).unwrap()
    } else if tenant_id is Some && override_value(store, key, tenant_id, None) is Some {
        override_value(store, key, tenant_id, None).unwrap()
    } else {
        flag_default(store, key)
    }
}

fn find_override(rows: &Vec<FlagOverride>, key: &str, tenant_id: Option<Uuid>, user_id: Option<Uuid>) -> (r:
    Option<usize>)
    ensures
        match r {
            Some(i) => i < rows.len() && first_where(rows@, override_for(key@, tenant_id, user_id))
                == Some(i as int),
            None => first_where(rows@, override_for(key@, tenant_id, user_id)) is None,
        },
{
    let ghost p = override_for(key@, tenant_id, user_id);
    let mut i: usize = 0;
    while i < rows.len()
        invariant
            i <= rows.len(),
            p == override_for(key@, tenant_id, user_id),
            forall|k: int| 0 <= k < i ==> !p(rows@[k]),
        decreases rows.len() - i,
    {
        if rows[i].tenant_id == tenant_id && rows[i].user_id == user_id && str_eq(
            rows[i].key.as_str(),
            key,
        ) {
            proof {
                lemma_first_where_found(rows@, p, i as int);
            }
            return Some(i);
        }
        i = i + 1;
    }
    proof {
        lemma_first_where_none(rows@, p);
    }
    None
}

fn find_flag(rows: &Vec<FeatureFlag>, key: &str) -> (r: Option<usize>)
    ensures
        match r {
            Some(i) => i < rows.len() && first_where(rows@, flag_named(key@)) == Some(i as int),
            None => first_where(rows@, flag_named(key@)) is None,
        },
{
    let ghost p = flag_named(key@);
    let mut i: usize = 0;
    while i < rows.len()
        invariant
            i <= rows.len(),
            p == flag_named(key@),
            forall|k: int| 0 <= k < i ==> !p(rows@[k]),
        decreases rows.len() - i,
    {
        if str_eq(rows[i].key.as_str(), key) {
            proof {
                lemma_first_where_found(rows@, p, i as int);
            }
            return Some(i);
        }
        i = i + 1;
    }
    proof {
        lemma_first_where_none(rows@, p);
    }
    None
}

impl MemoryStore {
    /// The override set for the triple, if any.
    pub fn get_flag_override(&self, key: &str, tenant_id: Option<Uuid>, user_id: Option<Uuid>) -> (r:
        Option<bool>)
        ensures
            r == override_value(*self, key@, tenant_id, user_id),
    {
        match find_override(&self.flag_overrides, key, tenant_id, user_id) {
            Some(i) => Some(self.flag_overrides[i].enabled),
            None => None,
        }
    }

    /// Define a flag, replacing any flag with the same key.
    pub fn define_flag(&mut self, flag: FeatureFlag)
        ensures
            final(self).flags@ == match first_where(old(self).flags@, flag_named(flag.key@)) {
                Some(i) => old(self).flags@.update(i, flag),
                None => old(self).flags@.push(flag),
            },
            final(self).same_except(*old(self), set![Table::Flags]),
    {
        match find_flag(&self.flags, flag.key.as_str()) {
            Some(i) => {
                self.flags.set(i, flag);
            },
            None => {
                self.flags.push(flag);
            },
        }
    }

    /// Set the override for a (key, tenant, user) triple.
    pub fn set_flag_override(
        &mut self,
        key: &str,
        tenant_id: Option<Uuid>,
        user_id: Option<Uuid>,
        enabled: bool,
    )
        ensures
            override_value(*final(self), key@, tenant_id, user_id) == Some(enabled),
            forall|k: Seq<char>, t: Option<Uuid>, u: Option<Uuid>|
                !(k == key@ && t == tenant_id && u == user_id) ==> #[trigger] override_value(
                    *final(self),
                    k,
                    t,
                    u,
                ) == override_value(*old(self), k, t, u),
            final(self).same_except(*old(self), set![Table::FlagOverrides]),
    {
        let ghost before = self.flag_overrides@;
        match find_override(&self.flag_overrides, key, tenant_id, user_id) {
            Some(i) => {
                let old_row = &self.flag_overrides[i];
                let row = FlagOverride {
                    key: old_row.key.clone(),
                    tenant_id: old_row.tenant_id,
                    user_id: old_row.user_id,
                    enabled,
                };
                self.flag_overrides.set(i, row);
                proof {
                    let after = self.flag_overrides@;
                    crate::lists::lemma_first_where_props(before, override_for(key@, tenant_id, user_id));
                    assert(first_where(after, override_for(key@, tenant_id, user_id)) == Some(i as int)) by {
                        assert forall|k: int| 0 <= k < i implies !override_for(key@, tenant_id, user_id)(
                            #[trigger] after[k],
                        ) by {
                            assert(after[k] == before[k]);
                        }
                        lemma_first_where_found(after, override_for(key@, tenant_id, user_id), i as int);
                    }
                    assert forall|k: Seq<char>, t: Option<Uuid>, u: Option<Uuid>|
                        !(k == key@ && t == tenant_id && u == user_id) implies #[trigger] override_value(
                        *self,
                        k,
                        t,
                        u,
                    ) == override_value(*old(self), k, t, u) by {
                        assert(!override_for(k, t, u)(before[i as int]));
                        lemma_same_lookup(before, after, i as int, k, t, u);
                    }
                }
            },
            None => {
                self.flag_overrides.push(FlagOverride { key: text(key), tenant_id, user_id, enabled });
                proof {
                    let after = self.flag_overrides@;
                    crate::lists::lemma_first_where_props(before, override_for(key@, tenant_id, user_id));
                    assert forall|k: int| 0 <= k < before.len() implies !override_for(key@, tenant_id, user_id)(
                        #[trigger] after[k],
                    ) by {
                        assert(after[k] == before[k]);
                    }
                    lemma_first_where_found(after, override_for(key@, tenant_id, user_id), before.len() as int);
                    assert forall|k: Seq<char>, t: Option<Uuid>, u: Option<Uuid>|
                        !(k == key@ && t == tenant_id && u == user_id) implies #[trigger] override_value(
                        *self,
                        k,
                        t,
                        u,
                    ) == override_value(*old(self), k, t, u) by {
                        lemma_same_lookup(before, after, before.len() as int, k, t, u);
                    }
                }
            },
        }
    }
}

/// Changing (or adding) the row at `i` of the triple's lookup does not move the lookup of any
/// other triple.
proof fn lemma_same_lookup(
    before: Seq<FlagOverride>,
    after: Seq<FlagOverride>,
    i: int,
    k: Seq<char>,
    t: Option<Uuid>,
    u: Option<Uuid>,
)
    requires
        0 <= i <= before.len(),
        after.len() == if i == before.len() { before.len() + 1 } else { before.len() },
        forall|j: int| 0 <= j < before.len() && j != i ==> after[j] == before[j],
        i < before.len() ==> (after[i].key@ == before[i].key@ && after[i].tenant_id
            == before[i].tenant_id && after[i].user_id == before[i].user_id),
        i == before.len() ==> !override_for(k, t, u)(after[i]),
        i < before.len() ==> !override_for(k, t, u)(before[i]),
    ensures
        match (
            first_where(after, override_for(k, t, u)),
            first_where(before, override_for(k, t, u)),
        ) {
            (Some(a), Some(b)) => a == b && after[a].enabled == before[b].enabled,
            (None, None) => true,
            _ => false,
        },
{
    let p = override_for(k, t, u);
    crate::lists::lemma_first_where_props(before, p);
    crate::lists::lemma_first_where_props(after, p);
    assert forall|j: int| 0 <= j < before.len() implies p(#[trigger] after[j]) == p(before[j]) by {
        if j != i {
            assert(after[j] == before[j]);
        }
    }
    match first_where(before, p) {
        Some(b) => {
            lemma_first_where_found(after, p, b);
        },
        None => {
            lemma_first_where_none(after, p);
        },
    }
}

/// Feature-flag evaluation.
#[derive(Debug, Clone, Copy)]
pub struct FlagsService;

impl FlagsService {
    pub fn new() -> (r: Self) {
        FlagsService
    }

    /// The effective value of flag `key` (see [`flag_value`]).
    pub fn evaluate(
        &self,
        ports: &CorePorts,
        key: &str,
        tenant_id: Option<TenantId>,
        user_id: Option<UserId>,
    ) -> (r: Result<bool, CoreError>)
        ensures
            r == Ok::<bool, CoreError>(flag_value(ports.store, key@, tenant_id, user_id)),
    {
        if let Some(uid) = user_id {
            if let Some(enabled) = ports.store.get_flag_override(key, tenant_id, Some(uid)) {
                return Ok(enabled);
            }
        }
        if let Some(tid) = tenant_id {
            if let Some(enabled) = ports.store.get_flag_override(key, Some(tid), None) {
                return Ok(enabled);
            }
        }
        match find_flag(&ports.store.flags, key) {
            Some(i) => Ok(ports.store.flags[i].default_enabled),
            None => Ok(false),
        }
    }
}

} // verus!

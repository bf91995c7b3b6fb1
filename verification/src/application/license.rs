//! License enforcement: the tenant's current license and which modules it enables. Fails
//! closed: no license, an unusable one, or an unlisted module means disabled.
use vstd::prelude::*;

use crate::application::apis::CorePorts;
use crate::application::store::{find_key, key_index, MemoryStore};
use crate::domain::error::{is_not_found, CoreError};
use crate::domain::models::{License, ModuleEntitlement};
use crate::ids::{LicenseId, TenantId};
use crate::lists::{any_where, first_where, lemma_first_where_found, lemma_first_where_none};
use crate::text::str_eq;

verus! {

broadcast use vstd::string::group_string_axioms;

/// The tenant's current license.
pub open spec fn current_license(store: MemoryStore, tenant_id: TenantId) -> Option<License> {
    match key_index(store.licenses@, tenant_id) {
        Some(i) => Some(store.licenses@[i]),
        None => None,
    }
}

/// The entitlements stored for a license (none when it has no entry).
pub open spec fn entitlements_of(store: MemoryStore, license_id: LicenseId) -> Seq<ModuleEntitlement> {
    match key_index(store.entitlements@, license_id) {
        Some(i) => store.entitlements@[i].entitlements@,
        None => Seq::empty(),
    }
}

/// The entitlement enables `module`.
pub open spec fn entitles(module: Seq<char>) -> spec_fn(ModuleEntitlement) -> bool {
    |e: ModuleEntitlement| e.module_key@ == module && e.enabled
}

/// The tenant's current license is usable and lists `module` as enabled.
pub open spec fn module_enabled(store: MemoryStore, tenant_id: TenantId, module: Seq<char>) -> bool {
    match current_license(store, tenant_id) {
        Some(l) => l.usable() && any_where(entitlements_of(store, l.id), entitles(module)),
        None => false,
    }
}

fn lists_enabled(entitlements: &Vec<ModuleEntitlement>, module: &str) -> (r: bool)
    ensures
        r == any_where(entitlements@, entitles(module@)),
{
    let ghost p = entitles(module@);
    let mut i: usize = 0;
    while i < entitlements.len()
        invariant
            i <= entitlements.len(),
            p == entitles(module@),
            forall|k: int| 0 <= k < i ==> !p(entitlements@[k]),
        decreases entitlements.len() - i,
    {
        if entitlements[i].enabled && str_eq(entitlements[i].module_key.as_str(), module) {
            proof {
                lemma_first_where_found(entitlements@, p, i as int);
            }
            return true;
        }
        i = i + 1;
    }
    proof {
        lemma_first_where_none(entitlements@, p);
    }
    false
}

/// Module gating and license lookups.
#[derive(Debug, Clone, Copy)]
pub struct LicenseService;

impl LicenseService {
    pub fn new() -> (r: Self) {
        LicenseService
    }

    /// The tenant's current license.
    pub fn get_current(&self, ports: &CorePorts, tenant_id: TenantId) -> (r: Result<License, CoreError>)
        ensures
            match current_license(ports.store, tenant_id) {
                Some(l) => r == Ok::<License, CoreError>(l),
                None => r matches Err(e) && is_not_found(e, "license"@),
            },
    {
        match find_key(&ports.store.licenses, tenant_id) {
            Some(i) => Ok(ports.store.licenses[i].clone()),
            None => Err(CoreError::not_found("license")),
        }
    }

    /// Whether the tenant's license enables `module` (see [`module_enabled`]).
    pub fn is_module_enabled(&self, ports: &CorePorts, tenant_id: TenantId, module: &str) -> (r:
        Result<bool, CoreError>)
        ensures
            r == Ok::<bool, CoreError>(module_enabled(ports.store, tenant_id, module@)),
    {
        let license = match find_key(&ports.store.licenses, tenant_id) {
            Some(i) => &ports.store.licenses[i],
            None => {
                return Ok(false);
            },
        };
        if !license.is_usable() {
            return Ok(false);
        }
        match find_key(&ports.store.entitlements, license.id) {
            Some(j) => Ok(lists_enabled(&ports.store.entitlements[j].entitlements, module)),
            None => {
                proof {
                    lemma_first_where_none(Seq::<ModuleEntitlement>::empty(), entitles(module@));
                }
                Ok(false)
            },
        }
    }
}

} // verus!

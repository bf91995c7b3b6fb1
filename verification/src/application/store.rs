//! The in-memory store backing every Core port: one table per aggregate, rows keyed by id,
//! inserts and updates replacing the row with the same key.
use vstd::prelude::*;

use crate::domain::audit::{AuditExportJob, AuditRetentionPolicy};
use crate::domain::files::FileShareLink;
use crate::domain::models::{
    AccessGrant, AuditEntry, Company, FeatureFlag, FileObject, License, ModuleEntitlement,
    PermissionOverride, ProjectMembership, RoleDefinition, SettingEntry, Team, TeamMember, Tenant,
    User,
};
use crate::ids::{LicenseId, Uuid};
use crate::lists::{first_where, lemma_first_where_found, lemma_first_where_none};
use crate::text::str_eq;

verus! {

/// A row with a 128-bit key.
pub trait Keyed: Sized {
    spec fn key_of(&self) -> u128;

    fn key(&self) -> (r: u128)
        ensures
            r == self.key_of(),
    ;
}

/// Index of the row whose key is `key` (the first such row).
pub open spec fn key_index<T: Keyed>(rows: Seq<T>, key: u128) -> Option<int> {
    first_where(rows, key_is::<T>(key))
}

/// The row has key `key`.
pub open spec fn key_is<T: Keyed>(key: u128) -> spec_fn(T) -> bool {
    |row: T| row.key_of() == key
}

/// `rows` with `x` replacing the row of the same key, or appended when there is none.
pub open spec fn upserted<T: Keyed>(rows: Seq<T>, x: T) -> Seq<T> {
    match key_index(rows, x.key_of()) {
        Some(i) => rows.update(i, x),
        None => rows.push(x),
    }
}

pub fn find_key<T: Keyed>(rows: &Vec<T>, key: u128) -> (r: Option<usize>)
    ensures
        match r {
            Some(i) => i < rows.len() && key_index(rows@, key) == Some(i as int),
            None => key_index(rows@, key) is None,
        },
{
    let ghost p = key_is::<T>(key);
    let mut i: usize = 0;
    while i < rows.len()
        invariant
            i <= rows.len(),
            p == key_is::<T>(key),
            forall|k: int| 0 <= k < i ==> !p(rows@[k]),
        decreases rows.len() - i,
    {
        if rows[i].key() == key {
            proof {
                lemma_first_where_found(rows@, p, i as int);
            }
            return Some(i);
        }
        i = i + 1;
    }
    proof {
        lemma_first_where_none(rows@, p);
    }
    None
}

pub fn upsert<T: Keyed>(rows: &mut Vec<T>, x: T)
    ensures
        final(rows)@ == upserted(old(rows)@, x),
{
    match find_key(rows, x.key()) {
        Some(i) => {
            rows.set(i, x);
        },
        None => {
            rows.push(x);
        },
    }
}

impl Keyed for Tenant {
    open spec fn key_of(&self) -> u128 {
        self.id
    }

    fn key(&self) -> (r: u128) {
        self.id
    }
}

impl Keyed for Company {
    open spec fn key_of(&self) -> u128 {
        self.id
    }

    fn key(&self) -> (r: u128) {
        self.id
    }
}

impl Keyed for User {
    open spec fn key_of(&self) -> u128 {
        self.id
    }

    fn key(&self) -> (r: u128) {
        self.id
    }
}

impl Keyed for RoleDefinition {
    open spec fn key_of(&self) -> u128 {
        self.id
    }

    fn key(&self) -> (r: u128) {
        self.id
    }
}

impl Keyed for AccessGrant {
    open spec fn key_of(&self) -> u128 {
        self.id
    }

    fn key(&self) -> (r: u128) {
        self.id
    }
}

impl Keyed for PermissionOverride {
    open spec fn key_of(&self) -> u128 {
        self.id
    }

    fn key(&self) -> (r: u128) {
        self.id
    }
}

impl Keyed for ProjectMembership {
    open spec fn key_of(&self) -> u128 {
        self.id
    }

    fn key(&self) -> (r: u128) {
        self.id
    }
}

impl Keyed for Team {
    open spec fn key_of(&self) -> u128 {
        self.id
    }

    fn key(&self) -> (r: u128) {
        self.id
    }
}

impl Keyed for FileObject {
    open spec fn key_of(&self) -> u128 {
        self.id
    }

    fn key(&self) -> (r: u128) {
        self.id
    }
}

impl Keyed for AuditExportJob {
    open spec fn key_of(&self) -> u128 {
        self.id
    }

    fn key(&self) -> (r: u128) {
        self.id
    }
}

/// Retention policies are keyed by tenant.
impl Keyed for AuditRetentionPolicy {
    open spec fn key_of(&self) -> u128 {
        self.tenant_id
    }

    fn key(&self) -> (r: u128) {
        self.tenant_id
    }
}

/// One current license per tenant: licenses are keyed by tenant.
impl Keyed for License {
    open spec fn key_of(&self) -> u128 {
        self.tenant_id
    }

    fn key(&self) -> (r: u128) {
        self.tenant_id
    }
}

/// Entitlement sets are keyed by license.
impl Keyed for EntitlementSet {
    open spec fn key_of(&self) -> u128 {
        self.license_id
    }

    fn key(&self) -> (r: u128) {
        self.license_id
    }
}

/// A feature-flag override for a (key, tenant, user) triple.
#[derive(Debug)]
pub struct FlagOverride {
    pub key: String,
    pub tenant_id: Option<Uuid>,
    pub user_id: Option<Uuid>,
    pub enabled: bool,
}

/// The entitlements stored for one license.
#[derive(Debug)]
pub struct EntitlementSet {
    pub license_id: LicenseId,
    pub entitlements: Vec<ModuleEntitlement>,
}

/// Shared in-memory backing store for every Core port.
pub struct MemoryStore {
    pub tenants: Vec<Tenant>,
    pub companies: Vec<Company>,
    pub users: Vec<User>,
    pub roles: Vec<RoleDefinition>,
    pub grants: Vec<AccessGrant>,
    pub overrides: Vec<PermissionOverride>,
    pub memberships: Vec<ProjectMembership>,
    pub teams: Vec<Team>,
    pub team_members: Vec<TeamMember>,
    pub files: Vec<FileObject>,
    pub file_share_links: Vec<FileShareLink>,
    pub audit: Vec<AuditEntry>,
    pub audit_export_jobs: Vec<AuditExportJob>,
    pub audit_retention_policies: Vec<AuditRetentionPolicy>,
    pub settings: Vec<SettingEntry>,
    pub flags: Vec<FeatureFlag>,
    pub flag_overrides: Vec<FlagOverride>,
    pub licenses: Vec<License>,
    pub entitlements: Vec<EntitlementSet>,
}

impl MemoryStore {
    /// Every table is empty.
    pub open spec fn is_empty_store(self) -> bool {
        &&& self.tenants@.len() == 0
        &&& self.companies@.len() == 0
        &&& self.users@.len() == 0
        &&& self.roles@.len() == 0
        &&& self.grants@.len() == 0
        &&& self.overrides@.len() == 0
        &&& self.memberships@.len() == 0
        &&& self.teams@.len() == 0
        &&& self.team_members@.len() == 0
        &&& self.files@.len() == 0
        &&& self.file_share_links@.len() == 0
        &&& self.audit@.len() == 0
        &&& self.audit_export_jobs@.len() == 0
        &&& self.audit_retention_policies@.len() == 0
        &&& self.settings@.len() == 0
        &&& self.flags@.len() == 0
        &&& self.flag_overrides@.len() == 0
        &&& self.licenses@.len() == 0
        &&& self.entitlements@.len() == 0
    }

    pub fn new() -> (r: Self)
        ensures
            r.is_empty_store(),
    {
        MemoryStore {
            tenants: Vec::new(),
            companies: Vec::new(),
            users: Vec::new(),
            roles: Vec::new(),
            grants: Vec::new(),
            overrides: Vec::new(),
            memberships: Vec::new(),
            teams: Vec::new(),
            team_members: Vec::new(),
            files: Vec::new(),
            file_share_links: Vec::new(),
            audit: Vec::new(),
            audit_export_jobs: Vec::new(),
            audit_retention_policies: Vec::new(),
            settings: Vec::new(),
            flags: Vec::new(),
            flag_overrides: Vec::new(),
            licenses: Vec::new(),
            entitlements: Vec::new(),
        }
    }
}

/// The tables of the store, named in frame conditions.
pub enum Table {
    Tenants,
    Companies,
    Users,
    Roles,
    Grants,
    Overrides,
    Memberships,
    Teams,
    TeamMembers,
    Files,
    FileShareLinks,
    Audit,
    AuditExportJobs,
    AuditRetentionPolicies,
    Settings,
    Flags,
    FlagOverrides,
    Licenses,
    Entitlements,
}

impl MemoryStore {
    /// Every table outside `changed` holds the same rows in `self` and `other`.
    pub open spec fn same_except(self, other: Self, changed: Set<Table>) -> bool {
        &&& (!changed.contains(Table::Tenants) ==> self.tenants@ == other.tenants@)
        &&& (!changed.contains(Table::Companies) ==> self.companies@ == other.companies@)
        &&& (!changed.contains(Table::Users) ==> self.users@ == other.users@)
        &&& (!changed.contains(Table::Roles) ==> self.roles@ == other.roles@)
        &&& (!changed.contains(Table::Grants) ==> self.grants@ == other.grants@)
        &&& (!changed.contains(Table::Overrides) ==> self.overrides@ == other.overrides@)
        &&& (!changed.contains(Table::Memberships) ==> self.memberships@ == other.memberships@)
        &&& (!changed.contains(Table::Teams) ==> self.teams@ == other.teams@)
        &&& (!changed.contains(Table::TeamMembers) ==> self.team_members@ == other.team_members@)
        &&& (!changed.contains(Table::Files) ==> self.files@ == other.files@)
        &&& (!changed.contains(Table::FileShareLinks) ==> self.file_share_links@ == other.file_share_links@)
        &&& (!changed.contains(Table::Audit) ==> self.audit@ == other.audit@)
        &&& (!changed.contains(Table::AuditExportJobs) ==> self.audit_export_jobs@ == other.audit_export_jobs@)
        &&& (!changed.contains(Table::AuditRetentionPolicies) ==> self.audit_retention_policies@ == other.audit_retention_policies@)
        &&& (!changed.contains(Table::Settings) ==> self.settings@ == other.settings@)
        &&& (!changed.contains(Table::Flags) ==> self.flags@ == other.flags@)
        &&& (!changed.contains(Table::FlagOverrides) ==> self.flag_overrides@ == other.flag_overrides@)
        &&& (!changed.contains(Table::Licenses) ==> self.licenses@ == other.licenses@)
        &&& (!changed.contains(Table::Entitlements) ==> self.entitlements@ == other.entitlements@)
    }

    /// Every table outside `filled` is empty.
    pub open spec fn empty_except(self, filled: Set<Table>) -> bool {
        &&& (!filled.contains(Table::Tenants) ==> self.tenants@.len() == 0)
        &&& (!filled.contains(Table::Companies) ==> self.companies@.len() == 0)
        &&& (!filled.contains(Table::Users) ==> self.users@.len() == 0)
        &&& (!filled.contains(Table::Roles) ==> self.roles@.len() == 0)
        &&& (!filled.contains(Table::Grants) ==> self.grants@.len() == 0)
        &&& (!filled.contains(Table::Overrides) ==> self.overrides@.len() == 0)
        &&& (!filled.contains(Table::Memberships) ==> self.memberships@.len() == 0)
        &&& (!filled.contains(Table::Teams) ==> self.teams@.len() == 0)
        &&& (!filled.contains(Table::TeamMembers) ==> self.team_members@.len() == 0)
        &&& (!filled.contains(Table::Files) ==> self.files@.len() == 0)
        &&& (!filled.contains(Table::FileShareLinks) ==> self.file_share_links@.len() == 0)
        &&& (!filled.contains(Table::Audit) ==> self.audit@.len() == 0)
        &&& (!filled.contains(Table::AuditExportJobs) ==> self.audit_export_jobs@.len() == 0)
        &&& (!filled.contains(Table::AuditRetentionPolicies) ==> self.audit_retention_policies@.len() == 0)
        &&& (!filled.contains(Table::Settings) ==> self.settings@.len() == 0)
        &&& (!filled.contains(Table::Flags) ==> self.flags@.len() == 0)
        &&& (!filled.contains(Table::FlagOverrides) ==> self.flag_overrides@.len() == 0)
        &&& (!filled.contains(Table::Licenses) ==> self.licenses@.len() == 0)
        &&& (!filled.contains(Table::Entitlements) ==> self.entitlements@.len() == 0)
    }
}

/// Writing two rows with the same key leaves only the second.
pub proof fn lemma_upserted_twice<T: Keyed>(rows: Seq<T>, a: T, b: T)
    requires
        a.key_of() == b.key_of(),
    ensures
        upserted(upserted(rows, a), b) == upserted(rows, b),
{
    let k = a.key_of();
    let p = key_is::<T>(k);
    crate::lists::lemma_first_where_props(rows, p);
    match key_index(rows, k) {
        Some(i) => {
            let once = rows.update(i, a);
            assert forall|j: int| 0 <= j < i implies !p(#[trigger] once[j]) by {
                assert(once[j] == rows[j]);
            }
            crate::lists::lemma_first_where_found(once, p, i);
            assert(once.update(i, b) =~= rows.update(i, b));
        },
        None => {
            let once = rows.push(a);
            assert forall|j: int| 0 <= j < rows.len() implies !p(#[trigger] once[j]) by {
                assert(once[j] == rows[j]);
            }
            crate::lists::lemma_first_where_found(once, p, rows.len() as int);
            assert(once.update(rows.len() as int, b) =~= rows.push(b));
        },
    }
}

/// After writing `x`, looking up its key finds `x`.
pub proof fn lemma_upserted_finds<T: Keyed>(rows: Seq<T>, x: T)
    ensures
        key_index(upserted(rows, x), x.key_of()) matches Some(j) && upserted(rows, x)[j] == x
            && 0 <= j < upserted(rows, x).len(),
{
    let k = x.key_of();
    let p = key_is::<T>(k);
    crate::lists::lemma_first_where_props(rows, p);
    match key_index(rows, k) {
        Some(i) => {
            let once = rows.update(i, x);
            assert forall|j: int| 0 <= j < i implies !p(#[trigger] once[j]) by {
                assert(once[j] == rows[j]);
            }
            crate::lists::lemma_first_where_found(once, p, i);
        },
        None => {
            let once = rows.push(x);
            assert forall|j: int| 0 <= j < rows.len() implies !p(#[trigger] once[j]) by {
                assert(once[j] == rows[j]);
            }
            crate::lists::lemma_first_where_found(once, p, rows.len() as int);
        },
    }
}

} // verus!

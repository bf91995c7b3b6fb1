//! The state every Core service works on (the store, the outbox, object storage and the scan
//! hook) and the facade bundling the services.
use vstd::prelude::*;


use crate::application::audit::{
    entry_ids, is_default_policy, purge_due, search_results, stored_policy, AuditService,
};
use crate::application::authz::{role_of, AuthzService};
use crate::application::files::FileService;
use crate::application::flags::FlagsService;
use crate::application::identity::IdentityService;
use crate::application::license::LicenseService;
use crate::application::membership::MembershipService;
use crate::application::seed::seeded_roles;
use crate::application::settings::SettingsService;
use crate::application::tenancy::TenancyService;
use crate::domain::audit::{unfiltered, AuditRetentionPolicy};
use crate::domain::error::CoreError;
use crate::domain::models::RoleDefinition;
use crate::ids::{AuditEntryId, RoleId, TenantId};
use crate::lists::keep;
use crate::application::store::{MemoryStore, Table};
use crate::events::{EventEnvelope, InMemoryOutbox};
use crate::infrastructure::object_storage::{ObjectStorage, PlaceholderObjectStorage};
use crate::infrastructure::virus_scan::{PassthroughVirusScanHook, VirusScanHook};
use crate::ids::{representable, Timestamp};

verus! {

broadcast use vstd::string::group_string_axioms;

/// The ports the services share: the repositories (one in-memory store), the event outbox,
/// object storage and the virus-scan hook.
pub struct CorePorts {
    pub store: MemoryStore,
    pub outbox: InMemoryOutbox,
    pub object_storage: ObjectStorage,
    pub virus_scan: VirusScanHook,
}

/// `new` is `old` with `n` more envelopes published after the earlier ones.
pub open spec fn published(old: Seq<EventEnvelope>, new: Seq<EventEnvelope>, n: int) -> bool {
    &&& new.len() == old.len() + n
    &&& new.subrange(0, old.len() as int) == old
}

impl CorePorts {
    /// `self` is `old` with only the tables in `changed` written and `n` events published.
    pub open spec fn evolved(self, old: CorePorts, changed: Set<Table>, n: int) -> bool {
        &&& self.store.same_except(old.store, changed)
        &&& published(old.outbox.events@, self.outbox.events@, n)
        &&& self.object_storage == old.object_storage
        &&& self.virus_scan == old.virus_scan
    }

    /// The `i`-th event published after `old`.
    pub open spec fn event(self, old: CorePorts, i: int) -> EventEnvelope {
        self.outbox.events@[old.outbox.events@.len() + i]
    }

    /// Every port on the seeded in-memory store: placeholder storage and pass-through scans.
    pub fn in_memory() -> (r: Self)
        ensures
            exists|at: Timestamp| representable(at as int) && seeded_roles(r.store.roles@, at),
            r.store.empty_except(set![Table::Roles]),
            r.outbox.events@.len() == 0,
            r.object_storage matches ObjectStorage::Placeholder(p) && p.public_base_url@
                == "https://r2.placeholder.local"@,
            r.virus_scan matches VirusScanHook::Passthrough(_),
    {
        CorePorts {
            store: MemoryStore::seeded(),
            outbox: InMemoryOutbox::new(),
            object_storage: ObjectStorage::Placeholder(PlaceholderObjectStorage::new()),
            virus_scan: VirusScanHook::Passthrough(PassthroughVirusScanHook),
        }
    }
}

/// Every Core service over one set of ports: the seam other modules depend on. The services
/// hold no state; each call takes the ports it reads or writes.
pub struct CoreServices {
    pub ports: CorePorts,
    pub tenancy: TenancyService,
    pub identity: IdentityService,
    pub authz: AuthzService,
    pub membership: MembershipService,
    pub files: FileService,
    pub audit: AuditService,
    pub settings: SettingsService,
    pub flags: FlagsService,
    pub license: LicenseService,
}

impl CoreServices {
    /// The services over `ports`; the audit engine publishes its events.
    pub fn new(ports: CorePorts) -> (r: Self)
        ensures
            r.ports == ports,
            r.audit.emits_events,
    {
        CoreServices {
            ports,
            tenancy: TenancyService::new(),
            identity: IdentityService::new(),
            authz: AuthzService::new(),
            membership: MembershipService::new(),
            files: FileService::new(),
            audit: AuditService::new().with_outbox(),
            settings: SettingsService::new(),
            flags: FlagsService::new(),
            license: LicenseService::new(),
        }
    }

    /// The services over the seeded in-memory ports.
    pub fn in_memory() -> (r: Self)
        ensures
            exists|at: Timestamp| representable(at as int) && seeded_roles(r.ports.store.roles@, at),
            r.ports.store.empty_except(set![Table::Roles]),
            r.ports.outbox.events@.len() == 0,
            r.ports.object_storage matches ObjectStorage::Placeholder(p) && p.public_base_url@
                == "https://r2.placeholder.local"@,
            r.ports.virus_scan matches VirusScanHook::Passthrough(_),
            r.audit.emits_events,
    {
        Self::new(CorePorts::in_memory())
    }

    /// The role with this id, for the role catalog.
    pub fn get_role(&self, id: RoleId) -> (r: Result<Option<RoleDefinition>, CoreError>)
        ensures
            r matches Ok(found) && match role_of(self.ports.store, id) {
                Some(role) => found matches Some(f) && f.same_as(role),
                None => found is None,
            },
    {
        self.authz.get_role(&self.ports, id)
    }

    /// Ids of the tenant's entries eligible for archival under its retention policy. Nothing is
    /// deleted.
    pub fn list_audit_purge_candidates(&self, tenant_id: TenantId, now: Timestamp) -> (r: Result<
        Vec<AuditEntryId>,
        CoreError,
    >)
        requires
            representable(now as int),
            self.ports.store.audit@.len() <= u32::MAX,
        ensures
            r matches Ok(ids) && exists|policy: AuditRetentionPolicy| {
                &&& match stored_policy(self.ports.store.audit_retention_policies@, tenant_id) {
                    Some(s) => policy == s,
                    None => is_default_policy(policy, tenant_id),
                }
                &&& ids@ == entry_ids(
                    keep(
                        search_results(self.ports.store.audit@, tenant_id, unfiltered()),
                        purge_due(policy, now),
                    ),
                )
            },
    {
        self.audit.list_purge_candidates(&self.ports, tenant_id, now)
    }
}

} // verus!

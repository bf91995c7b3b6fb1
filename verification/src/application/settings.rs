//! Scoped settings: one JSON value per (tenant, scope kind, scope id, key); writing replaces it,
//! and a read resolves along the precedence chain User → OrgUnit → Tenant → Platform.
use vstd::prelude::*;

use crate::application::apis::CorePorts;
use crate::application::store::{MemoryStore, Table};
use crate::domain::enums::SettingScopeType;
use crate::domain::error::CoreError;
use crate::domain::models::SettingEntry;
use crate::events::{ActorRef, CoreEvent, EventEnvelope, ResourceRef};
use crate::external::clock_now;
use crate::ids::{representable, TenantId, Uuid};
use crate::lists::{first_where, lemma_first_where_found, lemma_first_where_none};
use crate::text::{str_eq, text};

verus! {

broadcast use vstd::string::group_string_axioms;

/// One setting write.
#[derive(Debug)]
pub struct UpsertSettingCommand {
    pub tenant_id: TenantId,
    pub scope_type: SettingScopeType,
    pub scope_id: Option<Uuid>,
    pub key: String,
    /// JSON text.
    pub value: String,
}

/// The entry sits at exactly this (tenant, scope kind, scope id, key).
pub open spec fn setting_at(
    tenant_id: TenantId,
    scope_type: SettingScopeType,
    scope_id: Option<Uuid>,
    key: Seq<char>,
) -> spec_fn(SettingEntry) -> bool {
    |s: SettingEntry|
        s.tenant_id == tenant_id && s.scope_type == scope_type && s.scope_id == scope_id && s.key@
            == key
}

/// The stored entry at the given place, if any.
pub open spec fn setting_lookup(
    rows: Seq<SettingEntry>,
    tenant_id: TenantId,
    scope_type: SettingScopeType,
    scope_id: Option<Uuid>,
    key: Seq<char>,
) -> Option<SettingEntry> {
    match first_where(rows, setting_at(tenant_id, scope_type, scope_id, key)) {
        Some(i) => Some(rows[i]),
        None => None,
    }
}

/// How specific a scope kind is along the precedence chain User → OrgUnit → Tenant → Platform.
pub open spec fn scope_rank(scope_type: SettingScopeType) -> int {
    match scope_type {
        SettingScopeType::User => 3,
        SettingScopeType::OrgUnit => 2,
        SettingScopeType::Tenant => 1,
        SettingScopeType::Platform => 0,
    }
}

/// The setting a read at (scope kind, scope id) resolves to: the entry at that very place, else
/// the level-wide entry (no scope id) of the nearest broader kind along User → OrgUnit →
/// Tenant → Platform that has one.
pub open spec fn setting_resolved(
    rows: Seq<SettingEntry>,
    tenant_id: TenantId,
    scope_type: SettingScopeType,
    scope_id: Option<Uuid>,
    key: Seq<char>,
) -> Option<SettingEntry> {
    let exact = setting_lookup(rows, tenant_id, scope_type, scope_id, key);
    let org = setting_lookup(rows, tenant_id, SettingScopeType::OrgUnit, None, key);
    let tenant = setting_lookup(rows, tenant_id, SettingScopeType::Tenant, None, key);
    let platform = setting_lookup(rows, tenant_id, SettingScopeType::Platform, None, key);
    if exact is Some {
        exact
    } else if scope_rank(scope_type) > 2 && org is Some {
        org
    } else if scope_rank(scope_type) > 1 && tenant is Some {
        tenant
    } else if scope_rank(scope_type) > 0 && platform is Some {
        platform
    } else {
        None
    }
}

fn rank_of(scope_type: SettingScopeType) -> (r: u8)
    ensures
        r == scope_rank(scope_type),
{
    match scope_type {
        SettingScopeType::User => 3,
        SettingScopeType::OrgUnit => 2,
        SettingScopeType::Tenant => 1,
        SettingScopeType::Platform => 0,
    }
}

/// `rows` with `e` replacing the entry at its place, or appended when there is none.
pub open spec fn with_setting(rows: Seq<SettingEntry>, e: SettingEntry) -> Seq<SettingEntry> {
    match first_where(rows, setting_at(e.tenant_id, e.scope_type, e.scope_id, e.key@)) {
        Some(i) => rows.update(i, e),
        None => rows.push(e),
    }
}

fn find_setting(
    rows: &Vec<SettingEntry>,
    tenant_id: TenantId,
    scope_type: SettingScopeType,
    scope_id: Option<Uuid>,
    key: &str,
) -> (r: Option<usize>)
    ensures
        match r {
            Some(i) => i < rows.len() && first_where(
                rows@,
                setting_at(tenant_id, scope_type, scope_id, key@),
            ) == Some(i as int),
            None => first_where(rows@, setting_at(tenant_id, scope_type, scope_id, key@)) is None,
        },
{
    let ghost p = setting_at(tenant_id, scope_type, scope_id, key@);
    let mut i: usize = 0;
    while i < rows.len()
        invariant
            i <= rows.len(),
            p == setting_at(tenant_id, scope_type, scope_id, key@),
            forall|k: int| 0 <= k < i ==> !p(rows@[k]),
        decreases rows.len() - i,
    {
        let s = &rows[i];
        if s.tenant_id == tenant_id && s.scope_type == scope_type && s.scope_id == scope_id
            && str_eq(s.key.as_str(), key) {
            proof {
                lemma_first_where_found(rows@, p, i as int);
            }
            return Some(i);
        }
        i = i + 1;
    }
    proof {
        lemma_first_where_none(rows@, p);
    }
    None
}

/// `ev` announces that `cmd` changed a setting.
pub open spec fn announces_setting(ev: EventEnvelope, cmd: UpsertSettingCommand) -> bool {
    &&& ev.wraps(
        cmd.tenant_id,
        ActorRef::System,
        "setting"@,
        match cmd.scope_id {
            Some(s) => s,
            None => cmd.tenant_id,
        },
        None,
        None,
        ev.payload,
    )
    &&& ev.payload matches CoreEvent::SettingsChanged { tenant_id, key } && tenant_id
        == cmd.tenant_id && key@ == cmd.key@
}

/// Scoped settings.
#[derive(Debug, Clone, Copy)]
pub struct SettingsService;

impl SettingsService {
    pub fn new() -> (r: Self) {
        SettingsService
    }

    /// The setting a read at the given place resolves to (see [`setting_resolved`]): its own
    /// entry, else the nearest broader level-wide one along User → OrgUnit → Tenant → Platform.
    pub fn get(
        &self,
        ports: &CorePorts,
        tenant_id: TenantId,
        scope_type: SettingScopeType,
        scope_id: Option<Uuid>,
        key: &str,
    ) -> (r: Result<Option<SettingEntry>, CoreError>)
        ensures
            r == Ok::<Option<SettingEntry>, CoreError>(
                setting_resolved(ports.store.settings@, tenant_id, scope_type, scope_id, key@),
            ),
    {
        let rows = &ports.store.settings;
        if let Some(i) = find_setting(rows, tenant_id, scope_type, scope_id, key) {
            return Ok(Some(rows[i].clone()));
        }
        let rank = rank_of(scope_type);
        if rank > 2 {
            if let Some(i) = find_setting(rows, tenant_id, SettingScopeType::OrgUnit, None, key) {
                return Ok(Some(rows[i].clone()));
            }
        }
        if rank > 1 {
            if let Some(i) = find_setting(rows, tenant_id, SettingScopeType::Tenant, None, key) {
                return Ok(Some(rows[i].clone()));
            }
        }
        if rank > 0 {
            if let Some(i) = find_setting(rows, tenant_id, SettingScopeType::Platform, None, key) {
                return Ok(Some(rows[i].clone()));
            }
        }
        Ok(None)
    }

    /// Write a setting (replacing the one at the same place) and announce the change.
    pub fn upsert(&self, ports: &mut CorePorts, cmd: UpsertSettingCommand) -> (r: Result<
        SettingEntry,
        CoreError,
    >)
        ensures
            r matches Ok(e) && {
                &&& e.tenant_id == cmd.tenant_id
                &&& e.scope_type == cmd.scope_type
                &&& e.scope_id == cmd.scope_id
                &&& e.key == cmd.key
                &&& e.value == cmd.value
                &&& representable(e.updated_at as int)
                &&& final(ports).store.settings@ == with_setting(old(ports).store.settings@, e)
                &&& final(ports).evolved(*old(ports), set![Table::Settings], 1)
                &&& announces_setting(final(ports).event(*old(ports), 0), cmd)
            },
    {
        let ghost old_events = ports.outbox.events@;
        let entry = SettingEntry {
            tenant_id: cmd.tenant_id,
            scope_type: cmd.scope_type,
            scope_id: cmd.scope_id,
            key: cmd.key.clone(),
            value: cmd.value,
            updated_at: clock_now(),
        };
        let stored = entry.clone();
        match find_setting(
            &ports.store.settings,
            entry.tenant_id,
            entry.scope_type,
            entry.scope_id,
            entry.key.as_str(),
        ) {
            Some(i) => {
                ports.store.settings.set(i, stored);
            },
            None => {
                ports.store.settings.push(stored);
            },
        }
        let resource_id = match cmd.scope_id {
            Some(s) => s,
            None => cmd.tenant_id,
        };
        let envelope = EventEnvelope::new(
            cmd.tenant_id,
            ActorRef::System,
            ResourceRef { resource_type: text("setting"), resource_id },
            None,
            None,
            CoreEvent::SettingsChanged { tenant_id: cmd.tenant_id, key: cmd.key },
        );
        ports.outbox.publish(envelope);
        proof {
            assert(ports.outbox.events@.subrange(0, old_events.len() as int) =~= old_events);
        }
        Ok(entry)
    }
}

} // verus!

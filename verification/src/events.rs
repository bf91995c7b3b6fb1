//! Integration events published by Core, and the envelope they travel in.
use vstd::prelude::*;

use crate::external::clock_now;
use crate::external::new_uuid;
use crate::ids::{
    representable, AuditEntryId, CausationId, CompanyId, CorrelationId, FileObjectId, GrantId,
    LicenseId, PermissionOverrideId, ProjectId, ProjectMembershipId, RoleId, TeamId, TenantId,
    Timestamp, UserId, Uuid,
};
use crate::text::text;

verus! {

broadcast use vstd::string::group_string_axioms;

/// Who performed the action that produced an event.
#[derive(Debug, Clone, Copy, PartialEq, Eq, Structural)]
pub enum ActorRef {
    User { user_id: UserId },
    System,
}

/// The acting user, or the system when there is none.
pub open spec fn actor_of(user: Option<UserId>) -> ActorRef {
    match user {
        Some(user_id) => ActorRef::User { user_id },
        None => ActorRef::System,
    }
}

/// The acting user, or the system when there is none.
pub fn actor_for(user: Option<UserId>) -> (r: ActorRef)
    ensures
        r == actor_of(user),
{
    match user {
        Some(user_id) => ActorRef::User { user_id },
        None => ActorRef::System,
    }
}

/// What an event is about.
#[derive(Debug)]
pub struct ResourceRef {
    pub resource_type: String,
    pub resource_id: Uuid,
}

/// Domain events published by Core.
#[derive(Debug)]
#[allow(inconsistent_fields)]
pub enum CoreEvent {
    TenantProvisioned { tenant_id: TenantId, owner_company_id: CompanyId, admin_user_id: UserId },
    UserInvited { tenant_id: TenantId, user_id: UserId, email: String },
    UserActivated { tenant_id: TenantId, user_id: UserId },
    AccessGranted { tenant_id: TenantId, grant_id: GrantId, user_id: UserId, role_id: RoleId },
    AccessRevoked { tenant_id: TenantId, grant_id: GrantId },
    PermissionOverrideCreated { tenant_id: TenantId, override_id: PermissionOverrideId, user_id: UserId, permission_code: String },
    PermissionOverrideRevoked { tenant_id: TenantId, override_id: PermissionOverrideId },
    ProjectMembershipGranted { tenant_id: TenantId, membership_id: ProjectMembershipId, project_id: ProjectId },
    ProjectMembershipRevoked { tenant_id: TenantId, membership_id: ProjectMembershipId },
    TeamCreated { tenant_id: TenantId, team_id: TeamId },
    FileUploadIntentCreated { tenant_id: TenantId, file_id: FileObjectId },
    FileObjectAvailable { tenant_id: TenantId, file_id: FileObjectId },
    FileObjectQuarantined { tenant_id: TenantId, file_id: FileObjectId },
    FileObjectScanPending { tenant_id: TenantId, file_id: FileObjectId },
    FileObjectDeleted { tenant_id: TenantId, file_id: FileObjectId },
    AuditEntryAppended { tenant_id: TenantId, audit_entry_id: AuditEntryId },
    AuditExportRequested { job_id: Uuid, tenant_id: TenantId },
    AuditExportCompleted { job_id: Uuid, tenant_id: TenantId, entry_count: i32, storage_key: String },
    SettingsChanged { tenant_id: TenantId, key: String },
    FeatureFlagChanged { key: String },
    LicenseActivated { tenant_id: TenantId, license_id: LicenseId },
}

/// The name of an event's variant.
pub open spec fn event_type_text(e: CoreEvent) -> Seq<char> {
    match e {
        CoreEvent::TenantProvisioned { .. } => "TenantProvisioned"@,
        CoreEvent::UserInvited { .. } => "UserInvited"@,
        CoreEvent::UserActivated { .. } => "UserActivated"@,
        CoreEvent::AccessGranted { .. } => "AccessGranted"@,
        CoreEvent::AccessRevoked { .. } => "AccessRevoked"@,
        CoreEvent::PermissionOverrideCreated { .. } => "PermissionOverrideCreated"@,
        CoreEvent::PermissionOverrideRevoked { .. } => "PermissionOverrideRevoked"@,
        CoreEvent::ProjectMembershipGranted { .. } => "ProjectMembershipGranted"@,
        CoreEvent::ProjectMembershipRevoked { .. } => "ProjectMembershipRevoked"@,
        CoreEvent::TeamCreated { .. } => "TeamCreated"@,
        CoreEvent::FileUploadIntentCreated { .. } => "FileUploadIntentCreated"@,
        CoreEvent::FileObjectAvailable { .. } => "FileObjectAvailable"@,
        CoreEvent::FileObjectQuarantined { .. } => "FileObjectQuarantined"@,
        CoreEvent::FileObjectScanPending { .. } => "FileObjectScanPending"@,
        CoreEvent::FileObjectDeleted { .. } => "FileObjectDeleted"@,
        CoreEvent::AuditEntryAppended { .. } => "AuditEntryAppended"@,
        CoreEvent::AuditExportRequested { .. } => "AuditExportRequested"@,
        CoreEvent::AuditExportCompleted { .. } => "AuditExportCompleted"@,
        CoreEvent::SettingsChanged { .. } => "SettingsChanged"@,
        CoreEvent::FeatureFlagChanged { .. } => "FeatureFlagChanged"@,
        CoreEvent::LicenseActivated { .. } => "LicenseActivated"@,
    }
}

impl CoreEvent {
    pub fn event_type(&self) -> (r: &'static str)
        ensures
            r@ == event_type_text(*self),
    {
        match self {
            CoreEvent::TenantProvisioned { .. } => "TenantProvisioned",
            CoreEvent::UserInvited { .. } => "UserInvited",
            CoreEvent::UserActivated { .. } => "UserActivated",
            CoreEvent::AccessGranted { .. } => "AccessGranted",
            CoreEvent::AccessRevoked { .. } => "AccessRevoked",
            CoreEvent::PermissionOverrideCreated { .. } => "PermissionOverrideCreated",
            CoreEvent::PermissionOverrideRevoked { .. } => "PermissionOverrideRevoked",
            CoreEvent::ProjectMembershipGranted { .. } => "ProjectMembershipGranted",
            CoreEvent::ProjectMembershipRevoked { .. } => "ProjectMembershipRevoked",
            CoreEvent::TeamCreated { .. } => "TeamCreated",
            CoreEvent::FileUploadIntentCreated { .. } => "FileUploadIntentCreated",
            CoreEvent::FileObjectAvailable { .. } => "FileObjectAvailable",
            CoreEvent::FileObjectQuarantined { .. } => "FileObjectQuarantined",
            CoreEvent::FileObjectScanPending { .. } => "FileObjectScanPending",
            CoreEvent::FileObjectDeleted { .. } => "FileObjectDeleted",
            CoreEvent::AuditEntryAppended { .. } => "AuditEntryAppended",
            CoreEvent::AuditExportRequested { .. } => "AuditExportRequested",
            CoreEvent::AuditExportCompleted { .. } => "AuditExportCompleted",
            CoreEvent::SettingsChanged { .. } => "SettingsChanged",
            CoreEvent::FeatureFlagChanged { .. } => "FeatureFlagChanged",
            CoreEvent::LicenseActivated { .. } => "LicenseActivated",
        }
    }
}

/// Standard event envelope.
#[derive(Debug)]
pub struct EventEnvelope {
    pub event_id: Uuid,
    pub event_type: String,
    pub event_version: u32,
    pub occurred_at: Timestamp,
    pub tenant_id: TenantId,
    pub actor: ActorRef,
    pub correlation_id: Option<CorrelationId>,
    pub causation_id: Option<CausationId>,
    pub resource: ResourceRef,
    pub payload: CoreEvent,
}

impl EventEnvelope {
    /// An envelope around `payload` with the given routing fields: version 1, typed by the
    /// payload's variant, with a fresh event id and the current time.
    pub open spec fn wraps(
        self,
        tenant_id: TenantId,
        actor: ActorRef,
        resource_type: Seq<char>,
        resource_id: Uuid,
        correlation_id: Option<CorrelationId>,
        causation_id: Option<CausationId>,
        payload: CoreEvent,
    ) -> bool {
        &&& self.event_type@ == event_type_text(payload)
        &&& self.event_version == 1
        &&& representable(self.occurred_at as int)
        &&& self.tenant_id == tenant_id
        &&& self.actor == actor
        &&& self.correlation_id == correlation_id
        &&& self.causation_id == causation_id
        &&& self.resource.resource_type@ == resource_type
        &&& self.resource.resource_id == resource_id
        &&& self.payload == payload
    }

    pub fn new(
        tenant_id: TenantId,
        actor: ActorRef,
        resource: ResourceRef,
        correlation_id: Option<CorrelationId>,
        causation_id: Option<CausationId>,
        payload: CoreEvent,
    ) -> (r: Self)
        ensures
            r.wraps(
                tenant_id,
                actor,
                resource.resource_type@,
                resource.resource_id,
                correlation_id,
                causation_id,
                payload,
            ),
    {
        let event_type = text(payload.event_type());
        EventEnvelope {
            event_id: new_uuid(),
            event_type,
            event_version: 1,
            occurred_at: clock_now(),
            tenant_id,
            actor,
            correlation_id,
            causation_id,
            resource,
            payload,
        }
    }
}

/// In-memory event transport: published envelopes, in order.
pub struct InMemoryOutbox {
    pub events: Vec<EventEnvelope>,
}

impl InMemoryOutbox {
    pub fn new() -> (r: Self)
        ensures
            r.events@.len() == 0,
    {
        InMemoryOutbox { events: Vec::new() }
    }

    pub fn publish(&mut self, envelope: EventEnvelope)
        ensures
            final(self).events@ == old(self).events@.push(envelope),
    {
        self.events.push(envelope);
    }
}

} // verus!

//! Audit engine domain types: categories, outcomes, retention classes, search filters,
//! export jobs and retention policies.
use vstd::prelude::*;

use crate::ids::{CompanyId, ProjectId, TenantId, Timestamp, UserId, Uuid};
use crate::text::clone_opt_string;

verus! {

broadcast use vstd::string::group_string_axioms;

/// A single field-level diff captured alongside an audit entry; `old` and `new` are JSON text.
#[derive(Debug)]
pub struct AuditChange {
    pub field: String,
    pub old: Option<String>,
    pub new: Option<String>,
}

impl Clone for AuditChange {
    fn clone(&self) -> (r: Self)
        ensures
            r == *self,
    {
        AuditChange {
            field: self.field.clone(),
            old: clone_opt_string(&self.old),
            new: clone_opt_string(&self.new),
        }
    }
}

/// A copy of a list of field changes.
pub fn clone_changes(v: &Vec<AuditChange>) -> (r: Vec<AuditChange>)
    ensures
        r@ == v@,
{
    let mut r: Vec<AuditChange> = Vec::new();
    let mut i: usize = 0;
    while i < v.len()
        invariant
            i <= v.len(),
            r@ == v@.subrange(0, i as int),
        decreases v.len() - i,
    {
        r.push(v[i].clone());
        i = i + 1;
        assert(r@ =~= v@.subrange(0, i as int));
    }
    assert(r@ =~= v@);
    r
}

/// Stable audit category facet.
#[derive(Debug, Clone, Copy, PartialEq, Eq, Structural)]
pub enum AuditCategory {
    Auth,
    Authz,
    Data,
    Signature,
    Workflow,
    Admin,
    Export,
    Other,
}

pub open spec fn audit_category_text(c: AuditCategory) -> Seq<char> {
    match c {
        AuditCategory::Auth => "auth"@,
        AuditCategory::Authz => "authz"@,
        AuditCategory::Data => "data"@,
        AuditCategory::Signature => "signature"@,
        AuditCategory::Workflow => "workflow"@,
        AuditCategory::Admin => "admin"@,
        AuditCategory::Export => "export"@,
        AuditCategory::Other => "other"@,
    }
}

impl AuditCategory {
    pub fn as_str(self) -> (r: &'static str)
        ensures
            r@ == audit_category_text(self),
    {
        match self {
            AuditCategory::Auth => "auth",
            AuditCategory::Authz => "authz",
            AuditCategory::Data => "data",
            AuditCategory::Signature => "signature",
            AuditCategory::Workflow => "workflow",
            AuditCategory::Admin => "admin",
            AuditCategory::Export => "export",
            AuditCategory::Other => "other",
        }
    }
}

/// Outcome facet of an audit entry.
#[derive(Debug, Clone, Copy, PartialEq, Eq, Structural)]
pub enum AuditOutcome {
    Success,
    Deny,
    Failure,
}

pub open spec fn audit_outcome_text(o: AuditOutcome) -> Seq<char> {
    match o {
        AuditOutcome::Success => "success"@,
        AuditOutcome::Deny => "deny"@,
        AuditOutcome::Failure => "failure"@,
    }
}

impl AuditOutcome {
    pub fn as_str(self) -> (r: &'static str)
        ensures
            r@ == audit_outcome_text(self),
    {
        match self {
            AuditOutcome::Success => "success",
            AuditOutcome::Deny => "deny",
            AuditOutcome::Failure => "failure",
        }
    }
}

/// Retention tier of an audit entry.
#[derive(Debug, Clone, Copy, PartialEq, Eq, Structural)]
pub enum AuditRetentionClass {
    Standard,
    Security,
    Compliance,
    Restricted,
}

pub open spec fn audit_retention_class_text(c: AuditRetentionClass) -> Seq<char> {
    match c {
        AuditRetentionClass::Standard => "standard"@,
        AuditRetentionClass::Security => "security"@,
        AuditRetentionClass::Compliance => "compliance"@,
        AuditRetentionClass::Restricted => "restricted"@,
    }
}

impl AuditRetentionClass {
    pub fn as_str(self) -> (r: &'static str)
        ensures
            r@ == audit_retention_class_text(self),
    {
        match self {
            AuditRetentionClass::Standard => "standard",
            AuditRetentionClass::Security => "security",
            AuditRetentionClass::Compliance => "compliance",
            AuditRetentionClass::Restricted => "restricted",
        }
    }
}

/// Filter set for audit search. Every field is optional; an empty query is an unfiltered,
/// tenant-scoped listing.
#[derive(Debug)]
pub struct AuditSearchQuery {
    pub actor_user_id: Option<UserId>,
    /// Exact match on `action`.
    pub action: Option<String>,
    pub module_key: Option<String>,
    pub category: Option<String>,
    pub project_id: Option<ProjectId>,
    pub company_id: Option<CompanyId>,
    pub resource_type: Option<String>,
    pub resource_id: Option<Uuid>,
    pub workflow_instance_id: Option<Uuid>,
    pub signature_package_id: Option<Uuid>,
    pub outcome: Option<String>,
    pub from: Option<Timestamp>,
    pub to: Option<Timestamp>,
    /// Case-insensitive substring match against `action` or the payload text.
    pub q: Option<String>,
}

impl Clone for AuditSearchQuery {
    fn clone(&self) -> (r: Self)
        ensures
            r == *self,
    {
        AuditSearchQuery {
            actor_user_id: self.actor_user_id,
            action: clone_opt_string(&self.action),
            module_key: clone_opt_string(&self.module_key),
            category: clone_opt_string(&self.category),
            project_id: self.project_id,
            company_id: self.company_id,
            resource_type: clone_opt_string(&self.resource_type),
            resource_id: self.resource_id,
            workflow_instance_id: self.workflow_instance_id,
            signature_package_id: self.signature_package_id,
            outcome: clone_opt_string(&self.outcome),
            from: self.from,
            to: self.to,
            q: clone_opt_string(&self.q),
        }
    }
}

/// The query with no filter set.
pub open spec fn unfiltered() -> AuditSearchQuery {
    AuditSearchQuery {
        actor_user_id: None,
        action: None,
        module_key: None,
        category: None,
        project_id: None,
        company_id: None,
        resource_type: None,
        resource_id: None,
        workflow_instance_id: None,
        signature_package_id: None,
        outcome: None,
        from: None,
        to: None,
        q: None,
    }
}

impl Default for AuditSearchQuery {
    fn default() -> (r: Self)
        ensures
            r == unfiltered(),
    {
        AuditSearchQuery {
            actor_user_id: None,
            action: None,
            module_key: None,
            category: None,
            project_id: None,
            company_id: None,
            resource_type: None,
            resource_id: None,
            workflow_instance_id: None,
            signature_package_id: None,
            outcome: None,
            from: None,
            to: None,
            q: None,
        }
    }
}

impl AuditSearchQuery {
    /// Its time bounds are instants a UTC date-time can hold.
    pub open spec fn well_formed(self) -> bool {
        &&& (self.from matches Some(t) ==> crate::ids::representable(t as int))
        &&& (self.to matches Some(t) ==> crate::ids::representable(t as int))
    }

    /// No filter is set.
    pub open spec fn no_filters(self) -> bool {
        &&& self.actor_user_id is None
        &&& self.action is None
        &&& self.module_key is None
        &&& self.category is None
        &&& self.project_id is None
        &&& self.company_id is None
        &&& self.resource_type is None
        &&& self.resource_id is None
        &&& self.workflow_instance_id is None
        &&& self.signature_package_id is None
        &&& self.outcome is None
        &&& self.from is None
        &&& self.to is None
        &&& self.q is None
    }

    pub fn is_empty(&self) -> (r: bool)
        ensures
            r == self.no_filters(),
    {
        self.actor_user_id.is_none() && self.action.is_none() && self.module_key.is_none()
            && self.category.is_none() && self.project_id.is_none() && self.company_id.is_none()
            && self.resource_type.is_none() && self.resource_id.is_none()
            && self.workflow_instance_id.is_none() && self.signature_package_id.is_none()
            && self.outcome.is_none() && self.from.is_none() && self.to.is_none()
            && self.q.is_none()
    }
}

/// Metadata of an audit export request: lifecycle, the filter used (JSON text) and the
/// resulting entry count.
#[derive(Debug)]
pub struct AuditExportJob {
    pub id: Uuid,
    pub tenant_id: TenantId,
    pub requested_by: Option<UserId>,
    /// `queued` | `running` | `completed` | `failed`.
    pub status: String,
    pub filter: String,
    pub entry_count: Option<i32>,
    pub storage_key: Option<String>,
    pub error_message: Option<String>,
    pub created_at: Timestamp,
    pub completed_at: Option<Timestamp>,
}

impl Clone for AuditExportJob {
    fn clone(&self) -> (r: Self)
        ensures
            r == *self,
    {
        AuditExportJob {
            id: self.id,
            tenant_id: self.tenant_id,
            requested_by: self.requested_by,
            status: self.status.clone(),
            filter: self.filter.clone(),
            entry_count: self.entry_count,
            storage_key: clone_opt_string(&self.storage_key),
            error_message: clone_opt_string(&self.error_message),
            created_at: self.created_at,
            completed_at: self.completed_at,
        }
    }
}

/// Advisory per-tenant retention windows (in days) by retention class. Never triggers deletion.
#[derive(Debug, Clone, Copy, PartialEq, Eq, Structural)]
pub struct AuditRetentionPolicy {
    pub tenant_id: TenantId,
    pub standard_days: i32,
    pub security_days: i32,
    pub compliance_days: i32,
    pub restricted_days: i32,
    pub export_before_purge: bool,
    pub updated_at: Timestamp,
}

impl AuditRetentionPolicy {
    /// The policy a tenant has when it set none, stamped `updated_at`.
    pub open spec fn default_policy(tenant_id: TenantId, updated_at: Timestamp) -> Self {
        AuditRetentionPolicy {
            tenant_id,
            standard_days: 2555,
            security_days: 2555,
            compliance_days: 2555,
            restricted_days: 3650,
            export_before_purge: true,
            updated_at,
        }
    }

    /// The default windows, stamped with the time `now`.
    pub fn default_at(tenant_id: TenantId, now: Timestamp) -> (r: Self)
        ensures
            r == Self::default_policy(tenant_id, now),
    {
        AuditRetentionPolicy {
            tenant_id,
            standard_days: 2555,
            security_days: 2555,
            compliance_days: 2555,
            restricted_days: 3650,
            export_before_purge: true,
            updated_at: now,
        }
    }

    /// The default windows, stamped with the current time.
    pub fn default_for(tenant_id: TenantId) -> (r: Self)
        ensures
            exists|now: Timestamp| r == Self::default_policy(tenant_id, now),
    {
        Self::default_at(tenant_id, crate::external::clock_now())
    }
}

/// Whether a retention policy written without the field asks for export before purge: yes.
pub fn default_export_before_purge() -> (r: bool)
    ensures
        r,
{
    true
}

/// The payload of an audit append that gives none: the empty JSON object.
pub fn default_payload() -> (r: String)
    ensures
        r@ == "{}"@,
{
    crate::text::text("{}")
}

} // verus!

//! The audit engine: the append-only, integrity-digested audit log (every entry carries the
//! SHA-256 digest of its payload and a hash chained to the tenant's previous entry), filtered
//! newest-first search, exports and advisory retention.
use vstd::prelude::*;

use crate::application::apis::{published, CorePorts};
use crate::application::store::{key_index, upserted, find_key, upsert, Keyed, MemoryStore, Table};
use crate::domain::audit::{unfiltered, AuditExportJob, AuditRetentionPolicy};
use crate::domain::error::is_not_found;
use crate::events::{actor_for, actor_of, ActorRef, CoreEvent, EventEnvelope, ResourceRef};
use crate::external::{json_instant, json_timestamp, uuid_hyphenated, uuid_text};
use crate::external::{to_lowercase, unicode_lowercase};
use crate::ids::{AuditEntryId, MILLIS_PER_DAY};
use crate::lists::lemma_keep_len;
use crate::text::{join, json_object, json_object_text};
use crate::domain::audit::AuditChange;
use crate::domain::error::CoreError;
use crate::domain::models::AuditEntry;
use crate::external::{
    be_bytes, clock_now, hex_encode, hex_lower, json_quoted, json_string, new_uuid, sha256,
    sha256_of, uuid_bytes,
};
use crate::ids::{
    representable, CausationId, CompanyId, CorrelationId, ProjectId, SessionId, TenantId, UserId,
    Uuid,
};
use crate::lists::{first_where, keep, lemma_first_where_found, lemma_first_where_none, lemma_keep_step};
use crate::page::{paginate, is_page_of, Page, PageRequest};
use crate::domain::audit::AuditSearchQuery;
use crate::ids::Timestamp;
use crate::text::{
    ascii_lower, chars_of, clone_opt_string, contains_chars, contains_text, json_null,
    json_null_text, lower_chars, str_eq, text,
};

verus! {

broadcast use vstd::string::group_string_axioms;

/// One audit append. Only `tenant_id`, `actor_type`, `action`, `resource_type` and `payload`
/// are meaningfully required; every capture field after them is optional. `payload`,
/// `old_value`, `new_value` and each change's `old`/`new` are JSON text.
#[derive(Debug)]
pub struct AppendAuditEntryCommand {
    pub tenant_id: TenantId,
    pub actor_user_id: Option<UserId>,
    pub actor_type: String,
    pub action: String,
    pub resource_type: String,
    pub resource_id: Option<Uuid>,
    pub correlation_id: Option<CorrelationId>,
    pub causation_id: Option<CausationId>,
    pub payload: String,
    pub module_key: Option<String>,
    /// Defaults to `data` when omitted.
    pub category: Option<String>,
    /// Defaults to `success` when omitted.
    pub outcome: Option<String>,
    pub project_id: Option<ProjectId>,
    pub company_id: Option<CompanyId>,
    pub session_id: Option<SessionId>,
    pub ip_address: Option<String>,
    pub device_id: Option<String>,
    pub user_agent: Option<String>,
    pub workflow_instance_id: Option<Uuid>,
    pub signature_package_id: Option<Uuid>,
    pub old_value: Option<String>,
    pub new_value: Option<String>,
    pub changes: Vec<AuditChange>,
    /// Defaults to `standard` when omitted.
    pub retention_class: Option<String>,
    /// Defaults to `standard` when omitted.
    pub sensitivity: Option<String>,
}

impl AppendAuditEntryCommand {
    /// Only the five required fields carry information; every capture field is empty.
    pub open spec fn captures_nothing(self) -> bool {
        &&& self.actor_user_id is None
        &&& self.resource_id is None
        &&& self.correlation_id is None
        &&& self.causation_id is None
        &&& self.module_key is None
        &&& self.category is None
        &&& self.outcome is None
        &&& self.project_id is None
        &&& self.company_id is None
        &&& self.session_id is None
        &&& self.ip_address is None
        &&& self.device_id is None
        &&& self.user_agent is None
        &&& self.workflow_instance_id is None
        &&& self.signature_package_id is None
        &&& self.old_value is None
        &&& self.new_value is None
        &&& self.changes@.len() == 0
        &&& self.retention_class is None
        &&& self.sensitivity is None
    }
}

impl Default for AppendAuditEntryCommand {
    fn default() -> (r: Self)
        ensures
            r.tenant_id == 0,
            r.actor_type@.len() == 0,
            r.action@.len() == 0,
            r.resource_type@.len() == 0,
            r.payload@ == json_null(),
            r.captures_nothing(),
    {
        AppendAuditEntryCommand {
            tenant_id: 0,
            actor_user_id: None,
            actor_type: String::new(),
            action: String::new(),
            resource_type: String::new(),
            resource_id: None,
            correlation_id: None,
            causation_id: None,
            payload: json_null_text(),
            module_key: None,
            category: None,
            outcome: None,
            project_id: None,
            company_id: None,
            session_id: None,
            ip_address: None,
            device_id: None,
            user_agent: None,
            workflow_instance_id: None,
            signature_package_id: None,
            old_value: None,
            new_value: None,
            changes: Vec::new(),
            retention_class: None,
            sensitivity: None,
        }
    }
}

/// The lowercase hex SHA-256 digest of the UTF-8 bytes of a JSON payload text.
pub open spec fn digest_text(payload: Seq<char>) -> Seq<char> {
    hex_lower(sha256_of(vstd::utf8::encode_utf8(payload)))
}

/// `sha256(prev_hash + payload_digest + action + id)`, hex: the chained integrity hash.
pub open spec fn integrity_text(
    prev: Option<String>,
    digest: Seq<char>,
    action: Seq<char>,
    id: Uuid,
) -> Seq<char> {
    let prev_text = match prev {
        Some(p) => p@,
        None => Seq::<char>::empty(),
    };
    hex_lower(
        sha256_of(
            vstd::utf8::encode_utf8(prev_text) + vstd::utf8::encode_utf8(digest)
                + vstd::utf8::encode_utf8(action) + be_bytes(id),
        ),
    )
}

/// Compute the SHA-256 hex digest of a JSON payload (given as its text).
pub fn digest_payload(payload: &str) -> (r: Result<String, CoreError>)
    ensures
        r matches Ok(d) && d@ == digest_text(payload@),
{
    let digest = sha256(payload.as_bytes());
    Ok(hex_encode(digest.as_slice()))
}

fn append_bytes(v: &mut Vec<u8>, bytes: &[u8])
    ensures
        final(v)@ == old(v)@ + bytes@,
{
    let ghost start = v@;
    let mut i: usize = 0;
    while i < bytes.len()
        invariant
            i <= bytes.len(),
            v@ == start + bytes@.subrange(0, i as int),
        decreases bytes.len() - i,
    {
        v.push(bytes[i]);
        i = i + 1;
        assert(v@ =~= start + bytes@.subrange(0, i as int));
    }
    assert(bytes@.subrange(0, bytes.len() as int) =~= bytes@);
}

fn compute_integrity_hash(prev: &Option<String>, digest: &str, action: &str, id: Uuid) -> (r:
    String)
    ensures
        r@ == integrity_text(*prev, digest@, action@, id),
{
    let mut bytes: Vec<u8> = Vec::new();
    match prev {
        Some(p) => append_bytes(&mut bytes, p.as_str().as_bytes()),
        None => {},
    }
    proof {
        if prev is None {
            assert(vstd::utf8::encode_utf8(Seq::<char>::empty()) =~= Seq::<u8>::empty());
        }
    }
    append_bytes(&mut bytes, digest.as_bytes());
    append_bytes(&mut bytes, action.as_bytes());
    let idb = uuid_bytes(id);
    append_bytes(&mut bytes, idb.as_slice());
    let h = sha256(bytes.as_slice());
    hex_encode(h.as_slice())
}

/// The JSON text of one field change: `{"field":..,"new":..,"old":..}`, absent sides omitted.
pub open spec fn change_text(c: AuditChange) -> Seq<char> {
    "{\"field\":"@ + json_quoted(c.field@) + match c.new {
        Some(n) => ",\"new\":"@ + n@,
        None => Seq::<char>::empty(),
    } + match c.old {
        Some(o) => ",\"old\":"@ + o@,
        None => Seq::<char>::empty(),
    } + "}"@
}

pub open spec fn change_items(cs: Seq<AuditChange>) -> Seq<char>
    decreases cs.len(),
{
    if cs.len() == 0 {
        Seq::empty()
    } else if cs.len() == 1 {
        change_text(cs[0])
    } else {
        change_items(cs.drop_last()) + ","@ + change_text(cs.last())
    }
}

/// The JSON array text of a list of field changes.
pub open spec fn changes_text(cs: Seq<AuditChange>) -> Seq<char> {
    "["@ + change_items(cs) + "]"@
}

fn change_json(c: &AuditChange) -> (r: String)
    ensures
        r@ == change_text(*c),
{
    let mut r = text("{\"field\":");
    let f = json_string(c.field.as_str());
    r.append(f.as_str());
    match &c.new {
        Some(n) => {
            r.append(",\"new\":");
            r.append(n.as_str());
        },
        None => {},
    }
    match &c.old {
        Some(o) => {
            r.append(",\"old\":");
            r.append(o.as_str());
        },
        None => {},
    }
    r.append("}");
    r
}

fn changes_json(cs: &Vec<AuditChange>) -> (r: String)
    ensures
        r@ == changes_text(cs@),
{
    let mut items = String::new();
    let mut i: usize = 0;
    while i < cs.len()
        invariant
            i <= cs.len(),
            items@ == change_items(cs@.subrange(0, i as int)),
        decreases cs.len() - i,
    {
        if i > 0 {
            items.append(",");
        }
        let c = change_json(&cs[i]);
        items.append(c.as_str());
        proof {
            let next = cs@.subrange(0, i + 1);
            assert(next.drop_last() =~= cs@.subrange(0, i as int));
        }
        i = i + 1;
    }
    assert(cs@.subrange(0, cs.len() as int) =~= cs@);
    let mut r = text("[");
    r.append(items.as_str());
    r.append("]");
    r
}

/// The `integrity_hash` of the tenant's most recently appended entry, if any.
pub open spec fn last_hash(log: Seq<AuditEntry>, tenant_id: TenantId) -> Option<String>
    decreases log.len(),
{
    if log.len() == 0 {
        None
    } else if log.last().tenant_id == tenant_id {
        log.last().integrity_hash
    } else {
        last_hash(log.drop_last(), tenant_id)
    }
}

proof fn lemma_last_hash_prefix(log: Seq<AuditEntry>, tenant_id: TenantId, i: int)
    requires
        0 <= i <= log.len(),
        forall|k: int| i <= k < log.len() ==> log[k].tenant_id != tenant_id,
    ensures
        last_hash(log, tenant_id) == last_hash(log.subrange(0, i), tenant_id),
    decreases log.len() - i,
{
    if i < log.len() {
        lemma_last_hash_prefix(log.drop_last(), tenant_id, i);
        assert(log.drop_last().subrange(0, i) =~= log.subrange(0, i));
    } else {
        assert(log.subrange(0, i) =~= log);
    }
}

/// `text` if present, else `default`.
pub open spec fn or_default(o: Option<String>, default: Seq<char>) -> Seq<char> {
    match o {
        Some(s) => s@,
        None => default,
    }
}

/// `e` is the entry appended for `cmd` with id `e.id`, at time `e.occurred_at`, chained after
/// `prev`.
pub open spec fn entry_for(e: AuditEntry, cmd: AppendAuditEntryCommand, prev: Option<String>) -> bool {
    &&& e.tenant_id == cmd.tenant_id
    &&& representable(e.occurred_at as int)
    &&& e.recorded_at == e.occurred_at
    &&& e.actor_user_id == cmd.actor_user_id
    &&& e.actor_type == cmd.actor_type
    &&& e.action == cmd.action
    &&& e.resource_type == cmd.resource_type
    &&& e.resource_id == cmd.resource_id
    &&& e.correlation_id == cmd.correlation_id
    &&& e.causation_id == cmd.causation_id
    &&& e.payload == cmd.payload
    &&& e.payload_digest@ == digest_text(cmd.payload@)
    &&& e.module_key == cmd.module_key
    &&& e.category@ == or_default(cmd.category, "data"@)
    &&& e.outcome@ == or_default(cmd.outcome, "success"@)
    &&& e.project_id == cmd.project_id
    &&& e.company_id == cmd.company_id
    &&& e.session_id == cmd.session_id
    &&& e.ip_address == cmd.ip_address
    &&& e.device_id == cmd.device_id
    &&& e.user_agent == cmd.user_agent
    &&& e.workflow_instance_id == cmd.workflow_instance_id
    &&& e.signature_package_id == cmd.signature_package_id
    &&& e.old_value == cmd.old_value
    &&& e.new_value == cmd.new_value
    &&& e.changes@ == changes_text(cmd.changes@)
    &&& e.retention_class@ == or_default(cmd.retention_class, "standard"@)
    &&& e.sensitivity@ == or_default(cmd.sensitivity, "standard"@)
    &&& e.integrity_prev_hash == prev
    &&& e.integrity_hash matches Some(h) && h@ == integrity_text(
        prev,
        digest_text(cmd.payload@),
        cmd.action@,
        e.id,
    )
}

/// `e` is a success entry written by a Core service: the given facets, no correlation, no
/// capture fields beyond the project, an empty change list, standard retention and
/// sensitivity, chained after `prev`.
pub open spec fn service_entry(
    e: AuditEntry,
    tenant_id: TenantId,
    actor_user_id: Option<UserId>,
    actor_type: Seq<char>,
    action: Seq<char>,
    resource_type: Seq<char>,
    resource_id: Option<Uuid>,
    payload: Seq<char>,
    category: Seq<char>,
    project_id: Option<ProjectId>,
    prev: Option<String>,
) -> bool {
    &&& e.tenant_id == tenant_id
    &&& representable(e.occurred_at as int)
    &&& e.recorded_at == e.occurred_at
    &&& e.actor_user_id == actor_user_id
    &&& e.actor_type@ == actor_type
    &&& e.action@ == action
    &&& e.resource_type@ == resource_type
    &&& e.resource_id == resource_id
    &&& e.correlation_id is None
    &&& e.causation_id is None
    &&& e.payload@ == payload
    &&& e.payload_digest@ == digest_text(payload)
    &&& e.module_key is None
    &&& e.category@ == category
    &&& e.outcome@ == "success"@
    &&& e.project_id == project_id
    &&& e.company_id is None
    &&& e.session_id is None
    &&& e.ip_address is None
    &&& e.device_id is None
    &&& e.user_agent is None
    &&& e.workflow_instance_id is None
    &&& e.signature_package_id is None
    &&& e.old_value is None
    &&& e.new_value is None
    &&& e.changes@ == "[]"@
    &&& e.retention_class@ == "standard"@
    &&& e.sensitivity@ == "standard"@
    &&& e.integrity_prev_hash == prev
    &&& e.integrity_hash matches Some(h) && h@ == integrity_text(
        prev,
        digest_text(payload),
        action,
        e.id,
    )
}

/// `new` is `old` with one service entry appended (see [`service_entry`]).
pub open spec fn logged(
    old: Seq<AuditEntry>,
    new: Seq<AuditEntry>,
    tenant_id: TenantId,
    actor_user_id: Option<UserId>,
    actor_type: Seq<char>,
    action: Seq<char>,
    resource_type: Seq<char>,
    resource_id: Option<Uuid>,
    payload: Seq<char>,
    category: Seq<char>,
    project_id: Option<ProjectId>,
) -> bool {
    &&& new.len() == old.len() + 1
    &&& new.drop_last() == old
    &&& service_entry(
        new.last(),
        tenant_id,
        actor_user_id,
        actor_type,
        action,
        resource_type,
        resource_id,
        payload,
        category,
        project_id,
        last_hash(old, tenant_id),
    )
}

fn opt_or(o: Option<String>, default: &str) -> (r: String)
    ensures
        r@ == or_default(o, default@),
        o is Some ==> r == o.unwrap(),
{
    match o {
        Some(s) => s,
        None => text(default),
    }
}

/// One field-value pair of an audit command built by a Core service.
pub fn service_command(
    tenant_id: TenantId,
    actor_user_id: Option<UserId>,
    actor_type: &str,
    action: &str,
    resource_type: &str,
    resource_id: Option<Uuid>,
    payload: String,
    category: &str,
    project_id: Option<ProjectId>,
) -> (r: AppendAuditEntryCommand)
    ensures
        r.tenant_id == tenant_id,
        r.actor_user_id == actor_user_id,
        r.actor_type@ == actor_type@,
        r.action@ == action@,
        r.resource_type@ == resource_type@,
        r.resource_id == resource_id,
        r.correlation_id is None,
        r.causation_id is None,
        r.payload == payload,
        r.module_key is None,
        r.category matches Some(c) && c@ == category@,
        r.outcome is None,
        r.project_id == project_id,
        r.company_id is None,
        r.session_id is None,
        r.ip_address is None,
        r.device_id is None,
        r.user_agent is None,
        r.workflow_instance_id is None,
        r.signature_package_id is None,
        r.old_value is None,
        r.new_value is None,
        r.changes@.len() == 0,
        r.retention_class is None,
        r.sensitivity is None,
{
    AppendAuditEntryCommand {
        tenant_id,
        actor_user_id,
        actor_type: text(actor_type),
        action: text(action),
        resource_type: text(resource_type),
        resource_id,
        correlation_id: None,
        causation_id: None,
        payload,
        module_key: None,
        category: Some(text(category)),
        outcome: None,
        project_id,
        company_id: None,
        session_id: None,
        ip_address: None,
        device_id: None,
        user_agent: None,
        workflow_instance_id: None,
        signature_package_id: None,
        old_value: None,
        new_value: None,
        changes: Vec::new(),
        retention_class: None,
        sensitivity: None,
    }
}

impl MemoryStore {
    /// The `integrity_hash` of the tenant's most recent entry.
    pub fn last_integrity_hash(&self, tenant_id: TenantId) -> (r: Option<String>)
        ensures
            r == last_hash(self.audit@, tenant_id),
    {
        let mut i: usize = self.audit.len();
        while i > 0
            invariant
                i <= self.audit.len(),
                forall|k: int| i <= k < self.audit@.len() ==> self.audit@[k].tenant_id
                    != tenant_id,
            decreases i,
        {
            if self.audit[i - 1].tenant_id == tenant_id {
                proof {
                    lemma_last_hash_prefix(self.audit@, tenant_id, i as int);
                    assert(self.audit@.subrange(0, i as int).last() == self.audit@[i - 1]);
                }
                return clone_opt_string(&self.audit[i - 1].integrity_hash);
            }
            i = i - 1;
        }
        proof {
            lemma_last_hash_prefix(self.audit@, tenant_id, 0);
        }
        None
    }

    /// Append one audit fact: digest the payload, chain the integrity hash after the tenant's
    /// previous entry, and store it. Never touches an existing entry.
    pub fn append_entry(&mut self, cmd: AppendAuditEntryCommand) -> (r: AuditEntry)
        ensures
            entry_for(r, cmd, last_hash(old(self).audit@, cmd.tenant_id)),
            final(self).audit@ == old(self).audit@.push(r),
            final(self).same_except(*old(self), set![Table::Audit]),
    {
        let now = clock_now();
        let digest = digest_payload(cmd.payload.as_str());
        let payload_digest = match digest {
            Ok(d) => d,
            Err(_) => String::new(),
        };
        let id = new_uuid();
        let prev_hash = self.last_integrity_hash(cmd.tenant_id);
        let integrity_hash = compute_integrity_hash(
            &prev_hash,
            payload_digest.as_str(),
            cmd.action.as_str(),
            id,
        );
        let changes = changes_json(&cmd.changes);
        let ghost c = cmd;
        let entry = AuditEntry {
            id,
            tenant_id: cmd.tenant_id,
            occurred_at: now,
            recorded_at: now,
            actor_user_id: cmd.actor_user_id,
            actor_type: cmd.actor_type,
            action: cmd.action,
            resource_type: cmd.resource_type,
            resource_id: cmd.resource_id,
            correlation_id: cmd.correlation_id,
            causation_id: cmd.causation_id,
            payload: cmd.payload,
            payload_digest,
            module_key: cmd.module_key,
            category: opt_or(cmd.category, "data"),
            outcome: opt_or(cmd.outcome, "success"),
            project_id: cmd.project_id,
            company_id: cmd.company_id,
            session_id: cmd.session_id,
            ip_address: cmd.ip_address,
            device_id: cmd.device_id,
            user_agent: cmd.user_agent,
            workflow_instance_id: cmd.workflow_instance_id,
            signature_package_id: cmd.signature_package_id,
            old_value: cmd.old_value,
            new_value: cmd.new_value,
            changes,
            retention_class: opt_or(cmd.retention_class, "standard"),
            sensitivity: opt_or(cmd.sensitivity, "standard"),
            integrity_prev_hash: prev_hash,
            integrity_hash: Some(integrity_hash),
        };
        let stored = entry.clone();
        self.audit.push(stored);
        entry
    }
}

/// Whether `e` belongs to `tenant_id` and satisfies every populated filter of `query`. The
/// free-text filter `q` matches, ignoring case (both sides lowercased by the Unicode mapping), a
/// substring of the action or of the payload text.
pub open spec fn audit_matches(e: AuditEntry, tenant_id: TenantId, query: AuditSearchQuery) -> bool {
    &&& e.tenant_id == tenant_id
    &&& (query.actor_user_id matches Some(a) ==> e.actor_user_id == Some(a))
    &&& (query.action matches Some(a) ==> e.action@ == a@)
    &&& (query.module_key matches Some(m) ==> (e.module_key matches Some(k) && k@ == m@))
    &&& (query.category matches Some(c) ==> e.category@ == c@)
    &&& (query.project_id matches Some(p) ==> e.project_id == Some(p))
    &&& (query.company_id matches Some(c) ==> e.company_id == Some(c))
    &&& (query.resource_type matches Some(t) ==> e.resource_type@ == t@)
    &&& (query.resource_id matches Some(r) ==> e.resource_id == Some(r))
    &&& (query.workflow_instance_id matches Some(w) ==> e.workflow_instance_id == Some(w))
    &&& (query.signature_package_id matches Some(s) ==> e.signature_package_id == Some(s))
    &&& (query.outcome matches Some(o) ==> e.outcome@ == o@)
    &&& (query.from matches Some(f) ==> e.occurred_at >= f)
    &&& (query.to matches Some(t) ==> e.occurred_at <= t)
    &&& (query.q matches Some(q) ==> (contains_text(
        unicode_lowercase(e.action@),
        unicode_lowercase(q@),
    ) || contains_text(unicode_lowercase(e.payload@), unicode_lowercase(q@))))
}

pub open spec fn query_filter(tenant_id: TenantId, query: AuditSearchQuery) -> spec_fn(
    AuditEntry,
) -> bool {
    |e: AuditEntry| audit_matches(e, tenant_id, query)
}

/// The entry happened strictly before `t`.
pub open spec fn older_than(t: Timestamp) -> spec_fn(AuditEntry) -> bool {
    |e: AuditEntry| e.occurred_at < t
}

/// Where an entry that happened at `t` goes in a newest-first list: before the first strictly
/// older entry, after every entry at least as recent.
pub open spec fn newest_pos(rows: Seq<AuditEntry>, t: Timestamp) -> int {
    match first_where(rows, older_than(t)) {
        Some(j) => j,
        None => rows.len() as int,
    }
}

/// `s` ordered newest first, entries with the same time keeping their order (a stable sort
/// by descending `occurred_at`).
pub open spec fn newest_first(s: Seq<AuditEntry>) -> Seq<AuditEntry>
    decreases s.len(),
{
    if s.len() == 0 {
        Seq::empty()
    } else {
        let r = newest_first(s.drop_last());
        r.insert(newest_pos(r, s.last().occurred_at), s.last())
    }
}

/// The complete result of an audit search: the tenant's entries matching `query`, newest first.
pub open spec fn search_results(
    log: Seq<AuditEntry>,
    tenant_id: TenantId,
    query: AuditSearchQuery,
) -> Seq<AuditEntry> {
    newest_first(keep(log, query_filter(tenant_id, query)))
}

fn opt_text_is(field: &Option<String>, want: &String) -> (r: bool)
    ensures
        r == (*field matches Some(k) && k@ == want@),
{
    match field {
        Some(k) => str_eq(k.as_str(), want.as_str()),
        None => false,
    }
}

fn mentions(hay: &str, needle: &Vec<char>) -> (r: bool)
    ensures
        r == contains_text(unicode_lowercase(hay@), needle@),
{
    let lowered = to_lowercase(hay);
    let lower = chars_of(lowered.as_str());
    contains_chars(&lower, needle)
}

/// Whether an entry satisfies a search (see [`audit_matches`]).
pub fn matches_query(e: &AuditEntry, tenant_id: TenantId, query: &AuditSearchQuery) -> (r: bool)
    ensures
        r == audit_matches(*e, tenant_id, *query),
{
    if e.tenant_id != tenant_id {
        return false;
    }
    if let Some(actor) = query.actor_user_id {
        if e.actor_user_id != Some(actor) {
            return false;
        }
    }
    if let Some(action) = &query.action {
        if !str_eq(e.action.as_str(), action.as_str()) {
            return false;
        }
    }
    if let Some(module_key) = &query.module_key {
        if !opt_text_is(&e.module_key, module_key) {
            return false;
        }
    }
    if let Some(category) = &query.category {
        if !str_eq(e.category.as_str(), category.as_str()) {
            return false;
        }
    }
    if let Some(project_id) = query.project_id {
        if e.project_id != Some(project_id) {
            return false;
        }
    }
    if let Some(company_id) = query.company_id {
        if e.company_id != Some(company_id) {
            return false;
        }
    }
    if let Some(resource_type) = &query.resource_type {
        if !str_eq(e.resource_type.as_str(), resource_type.as_str()) {
            return false;
        }
    }
    if let Some(resource_id) = query.resource_id {
        if e.resource_id != Some(resource_id) {
            return false;
        }
    }
    if let Some(workflow_instance_id) = query.workflow_instance_id {
        if e.workflow_instance_id != Some(workflow_instance_id) {
            return false;
        }
    }
    if let Some(signature_package_id) = query.signature_package_id {
        if e.signature_package_id != Some(signature_package_id) {
            return false;
        }
    }
    if let Some(outcome) = &query.outcome {
        if !str_eq(e.outcome.as_str(), outcome.as_str()) {
            return false;
        }
    }
    if let Some(from) = query.from {
        if e.occurred_at < from {
            return false;
        }
    }
    if let Some(to) = query.to {
        if e.occurred_at > to {
            return false;
        }
    }
    if let Some(q) = &query.q {
        let q_lower = to_lowercase(q.as_str());
        let needle = chars_of(q_lower.as_str());
        let action_hit = mentions(e.action.as_str(), &needle);
        let payload_hit = mentions(e.payload.as_str(), &needle);
        if !action_hit && !payload_hit {
            return false;
        }
    }
    true
}

/// The position [`newest_pos`] in a newest-first list.
fn insert_position(rows: &Vec<AuditEntry>, t: Timestamp) -> (r: usize)
    ensures
        r as int == newest_pos(rows@, t),
        r <= rows.len(),
{
    let ghost p = older_than(t);
    let mut i: usize = 0;
    while i < rows.len()
        invariant
            i <= rows.len(),
            p == older_than(t),
            forall|k: int| 0 <= k < i ==> !p(rows@[k]),
        decreases rows.len() - i,
    {
        if rows[i].occurred_at < t {
            proof {
                lemma_first_where_found(rows@, p, i as int);
            }
            return i;
        }
        i = i + 1;
    }
    proof {
        lemma_first_where_none(rows@, p);
    }
    i
}

proof fn lemma_newest_first_len(s: Seq<AuditEntry>)
    ensures
        newest_first(s).len() == s.len(),
    decreases s.len(),
{
    if s.len() > 0 {
        lemma_newest_first_len(s.drop_last());
        let r = newest_first(s.drop_last());
        let t = s.last().occurred_at;
        lemma_newest_pos_range(r, t);
    }
}

proof fn lemma_newest_pos_range(rows: Seq<AuditEntry>, t: Timestamp)
    ensures
        0 <= newest_pos(rows, t) <= rows.len(),
{
    crate::lists::lemma_first_where_props(rows, older_than(t));
}

impl MemoryStore {
    /// Every entry of `tenant_id` matching `query`, newest first.
    pub fn search_audit(&self, tenant_id: TenantId, query: &AuditSearchQuery) -> (r: Vec<
        AuditEntry,
    >)
        ensures
            r@ == search_results(self.audit@, tenant_id, *query),
    {
        let ghost p = query_filter(tenant_id, *query);
        let mut sorted: Vec<AuditEntry> = Vec::new();
        let mut i: usize = 0;
        while i < self.audit.len()
            invariant
                i <= self.audit.len(),
                p == query_filter(tenant_id, *query),
                sorted@ == newest_first(keep(self.audit@.subrange(0, i as int), p)),
            decreases self.audit.len() - i,
        {
            proof {
                lemma_keep_step(self.audit@, p, i as int);
            }
            if matches_query(&self.audit[i], tenant_id, query) {
                let pos = insert_position(&sorted, self.audit[i].occurred_at);
                let e = self.audit[i].clone();
                sorted.insert(pos, e);
                proof {
                    let before = keep(self.audit@.subrange(0, i as int), p);
                    assert(before.push(self.audit@[i as int]).drop_last() =~= before);
                }
            }
            i = i + 1;
        }
        proof {
            assert(self.audit@.subrange(0, self.audit@.len() as int) =~= self.audit@);
        }
        sorted
    }
}

/// The tenant's stored retention policy, if it set one.
pub open spec fn stored_policy(
    rows: Seq<AuditRetentionPolicy>,
    tenant_id: TenantId,
) -> Option<AuditRetentionPolicy> {
    match key_index(rows, tenant_id) {
        Some(i) => Some(rows[i]),
        None => None,
    }
}

/// `p` is the default policy of `tenant_id`, stamped with a representable time.
pub open spec fn is_default_policy(p: AuditRetentionPolicy, tenant_id: TenantId) -> bool {
    p == AuditRetentionPolicy::default_policy(tenant_id, p.updated_at) && representable(
        p.updated_at as int,
    )
}

/// The window, in days, that `policy` gives entries of retention class `class`.
pub open spec fn threshold_days(policy: AuditRetentionPolicy, class: Seq<char>) -> int {
    if class == "security"@ {
        policy.security_days as int
    } else if class == "compliance"@ {
        policy.compliance_days as int
    } else if class == "restricted"@ {
        policy.restricted_days as int
    } else {
        policy.standard_days as int
    }
}

/// Whole days from `at` to `now`, rounded toward zero.
pub open spec fn age_days(now: int, at: int) -> int {
    let d = now - at;
    if d >= 0 {
        d / (MILLIS_PER_DAY as int)
    } else {
        -((-d) / (MILLIS_PER_DAY as int))
    }
}

/// The entry's age at `now` has reached its class's window under `policy`.
pub open spec fn purge_due(policy: AuditRetentionPolicy, now: Timestamp) -> spec_fn(
    AuditEntry,
) -> bool {
    |e: AuditEntry| age_days(now as int, e.occurred_at as int) >= threshold_days(
        policy,
        e.retention_class@,
    )
}

/// The ids of the entries, in order.
pub open spec fn entry_ids(entries: Seq<AuditEntry>) -> Seq<AuditEntryId> {
    entries.map_values(|e: AuditEntry| e.id)
}

/// The key an export of job `job_id` is stored under.
pub open spec fn export_key(tenant_id: TenantId, job_id: Uuid) -> Seq<char> {
    "audit-exports/"@ + uuid_text(tenant_id) + "/"@ + uuid_text(job_id) + ".json"@
}

/// The JSON text of an optional string.
pub open spec fn opt_text_json(o: Option<String>) -> Seq<char> {
    match o {
        Some(s) => json_quoted(s@),
        None => json_null(),
    }
}

/// The JSON text of an optional id.
pub open spec fn opt_id_json(o: Option<Uuid>) -> Seq<char> {
    match o {
        Some(id) => json_quoted(uuid_text(id)),
        None => json_null(),
    }
}

/// The JSON text of an optional instant.
pub open spec fn opt_time_json(o: Option<Timestamp>) -> Seq<char> {
    match o {
        Some(t) => json_instant(t as int),
        None => json_null(),
    }
}

/// The JSON text of a search filter: every field, keys in ascending order, absent ones `null`.
pub open spec fn filter_text(q: AuditSearchQuery) -> Seq<char> {
    json_object_text(
        seq![
            ("action"@, opt_text_json(q.action)),
            ("actor_user_id"@, opt_id_json(q.actor_user_id)),
            ("category"@, opt_text_json(q.category)),
            ("company_id"@, opt_id_json(q.company_id)),
            ("from"@, opt_time_json(q.from)),
            ("module_key"@, opt_text_json(q.module_key)),
            ("outcome"@, opt_text_json(q.outcome)),
            ("project_id"@, opt_id_json(q.project_id)),
            ("q"@, opt_text_json(q.q)),
            ("resource_id"@, opt_id_json(q.resource_id)),
            ("resource_type"@, opt_text_json(q.resource_type)),
            ("signature_package_id"@, opt_id_json(q.signature_package_id)),
            ("to"@, opt_time_json(q.to)),
            ("workflow_instance_id"@, opt_id_json(q.workflow_instance_id)),
        ],
    )
}

fn opt_text_json_of(o: &Option<String>) -> (r: String)
    ensures
        r@ == opt_text_json(*o),
{
    match o {
        Some(s) => json_string(s.as_str()),
        None => json_null_text(),
    }
}

fn opt_id_json_of(o: Option<Uuid>) -> (r: String)
    ensures
        r@ == opt_id_json(o),
{
    match o {
        Some(id) => {
            let t = uuid_hyphenated(id);
            json_string(t.as_str())
        },
        None => json_null_text(),
    }
}

fn opt_time_json_of(o: Option<Timestamp>) -> (r: String)
    requires
        o matches Some(t) ==> representable(t as int),
    ensures
        r@ == opt_time_json(o),
{
    match o {
        Some(t) => json_timestamp(t),
        None => json_null_text(),
    }
}

/// The JSON text of a search filter (see [`filter_text`]).
pub fn filter_json(q: &AuditSearchQuery) -> (r: String)
    requires
        q.well_formed(),
    ensures
        r@ == filter_text(*q),
{
    let keys: Vec<&str> = vec![
        "action",
        "actor_user_id",
        "category",
        "company_id",
        "from",
        "module_key",
        "outcome",
        "project_id",
        "q",
        "resource_id",
        "resource_type",
        "signature_package_id",
        "to",
        "workflow_instance_id",
    ];
    let values: Vec<String> = vec![
        opt_text_json_of(&q.action),
        opt_id_json_of(q.actor_user_id),
        opt_text_json_of(&q.category),
        opt_id_json_of(q.company_id),
        opt_time_json_of(q.from),
        opt_text_json_of(&q.module_key),
        opt_text_json_of(&q.outcome),
        opt_id_json_of(q.project_id),
        opt_text_json_of(&q.q),
        opt_id_json_of(q.resource_id),
        opt_text_json_of(&q.resource_type),
        opt_id_json_of(q.signature_package_id),
        opt_time_json_of(q.to),
        opt_id_json_of(q.workflow_instance_id),
    ];
    let r = json_object(&keys, &values);
    proof {
        let fields = Seq::new(keys.len() as nat, |i: int| (keys@[i]@, values@[i]@));
        assert(fields =~= seq![
            ("action"@, opt_text_json(q.action)),
            ("actor_user_id"@, opt_id_json(q.actor_user_id)),
            ("category"@, opt_text_json(q.category)),
            ("company_id"@, opt_id_json(q.company_id)),
            ("from"@, opt_time_json(q.from)),
            ("module_key"@, opt_text_json(q.module_key)),
            ("outcome"@, opt_text_json(q.outcome)),
            ("project_id"@, opt_id_json(q.project_id)),
            ("q"@, opt_text_json(q.q)),
            ("resource_id"@, opt_id_json(q.resource_id)),
            ("resource_type"@, opt_text_json(q.resource_type)),
            ("signature_package_id"@, opt_id_json(q.signature_package_id)),
            ("to"@, opt_time_json(q.to)),
            ("workflow_instance_id"@, opt_id_json(q.workflow_instance_id)),
        ]);
    }
    r
}

/// The storage key of an export (see [`export_key`]).
pub fn export_storage_key(tenant_id: TenantId, job_id: Uuid) -> (r: String)
    ensures
        r@ == export_key(tenant_id, job_id),
{
    let t = uuid_hyphenated(tenant_id);
    let j = uuid_hyphenated(job_id);
    let a = join("audit-exports/", t.as_str());
    let b = join(a.as_str(), "/");
    let c = join(b.as_str(), j.as_str());
    join(c.as_str(), ".json")
}

/// `ev` announces the append of `e`.
pub open spec fn announces_append(ev: EventEnvelope, e: AuditEntry) -> bool {
    ev.wraps(
        e.tenant_id,
        actor_of(e.actor_user_id),
        e.resource_type@,
        match e.resource_id {
            Some(r) => r,
            None => e.id,
        },
        e.correlation_id,
        e.causation_id,
        CoreEvent::AuditEntryAppended { tenant_id: e.tenant_id, audit_entry_id: e.id },
    )
}

/// `job` is the completed export of `filter` for `tenant_id`, requested by `requested_by`, that
/// found `count` entries.
pub open spec fn completed_export(
    job: AuditExportJob,
    tenant_id: TenantId,
    requested_by: Option<UserId>,
    filter: AuditSearchQuery,
    count: int,
) -> bool {
    &&& job.tenant_id == tenant_id
    &&& job.requested_by == requested_by
    &&& job.status@ == "completed"@
    &&& job.filter@ == filter_text(filter)
    &&& job.entry_count == Some(count as i32)
    &&& job.storage_key matches Some(k) && k@ == export_key(tenant_id, job.id)
    &&& job.error_message is None
    &&& representable(job.created_at as int)
    &&& job.completed_at matches Some(t) && representable(t as int)
}

/// `ev` announces that export `job` of `tenant_id` was requested by `requested_by`.
pub open spec fn announces_export_request(
    ev: EventEnvelope,
    job: AuditExportJob,
    tenant_id: TenantId,
    requested_by: Option<UserId>,
) -> bool {
    ev.wraps(
        tenant_id,
        actor_of(requested_by),
        "audit_export_job"@,
        job.id,
        None,
        None,
        CoreEvent::AuditExportRequested { job_id: job.id, tenant_id },
    )
}

/// `ev` announces that export `job` of `tenant_id` completed.
pub open spec fn announces_export_completion(
    ev: EventEnvelope,
    job: AuditExportJob,
    tenant_id: TenantId,
) -> bool {
    &&& ev.wraps(
        tenant_id,
        ActorRef::System,
        "audit_export_job"@,
        job.id,
        None,
        None,
        ev.payload,
    )
    &&& ev.payload matches CoreEvent::AuditExportCompleted { job_id, tenant_id: t, entry_count, storage_key }
        && job_id == job.id && t == tenant_id && Some(entry_count) == job.entry_count
        && job.storage_key == Some(storage_key)
}

/// The audit engine: append-only writes, filtered search, exports and advisory retention. With
/// an outbox attached it publishes an event for every append and for each step of an export.
#[derive(Debug, Clone, Copy)]
pub struct AuditService {
    pub emits_events: bool,
}

/// The name the audit engine goes by.
pub type AuditEngine = AuditService;

impl AuditService {
    pub fn new() -> (r: Self)
        ensures
            !r.emits_events,
    {
        AuditService { emits_events: false }
    }

    /// Publish appends and export steps to the outbox.
    pub fn with_outbox(self) -> (r: Self)
        ensures
            r.emits_events,
    {
        AuditService { emits_events: true }
    }

    /// Append one audit fact: its payload digest, chained after the tenant's previous entry.
    /// This is the only write path of the audit log; no existing entry is ever touched.
    pub fn append(&self, ports: &mut CorePorts, cmd: AppendAuditEntryCommand) -> (r: Result<
        AuditEntry,
        CoreError,
    >)
        ensures
            r matches Ok(e) && {
                &&& entry_for(e, cmd, last_hash(old(ports).store.audit@, cmd.tenant_id))
                &&& final(ports).store.audit@ == old(ports).store.audit@.push(e)
                &&& final(ports).evolved(
                    *old(ports),
                    set![Table::Audit],
                    if self.emits_events {
                        1
                    } else {
                        0
                    },
                )
                &&& self.emits_events ==> announces_append(final(ports).event(*old(ports), 0), e)
            },
    {
        let entry = ports.store.append_entry(cmd);
        if self.emits_events {
            let resource_id = match entry.resource_id {
                Some(r) => r,
                None => entry.id,
            };
            let envelope = EventEnvelope::new(
                entry.tenant_id,
                actor_for(entry.actor_user_id),
                ResourceRef { resource_type: entry.resource_type.clone(), resource_id },
                entry.correlation_id,
                entry.causation_id,
                CoreEvent::AuditEntryAppended { tenant_id: entry.tenant_id, audit_entry_id: entry.id },
            );
            ports.outbox.publish(envelope);
        }
        proof {
            assert(final(ports).outbox.events@.subrange(0, old(ports).outbox.events@.len() as int)
                =~= old(ports).outbox.events@);
        }
        Ok(entry)
    }

    /// Same as [`Self::append`].
    pub fn record(&self, ports: &mut CorePorts, cmd: AppendAuditEntryCommand) -> (r: Result<
        AuditEntry,
        CoreError,
    >)
        ensures
            r matches Ok(e) && {
                &&& entry_for(e, cmd, last_hash(old(ports).store.audit@, cmd.tenant_id))
                &&& final(ports).store.audit@ == old(ports).store.audit@.push(e)
                &&& final(ports).evolved(
                    *old(ports),
                    set![Table::Audit],
                    if self.emits_events {
                        1
                    } else {
                        0
                    },
                )
                &&& self.emits_events ==> announces_append(final(ports).event(*old(ports), 0), e)
            },
    {
        self.append(ports, cmd)
    }

    /// One page of the tenant's entries, newest first.
    pub fn query(&self, ports: &CorePorts, tenant_id: TenantId, page: PageRequest) -> (r: Result<
        Page<AuditEntry>,
        CoreError,
    >)
        ensures
            r matches Ok(p) && is_page_of(p, search_results(ports.store.audit@, tenant_id, unfiltered()), page),
    {
        let all = ports.store.search_audit(tenant_id, &AuditSearchQuery::default());
        Ok(paginate(all, page))
    }

    /// One page of the tenant's entries matching `query`, newest first.
    pub fn search(
        &self,
        ports: &CorePorts,
        tenant_id: TenantId,
        query: AuditSearchQuery,
        page: PageRequest,
    ) -> (r: Result<Page<AuditEntry>, CoreError>)
        ensures
            r matches Ok(p) && is_page_of(p, search_results(ports.store.audit@, tenant_id, query), page),
    {
        let all = ports.store.search_audit(tenant_id, &query);
        Ok(paginate(all, page))
    }

    /// Every entry matching `query`, gathered page by page (pages of five hundred).
    fn collect_all(&self, ports: &CorePorts, tenant_id: TenantId, query: &AuditSearchQuery) -> (r: Vec<
        AuditEntry,
    >)
        requires
            ports.store.audit@.len() <= u32::MAX,
        ensures
            r@ == search_results(ports.store.audit@, tenant_id, *query),
    {
        let ghost res = search_results(ports.store.audit@, tenant_id, *query);
        proof {
            lemma_keep_len(ports.store.audit@, query_filter(tenant_id, *query));
            lemma_newest_first_len(keep(ports.store.audit@, query_filter(tenant_id, *query)));
        }
        let mut all: Vec<AuditEntry> = Vec::new();
        let mut offset: u32 = 0;
        loop
            invariant_except_break
                all@ == res.subrange(0, offset as int),
            invariant
                res == search_results(ports.store.audit@, tenant_id, *query),
                res.len() <= ports.store.audit@.len() <= u32::MAX,
                offset <= res.len(),
            ensures
                all@ == res,
            decreases res.len() - offset,
        {
            let found = ports.store.search_audit(tenant_id, query);
            let page = paginate(found, PageRequest { limit: 500, offset });
            let got = page.items.len() as u32;
            let total = page.total;
            let mut items = page.items;
            all.append(&mut items);
            proof {
                if offset < res.len() {
                    if offset + 500 <= res.len() {
                        assert(all@ =~= res.subrange(0, offset + 500));
                    } else {
                        assert(all@ =~= res.subrange(0, res.len() as int));
                    }
                }
            }
            if got < 500 || all.len() as u64 >= total {
                proof {
                    assert(all@ =~= res);
                }
                break;
            }
            offset = offset + 500;
        }
        all
    }

    /// Export the entries matching `filter`. The job is stored as `queued`, the entries are
    /// gathered, and the job is completed with their count and its storage key.
    pub fn request_export(
        &self,
        ports: &mut CorePorts,
        tenant_id: TenantId,
        requested_by: Option<UserId>,
        filter: AuditSearchQuery,
    ) -> (r: Result<AuditExportJob, CoreError>)
        requires
            filter.well_formed(),
            old(ports).store.audit@.len() <= u32::MAX,
        ensures
            r matches Ok(job) && {
                &&& completed_export(
                    job,
                    tenant_id,
                    requested_by,
                    filter,
                    search_results(old(ports).store.audit@, tenant_id, filter).len() as int,
                )
                &&& final(ports).store.audit_export_jobs@ == upserted(
                    old(ports).store.audit_export_jobs@,
                    job,
                )
                &&& final(ports).evolved(
                    *old(ports),
                    set![Table::AuditExportJobs],
                    if self.emits_events {
                        2
                    } else {
                        0
                    },
                )
                &&& self.emits_events ==> announces_export_request(
                    final(ports).event(*old(ports), 0),
                    job,
                    tenant_id,
                    requested_by,
                )
                &&& self.emits_events ==> announces_export_completion(
                    final(ports).event(*old(ports), 1),
                    job,
                    tenant_id,
                )
            },
    {
        let ghost old_jobs = ports.store.audit_export_jobs@;
        let ghost old_events = ports.outbox.events@;
        let now = clock_now();
        let job_id = new_uuid();
        let filter_text_json = filter_json(&filter);
        let queued = AuditExportJob {
            id: job_id,
            tenant_id,
            requested_by,
            status: text("queued"),
            filter: filter_text_json,
            entry_count: None,
            storage_key: None,
            error_message: None,
            created_at: now,
            completed_at: None,
        };
        let mut job = queued.clone();
        upsert(&mut ports.store.audit_export_jobs, queued);
        if self.emits_events {
            let envelope = EventEnvelope::new(
                tenant_id,
                actor_for(requested_by),
                ResourceRef { resource_type: text("audit_export_job"), resource_id: job_id },
                None,
                None,
                CoreEvent::AuditExportRequested { job_id, tenant_id },
            );
            ports.outbox.publish(envelope);
        }
        let entries = self.collect_all(ports, tenant_id, &filter);
        let entry_count = entries.len() as i32;
        let storage_key = export_storage_key(tenant_id, job_id);
        job.status = text("completed");
        job.entry_count = Some(entry_count);
        job.storage_key = Some(storage_key.clone());
        job.completed_at = Some(clock_now());
        let stored = job.clone();
        upsert(&mut ports.store.audit_export_jobs, stored);
        if self.emits_events {
            let envelope = EventEnvelope::new(
                tenant_id,
                ActorRef::System,
                ResourceRef { resource_type: text("audit_export_job"), resource_id: job_id },
                None,
                None,
                CoreEvent::AuditExportCompleted { job_id, tenant_id, entry_count, storage_key },
            );
            ports.outbox.publish(envelope);
        }
        proof {
            crate::application::store::lemma_upserted_twice(old_jobs, queued, job);
            assert(ports.outbox.events@.subrange(0, old_events.len() as int) =~= old_events);
        }
        Ok(job)
    }

    /// The tenant's export job `job_id`.
    pub fn get_export(&self, ports: &CorePorts, tenant_id: TenantId, job_id: Uuid) -> (r: Result<
        AuditExportJob,
        CoreError,
    >)
        ensures
            match key_index(ports.store.audit_export_jobs@, job_id) {
                Some(i) if ports.store.audit_export_jobs@[i].tenant_id == tenant_id => r == Ok::<
                    AuditExportJob,
                    CoreError,
                >(ports.store.audit_export_jobs@[i]),
                _ => r matches Err(e) && is_not_found(e, "audit_export_job"@),
            },
    {
        match find_key(&ports.store.audit_export_jobs, job_id) {
            Some(i) => {
                if ports.store.audit_export_jobs[i].tenant_id == tenant_id {
                    Ok(ports.store.audit_export_jobs[i].clone())
                } else {
                    Err(CoreError::not_found("audit_export_job"))
                }
            },
            None => Err(CoreError::not_found("audit_export_job")),
        }
    }

    /// The tenant's retention policy, or the default windows when it set none.
    pub fn get_retention_policy(&self, ports: &CorePorts, tenant_id: TenantId) -> (r: Result<
        AuditRetentionPolicy,
        CoreError,
    >)
        ensures
            r matches Ok(p) && match stored_policy(ports.store.audit_retention_policies@, tenant_id) {
                Some(s) => p == s,
                None => is_default_policy(p, tenant_id),
            },
    {
        match find_key(&ports.store.audit_retention_policies, tenant_id) {
            Some(i) => Ok(ports.store.audit_retention_policies[i]),
            None => Ok(AuditRetentionPolicy::default_at(tenant_id, clock_now())),
        }
    }

    /// Store `policy` (replacing the tenant's previous one), stamped with the current time.
    pub fn upsert_retention_policy(&self, ports: &mut CorePorts, policy: AuditRetentionPolicy) -> (r:
        Result<AuditRetentionPolicy, CoreError>)
        ensures
            r matches Ok(p) && {
                &&& p == AuditRetentionPolicy { updated_at: p.updated_at, ..policy }
                &&& representable(p.updated_at as int)
                &&& final(ports).store.audit_retention_policies@ == upserted(
                    old(ports).store.audit_retention_policies@,
                    p,
                )
                &&& final(ports).evolved(*old(ports), set![Table::AuditRetentionPolicies], 0)
            },
    {
        let mut policy = policy;
        policy.updated_at = clock_now();
        upsert(&mut ports.store.audit_retention_policies, policy);
        proof {
            assert(ports.outbox.events@.subrange(0, ports.outbox.events@.len() as int)
                =~= ports.outbox.events@);
        }
        Ok(policy)
    }

    /// Ids of the tenant's entries whose age at `now` has reached their retention class's window
    /// under the tenant's policy (or the default one), newest first. Nothing is deleted: the
    /// audit log is append-only, and these ids are only eligible for archival.
    pub fn list_purge_candidates(&self, ports: &CorePorts, tenant_id: TenantId, now: Timestamp) -> (r:
        Result<Vec<AuditEntryId>, CoreError>)
        requires
            representable(now as int),
            ports.store.audit@.len() <= u32::MAX,
        ensures
            r matches Ok(ids) && exists|policy: AuditRetentionPolicy| {
                &&& match stored_policy(ports.store.audit_retention_policies@, tenant_id) {
                    Some(s) => policy == s,
                    None => is_default_policy(policy, tenant_id),
                }
                &&& ids@ == entry_ids(
                    keep(
                        search_results(ports.store.audit@, tenant_id, unfiltered()),
                        purge_due(policy, now),
                    ),
                )
            },
    {
        let policy = match self.get_retention_policy(ports, tenant_id) {
            Ok(p) => p,
            Err(e) => {
                return Err(e);
            },
        };
        let entries = self.collect_all(ports, tenant_id, &AuditSearchQuery::default());
        let ghost due = purge_due(policy, now);
        let mut ids: Vec<AuditEntryId> = Vec::new();
        let mut i: usize = 0;
        while i < entries.len()
            invariant
                i <= entries.len(),
                due == purge_due(policy, now),
                representable(now as int),
                ids@ == entry_ids(keep(entries@.subrange(0, i as int), due)),
            decreases entries.len() - i,
        {
            proof {
                lemma_keep_step(entries@, due, i as int);
            }
            let e = &entries[i];
            let threshold: i32 = if str_eq(e.retention_class.as_str(), "security") {
                policy.security_days
            } else if str_eq(e.retention_class.as_str(), "compliance") {
                policy.compliance_days
            } else if str_eq(e.retention_class.as_str(), "restricted") {
                policy.restricted_days
            } else {
                policy.standard_days
            };
            let age = whole_days_between(now, e.occurred_at);
            if age >= threshold as i64 {
                ids.push(e.id);
            }
            proof {
                let before = keep(entries@.subrange(0, i as int), due);
                assert(entry_ids(before.push(entries@[i as int])) =~= entry_ids(before).push(
                    entries@[i as int].id,
                ));
            }
            i = i + 1;
        }
        proof {
            assert(entries@.subrange(0, entries@.len() as int) =~= entries@);
        }
        Ok(ids)
    }
}

/// Whole days from `at` to `now`, rounded toward zero.
fn whole_days_between(now: Timestamp, at: Timestamp) -> (r: i64)
    ensures
        r == age_days(now as int, at as int),
{
    let d: i128 = now as i128 - at as i128;
    if d >= 0 {
        (d / 86_400_000) as i64
    } else {
        let n: i128 = -d;
        -((n / 86_400_000) as i64)
    }
}

/// The JSON text of an id: its quoted hyphenated form.
pub open spec fn id_json_text(id: Uuid) -> Seq<char> {
    json_quoted(uuid_text(id))
}

/// The JSON text of an id (see [`id_json_text`]).
pub fn id_json(id: Uuid) -> (r: String)
    ensures
        r@ == id_json_text(id),
{
    let t = uuid_hyphenated(id);
    json_string(t.as_str())
}

impl MemoryStore {
    /// Record a successful action of a Core service in the audit log (see [`logged`]).
    pub fn log_service_action(
        &mut self,
        tenant_id: TenantId,
        actor_user_id: Option<UserId>,
        actor_type: &str,
        action: &str,
        resource_type: &str,
        resource_id: Option<Uuid>,
        payload: String,
        category: &str,
        project_id: Option<ProjectId>,
    ) -> (r: AuditEntryId)
        ensures
            r == final(self).audit@.last().id,
            logged(
                old(self).audit@,
                final(self).audit@,
                tenant_id,
                actor_user_id,
                actor_type@,
                action@,
                resource_type@,
                resource_id,
                payload@,
                category@,
                project_id,
            ),
            final(self).same_except(*old(self), set![Table::Audit]),
    {
        let cmd = service_command(
            tenant_id,
            actor_user_id,
            actor_type,
            action,
            resource_type,
            resource_id,
            payload,
            category,
            project_id,
        );
        let e = self.append_entry(cmd);
        let id = e.id;
        proof {
            assert(final(self).audit@.drop_last() =~= old(self).audit@);
            assert(changes_text(Seq::<AuditChange>::empty()) =~= "[]"@) by {
                reveal_strlit("[");
                reveal_strlit("]");
                reveal_strlit("[]");
            }
        }
        id
    }
}

} // verus!

//! Project membership bindings and teams.
use vstd::prelude::*;

use crate::application::apis::CorePorts;
use crate::application::audit::{id_json, id_json_text, logged};
use crate::application::store::{upsert, upserted, MemoryStore, Table};
use crate::domain::enums::{MembershipStatus, TeamStatus};
use crate::domain::error::{is_conflict, is_validation, CoreError};
use crate::domain::models::{ProjectMembership, Team};
use crate::events::{actor_for, actor_of, ActorRef, CoreEvent, EventEnvelope, ResourceRef};
use crate::external::{clock_now, json_quoted, json_string, new_uuid};
use crate::ids::{representable, PersonId, PrincipalId, ProjectId, TenantId, UserId};
use crate::lists::{first_where, keep, lemma_first_where_found, lemma_first_where_none, lemma_keep_step};
use crate::text::{chars_of, json_object, json_object_text, text, trim, trim_chars};

verus! {

broadcast use vstd::string::group_string_axioms;

/// Bind a user or a person to a project.
#[derive(Debug)]
pub struct GrantProjectMembershipCommand {
    pub tenant_id: TenantId,
    pub project_id: ProjectId,
    pub user_id: Option<UserId>,
    pub person_id: Option<PersonId>,
    pub membership_role: String,
    pub granted_by: Option<UserId>,
}

/// Create a team, optionally within a project.
#[derive(Debug)]
pub struct CreateTeamCommand {
    pub tenant_id: TenantId,
    pub name: String,
    pub project_id: Option<ProjectId>,
}

/// A membership of the user on the project that has not been removed.
pub open spec fn live_membership(tenant_id: TenantId, project_id: ProjectId, user_id: UserId) -> spec_fn(
    ProjectMembership,
) -> bool {
    |m: ProjectMembership|
        m.tenant_id == tenant_id && m.project_id == project_id && m.user_id == Some(user_id)
            && m.status != MembershipStatus::Removed
}

/// The user's first membership on the project that has not been removed.
pub open spec fn live_membership_of(
    store: MemoryStore,
    tenant_id: TenantId,
    project_id: ProjectId,
    user_id: UserId,
) -> Option<ProjectMembership> {
    match first_where(store.memberships@, live_membership(tenant_id, project_id, user_id)) {
        Some(i) => Some(store.memberships@[i]),
        None => None,
    }
}

/// A status that counts as membership.
pub open spec fn participating(s: MembershipStatus) -> bool {
    s == MembershipStatus::Active || s == MembershipStatus::Invited
}

pub open spec fn membership_of_user(tenant_id: TenantId, user_id: UserId) -> spec_fn(
    ProjectMembership,
) -> bool {
    |m: ProjectMembership| m.tenant_id == tenant_id && m.user_id == Some(user_id)
}

/// The distinct projects of the participating memberships among `ms`, in the order first met.
pub open spec fn member_projects(ms: Seq<ProjectMembership>) -> Seq<ProjectId>
    decreases ms.len(),
{
    if ms.len() == 0 {
        Seq::empty()
    } else {
        let before = member_projects(ms.drop_last());
        let m = ms.last();
        if participating(m.status) && !before.contains(m.project_id) {
            before.push(m.project_id)
        } else {
            before
        }
    }
}

fn find_live(
    rows: &Vec<ProjectMembership>,
    tenant_id: TenantId,
    project_id: ProjectId,
    user_id: UserId,
) -> (r: Option<usize>)
    ensures
        match r {
            Some(i) => i < rows.len() && first_where(
                rows@,
                live_membership(tenant_id, project_id, user_id),
            ) == Some(i as int),
            None => first_where(rows@, live_membership(tenant_id, project_id, user_id)) is None,
        },
{
    let ghost p = live_membership(tenant_id, project_id, user_id);
    let mut i: usize = 0;
    while i < rows.len()
        invariant
            i <= rows.len(),
            p == live_membership(tenant_id, project_id, user_id),
            forall|k: int| 0 <= k < i ==> !p(rows@[k]),
        decreases rows.len() - i,
    {
        let m = &rows[i];
        if m.tenant_id == tenant_id && m.project_id == project_id && m.user_id == Some(user_id)
            && m.status != MembershipStatus::Removed {
            proof {
                lemma_first_where_found(rows@, p, i as int);
            }
            return Some(i);
        }
        i = i + 1;
    }
    proof {
        lemma_first_where_none(rows@, p);
    }
    None
}

fn contains_project(v: &Vec<ProjectId>, id: ProjectId) -> (r: bool)
    ensures
        r == v@.contains(id),
{
    let mut i: usize = 0;
    while i < v.len()
        invariant
            i <= v.len(),
            forall|k: int| 0 <= k < i ==> v@[k] != id,
        decreases v.len() - i,
    {
        if v[i] == id {
            return true;
        }
        i = i + 1;
    }
    false
}

/// Project memberships and teams.
#[derive(Debug, Clone, Copy)]
pub struct MembershipService;

impl MembershipService {
    pub fn new() -> (r: Self) {
        MembershipService
    }

    /// Bind a user or person to a project. A user may hold only one membership per project that
    /// has not been removed.
    pub fn grant_project_membership(&self, ports: &mut CorePorts, cmd: GrantProjectMembershipCommand) -> (r:
        Result<ProjectMembership, CoreError>)
        ensures
            cmd.user_id is None && cmd.person_id is None ==> (r matches Err(e) && is_validation(
                e,
                "membership requires a user_id or person_id"@,
            ) && *final(ports) == *old(ports)),
            (cmd.user_id matches Some(u) && live_membership_of(
                old(ports).store,
                cmd.tenant_id,
                cmd.project_id,
                u,
            ) is Some) ==> (r matches Err(e) && is_conflict(
                e,
                "principal already has an active membership on this project"@,
            ) && *final(ports) == *old(ports)),
            !(cmd.user_id is None && cmd.person_id is None) && !(cmd.user_id matches Some(u)
                && live_membership_of(old(ports).store, cmd.tenant_id, cmd.project_id, u) is Some)
                ==> (r matches Ok(m) && {
                &&& m.tenant_id == cmd.tenant_id
                &&& m.project_id == cmd.project_id
                &&& m.user_id == cmd.user_id
                &&& m.person_id == cmd.person_id
                &&& m.membership_role == cmd.membership_role
                &&& m.status == MembershipStatus::Active
                &&& representable(m.created_at as int) && m.updated_at == m.created_at
                &&& m.version == 1
                &&& final(ports).store.memberships@ == upserted(old(ports).store.memberships@, m)
                &&& logged(
                    old(ports).store.audit@,
                    final(ports).store.audit@,
                    cmd.tenant_id,
                    cmd.granted_by,
                    "user"@,
                    "core.membership.granted"@,
                    "project_membership"@,
                    Some(m.id),
                    json_object_text(seq![("project_id"@, id_json_text(m.project_id))]),
                    "authz"@,
                    Some(m.project_id),
                )
                &&& final(ports).evolved(*old(ports), set![Table::Memberships, Table::Audit], 1)
                &&& final(ports).event(*old(ports), 0).wraps(
                    cmd.tenant_id,
                    actor_of(cmd.granted_by),
                    "project_membership"@,
                    m.id,
                    None,
                    None,
                    CoreEvent::ProjectMembershipGranted {
                        tenant_id: cmd.tenant_id,
                        membership_id: m.id,
                        project_id: m.project_id,
                    },
                )
            }),
    {
        if cmd.user_id.is_none() && cmd.person_id.is_none() {
            return Err(CoreError::validation("membership requires a user_id or person_id"));
        }
        if let Some(user_id) = cmd.user_id {
            if find_live(&ports.store.memberships, cmd.tenant_id, cmd.project_id, user_id).is_some() {
                return Err(
                    CoreError::conflict("principal already has an active membership on this project"),
                );
            }
        }
        let ghost old_events = ports.outbox.events@;
        let now = clock_now();
        let membership = ProjectMembership {
            id: new_uuid(),
            tenant_id: cmd.tenant_id,
            project_id: cmd.project_id,
            user_id: cmd.user_id,
            person_id: cmd.person_id,
            membership_role: cmd.membership_role,
            status: MembershipStatus::Active,
            created_at: now,
            updated_at: now,
            version: 1,
        };
        upsert(&mut ports.store.memberships, membership.clone());
        let keys: Vec<&str> = vec!["project_id"];
        let values: Vec<String> = vec![id_json(membership.project_id)];
        let payload = json_object(&keys, &values);
        proof {
            let fields = Seq::new(keys.len() as nat, |i: int| (keys@[i]@, values@[i]@));
            assert(fields =~= seq![("project_id"@, id_json_text(membership.project_id))]);
        }
        ports.store.log_service_action(
            cmd.tenant_id,
            cmd.granted_by,
            "user",
            "core.membership.granted",
            "project_membership",
            Some(membership.id),
            payload,
            "authz",
            Some(membership.project_id),
        );
        let envelope = EventEnvelope::new(
            cmd.tenant_id,
            actor_for(cmd.granted_by),
            ResourceRef { resource_type: text("project_membership"), resource_id: membership.id },
            None,
            None,
            CoreEvent::ProjectMembershipGranted {
                tenant_id: cmd.tenant_id,
                membership_id: membership.id,
                project_id: membership.project_id,
            },
        );
        ports.outbox.publish(envelope);
        proof {
            assert(ports.outbox.events@.subrange(0, old_events.len() as int) =~= old_events);
        }
        Ok(membership)
    }

    /// Whether the principal's first membership on the project that has not been removed is
    /// active or invited.
    pub fn is_project_member(
        &self,
        ports: &CorePorts,
        tenant_id: TenantId,
        project_id: ProjectId,
        principal: PrincipalId,
    ) -> (r: Result<bool, CoreError>)
        ensures
            r == Ok::<bool, CoreError>(
                match live_membership_of(ports.store, tenant_id, project_id, principal) {
                    Some(m) => participating(m.status),
                    None => false,
                },
            ),
    {
        match find_live(&ports.store.memberships, tenant_id, project_id, principal) {
            Some(i) => {
                let s = ports.store.memberships[i].status;
                Ok(s == MembershipStatus::Active || s == MembershipStatus::Invited)
            },
            None => Ok(false),
        }
    }

    /// The distinct projects the principal is an active or invited member of, in store order.
    pub fn list_principal_projects(&self, ports: &CorePorts, tenant_id: TenantId, principal: PrincipalId) -> (r:
        Result<Vec<ProjectId>, CoreError>)
        ensures
            r matches Ok(v) && v@ == member_projects(
                keep(ports.store.memberships@, membership_of_user(tenant_id, principal)),
            ),
    {
        let ghost p = membership_of_user(tenant_id, principal);
        let rows = &ports.store.memberships;
        let mut projects: Vec<ProjectId> = Vec::new();
        let mut i: usize = 0;
        while i < rows.len()
            invariant
                i <= rows.len(),
                p == membership_of_user(tenant_id, principal),
                projects@ == member_projects(keep(rows@.subrange(0, i as int), p)),
            decreases rows.len() - i,
        {
            proof {
                lemma_keep_step(rows@, p, i as int);
                let before = keep(rows@.subrange(0, i as int), p);
                assert(before.push(rows@[i as int]).drop_last() =~= before);
            }
            let m = &rows[i];
            if m.tenant_id == tenant_id && m.user_id == Some(principal) {
                if (m.status == MembershipStatus::Active || m.status == MembershipStatus::Invited)
                    && !contains_project(&projects, m.project_id) {
                    projects.push(m.project_id);
                }
            }
            i = i + 1;
        }
        proof {
            assert(rows@.subrange(0, rows@.len() as int) =~= rows@);
        }
        Ok(projects)
    }

    /// Create an active team; its name must not be blank.
    pub fn create_team(&self, ports: &mut CorePorts, cmd: CreateTeamCommand) -> (r: Result<
        Team,
        CoreError,
    >)
        ensures
            trim(cmd.name@).len() == 0 ==> (r matches Err(e) && is_validation(
                e,
                "team name must not be empty"@,
            ) && *final(ports) == *old(ports)),
            trim(cmd.name@).len() != 0 ==> (r matches Ok(t) && {
                &&& t.tenant_id == cmd.tenant_id
                &&& t.name == cmd.name
                &&& t.project_id == cmd.project_id
                &&& t.status == TeamStatus::Active
                &&& representable(t.created_at as int) && t.updated_at == t.created_at
                &&& t.version == 1
                &&& final(ports).store.teams@ == upserted(old(ports).store.teams@, t)
                &&& logged(
                    old(ports).store.audit@,
                    final(ports).store.audit@,
                    cmd.tenant_id,
                    None,
                    "user"@,
                    "core.team.created"@,
                    "team"@,
                    Some(t.id),
                    json_object_text(seq![("name"@, json_quoted(cmd.name@))]),
                    "authz"@,
                    cmd.project_id,
                )
                &&& final(ports).evolved(*old(ports), set![Table::Teams, Table::Audit], 1)
                &&& final(ports).event(*old(ports), 0).wraps(
                    cmd.tenant_id,
                    ActorRef::System,
                    "team"@,
                    t.id,
                    None,
                    None,
                    CoreEvent::TeamCreated { tenant_id: cmd.tenant_id, team_id: t.id },
                )
            }),
    {
        let name_chars = chars_of(cmd.name.as_str());
        let trimmed = trim_chars(&name_chars);
        if trimmed.len() == 0 {
            return Err(CoreError::validation("team name must not be empty"));
        }
        let ghost old_events = ports.outbox.events@;
        let now = clock_now();
        let team = Team {
            id: new_uuid(),
            tenant_id: cmd.tenant_id,
            name: cmd.name,
            project_id: cmd.project_id,
            status: TeamStatus::Active,
            created_at: now,
            updated_at: now,
            version: 1,
        };
        upsert(&mut ports.store.teams, team.clone());
        let keys: Vec<&str> = vec!["name"];
        let values: Vec<String> = vec![json_string(team.name.as_str())];
        let payload = json_object(&keys, &values);
        proof {
            let fields = Seq::new(keys.len() as nat, |i: int| (keys@[i]@, values@[i]@));
            assert(fields =~= seq![("name"@, json_quoted(team.name@))]);
        }
        ports.store.log_service_action(
            cmd.tenant_id,
            None,
            "user",
            "core.team.created",
            "team",
            Some(team.id),
            payload,
            "authz",
            team.project_id,
        );
        let envelope = EventEnvelope::new(
            cmd.tenant_id,
            ActorRef::System,
            ResourceRef { resource_type: text("team"), resource_id: team.id },
            None,
            None,
            CoreEvent::TeamCreated { tenant_id: cmd.tenant_id, team_id: team.id },
        );
        ports.outbox.publish(envelope);
        proof {
            assert(ports.outbox.events@.subrange(0, old_events.len() as int) =~= old_events);
        }
        Ok(team)
    }
}

} // verus!

//! Identity: inviting users into a tenant and activating them.
use vstd::prelude::*;

use crate::application::apis::CorePorts;
use crate::application::audit::logged;
use crate::application::authz::{empty_object, user_of};
use crate::application::store::{find_key, upsert, upserted, MemoryStore, Table};
use crate::domain::enums::UserStatus;
use crate::domain::error::{is_conflict, is_not_found, is_validation, CoreError};
use crate::domain::models::User;
use crate::events::{actor_for, actor_of, ActorRef, CoreEvent, EventEnvelope, ResourceRef};
use crate::external::{clock_now, json_quoted, json_string, new_uuid};
use crate::ids::{bump_version, bumped, representable, TenantId, UserId};
use crate::lists::{any_where, first_where, lemma_first_where_found, lemma_first_where_none};
use crate::text::{
    ascii_lower, chars_equal, chars_of, json_object, json_object_text, lower_chars, text, trim,
    trim_chars,
};

verus! {

broadcast use vstd::string::group_string_axioms;

/// Invite a user by email.
#[derive(Debug)]
pub struct InviteUserCommand {
    pub tenant_id: TenantId,
    pub email: String,
    pub display_name: String,
    pub invited_by: Option<UserId>,
}

/// The user belongs to the tenant and has this email, ignoring ASCII case.
pub open spec fn has_email(tenant_id: TenantId, email: Seq<char>) -> spec_fn(User) -> bool {
    |u: User| u.tenant_id == tenant_id && ascii_lower(u.email@) == ascii_lower(email)
}

/// Some user of the tenant already has this email (ignoring ASCII case).
pub open spec fn email_taken(store: MemoryStore, tenant_id: TenantId, email: Seq<char>) -> bool {
    any_where(store.users@, has_email(tenant_id, email))
}

/// The audit payload of an invitation.
pub open spec fn invite_payload(email: Seq<char>) -> Seq<char> {
    json_object_text(seq![("email"@, json_quoted(email))])
}

fn email_in_use(users: &Vec<User>, tenant_id: TenantId, email: &str) -> (r: bool)
    ensures
        r == any_where(users@, has_email(tenant_id, email@)),
{
    let ghost p = has_email(tenant_id, email@);
    let email_chars = chars_of(email);
    let needle = lower_chars(&email_chars);
    let mut i: usize = 0;
    while i < users.len()
        invariant
            i <= users.len(),
            p == has_email(tenant_id, email@),
            needle@ == ascii_lower(email@),
            forall|k: int| 0 <= k < i ==> !p(users@[k]),
        decreases users.len() - i,
    {
        if users[i].tenant_id == tenant_id {
            let own = chars_of(users[i].email.as_str());
            let lowered = lower_chars(&own);
            if chars_equal(&lowered, &needle) {
                proof {
                    lemma_first_where_found(users@, p, i as int);
                }
                return true;
            }
        }
        i = i + 1;
    }
    proof {
        lemma_first_where_none(users@, p);
    }
    false
}

/// User invitation and activation.
#[derive(Debug, Clone, Copy)]
pub struct IdentityService;

impl IdentityService {
    pub fn new() -> (r: Self) {
        IdentityService
    }

    /// Invite a user: refused for a blank email or one already used in the tenant (ignoring
    /// ASCII case); otherwise an invited user is stored, audited and announced.
    pub fn invite_user(&self, ports: &mut CorePorts, cmd: InviteUserCommand) -> (r: Result<
        User,
        CoreError,
    >)
        ensures
            trim(cmd.email@).len() == 0 ==> (r matches Err(e) && is_validation(
                e,
                "email must not be empty"@,
            ) && *final(ports) == *old(ports)),
            trim(cmd.email@).len() != 0 && email_taken(old(ports).store, cmd.tenant_id, cmd.email@)
                ==> (r matches Err(e) && is_conflict(e, "email already in use for tenant"@)
                && *final(ports) == *old(ports)),
            trim(cmd.email@).len() != 0 && !email_taken(old(ports).store, cmd.tenant_id, cmd.email@)
                ==> (r matches Ok(u) && {
                &&& u.tenant_id == cmd.tenant_id
                &&& u.email == cmd.email
                &&& u.display_name == cmd.display_name
                &&& u.status == UserStatus::Invited
                &&& u.person_id is None
                &&& representable(u.created_at as int) && u.updated_at == u.created_at
                &&& u.version == 1
                &&& final(ports).store.users@ == upserted(old(ports).store.users@, u)
                &&& logged(
                    old(ports).store.audit@,
                    final(ports).store.audit@,
                    cmd.tenant_id,
                    cmd.invited_by,
                    "user"@,
                    "core.user.invited"@,
                    "user"@,
                    Some(u.id),
                    invite_payload(cmd.email@),
                    "admin"@,
                    None,
                )
                &&& final(ports).evolved(*old(ports), set![Table::Users, Table::Audit], 1)
                &&& final(ports).event(*old(ports), 0).wraps(
                    cmd.tenant_id,
                    actor_of(cmd.invited_by),
                    "user"@,
                    u.id,
                    None,
                    None,
                    final(ports).event(*old(ports), 0).payload,
                )
                &&& final(ports).event(*old(ports), 0).payload matches CoreEvent::UserInvited {
                    tenant_id,
                    user_id,
                    email,
                } && tenant_id == cmd.tenant_id && user_id == u.id && email@ == cmd.email@
            }),
    {
        let email_chars = chars_of(cmd.email.as_str());
        let trimmed = trim_chars(&email_chars);
        if trimmed.len() == 0 {
            return Err(CoreError::validation("email must not be empty"));
        }
        if email_in_use(&ports.store.users, cmd.tenant_id, cmd.email.as_str()) {
            return Err(CoreError::conflict("email already in use for tenant"));
        }
        let ghost old_events = ports.outbox.events@;
        let now = clock_now();
        let user = User {
            id: new_uuid(),
            tenant_id: cmd.tenant_id,
            email: cmd.email.clone(),
            display_name: cmd.display_name,
            status: UserStatus::Invited,
            person_id: None,
            created_at: now,
            updated_at: now,
            version: 1,
        };
        upsert(&mut ports.store.users, user.clone());
        let keys: Vec<&str> = vec!["email"];
        let values: Vec<String> = vec![json_string(cmd.email.as_str())];
        let payload = json_object(&keys, &values);
        proof {
            let fields = Seq::new(keys.len() as nat, |i: int| (keys@[i]@, values@[i]@));
            assert(fields =~= seq![("email"@, json_quoted(cmd.email@))]);
        }
        ports.store.log_service_action(
            cmd.tenant_id,
            cmd.invited_by,
            "user",
            "core.user.invited",
            "user",
            Some(user.id),
            payload,
            "admin",
            None,
        );
        let envelope = EventEnvelope::new(
            cmd.tenant_id,
            actor_for(cmd.invited_by),
            ResourceRef { resource_type: text("user"), resource_id: user.id },
            None,
            None,
            CoreEvent::UserInvited { tenant_id: cmd.tenant_id, user_id: user.id, email: cmd.email },
        );
        ports.outbox.publish(envelope);
        proof {
            assert(ports.outbox.events@.subrange(0, old_events.len() as int) =~= old_events);
        }
        Ok(user)
    }

    /// Activate an invited user of the tenant.
    pub fn activate_user(&self, ports: &mut CorePorts, tenant_id: TenantId, user_id: UserId) -> (r:
        Result<User, CoreError>)
        ensures
            match user_of(old(ports).store, tenant_id, user_id) {
                None => r matches Err(e) && is_not_found(e, "user"@) && *final(ports) == *old(ports),
                Some(old_user) => if old_user.status != UserStatus::Invited {
                    r matches Err(e) && is_conflict(e, "only invited users can be activated"@)
                        && *final(ports) == *old(ports)
                } else {
                    r matches Ok(u) && {
                        &&& u == User {
                            status: UserStatus::Active,
                            updated_at: u.updated_at,
                            version: bumped(old_user.version),
                            ..old_user
                        }
                        &&& representable(u.updated_at as int)
                        &&& final(ports).store.users@ == upserted(old(ports).store.users@, u)
                        &&& logged(
                            old(ports).store.audit@,
                            final(ports).store.audit@,
                            tenant_id,
                            Some(user_id),
                            "user"@,
                            "core.user.activated"@,
                            "user"@,
                            Some(user_id),
                            empty_object(),
                            "admin"@,
                            None,
                        )
                        &&& final(ports).evolved(*old(ports), set![Table::Users, Table::Audit], 1)
                        &&& final(ports).event(*old(ports), 0).wraps(
                            tenant_id,
                            ActorRef::User { user_id },
                            "user"@,
                            user_id,
                            None,
                            None,
                            CoreEvent::UserActivated { tenant_id, user_id },
                        )
                    }
                },
            },
    {
        let i = match find_key(&ports.store.users, user_id) {
            Some(i) => {
                if ports.store.users[i].tenant_id != tenant_id {
                    return Err(CoreError::not_found("user"));
                }
                i
            },
            None => {
                return Err(CoreError::not_found("user"));
            },
        };
        if ports.store.users[i].status != UserStatus::Invited {
            return Err(CoreError::conflict("only invited users can be activated"));
        }
        proof {
            crate::lists::lemma_first_where_props(
                ports.store.users@,
                crate::application::store::key_is::<User>(user_id),
            );
        }
        let ghost old_events = ports.outbox.events@;
        let mut user = ports.store.users[i].clone();
        user.status = UserStatus::Active;
        user.updated_at = clock_now();
        user.version = bump_version(user.version);
        upsert(&mut ports.store.users, user.clone());
        ports.store.log_service_action(
            tenant_id,
            Some(user_id),
            "user",
            "core.user.activated",
            "user",
            Some(user_id),
            text("{}"),
            "admin",
            None,
        );
        let envelope = EventEnvelope::new(
            tenant_id,
            ActorRef::User { user_id },
            ResourceRef { resource_type: text("user"), resource_id: user_id },
            None,
            None,
            CoreEvent::UserActivated { tenant_id, user_id },
        );
        ports.outbox.publish(envelope);
        proof {
            assert(ports.outbox.events@.subrange(0, old_events.len() as int) =~= old_events);
        }
        Ok(user)
    }

    /// The user of the tenant with this id.
    pub fn get_user(&self, ports: &CorePorts, tenant_id: TenantId, user_id: UserId) -> (r: Result<
        User,
        CoreError,
    >)
        ensures
            match user_of(ports.store, tenant_id, user_id) {
                Some(u) => r == Ok::<User, CoreError>(u),
                None => r matches Err(e) && is_not_found(e, "user"@),
            },
    {
        match find_key(&ports.store.users, user_id) {
            Some(i) => {
                if ports.store.users[i].tenant_id == tenant_id {
                    Ok(ports.store.users[i].clone())
                } else {
                    Err(CoreError::not_found("user"))
                }
            },
            None => Err(CoreError::not_found("user")),
        }
    }
}

} // verus!

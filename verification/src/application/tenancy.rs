//! Tenant provisioning — tenant, owner company, admin user with the Tenant Admin grant, and a
//! thirty-day trial license enabling `core` — and company registration.
use vstd::prelude::*;

use crate::application::apis::CorePorts;
use crate::application::audit::{id_json, id_json_text, logged};
use crate::application::authz::{role_of, tenant_of};
use crate::application::store::{find_key, key_index, upsert, upserted, EntitlementSet, MemoryStore, Table};
use crate::domain::authz::AccessScope;
use crate::domain::enums::{
    CompanyStatus, CompanyType, GrantKind, LicenseStatus, TenantStatus, UserStatus,
};
use crate::domain::error::{is_forbidden, is_internal, is_not_found, is_validation, CoreError};
use crate::domain::models::{AccessGrant, Company, License, ModuleEntitlement, Tenant, User};
use crate::domain::permissions::{system_tenant_admin_role_id, SYSTEM_TENANT_ADMIN_ROLE_UUID};
use crate::events::{ActorRef, CoreEvent, EventEnvelope, ResourceRef};
use crate::external::{clock_now, new_uuid};
use crate::ids::{plus_seconds, representable, shifted, CompanyId, TenantId, Timestamp, UserId};
use crate::infrastructure::object_storage::out_of_range_message;
use crate::text::{chars_of, json_object, json_object_text, text, trim, trim_chars};

verus! {

broadcast use vstd::string::group_string_axioms;

/// Everything needed to bootstrap a tenant.
#[derive(Debug)]
pub struct ProvisionTenantCommand {
    pub slug: String,
    pub display_name: String,
    pub region_code: String,
    pub owner_company_name: String,
    pub owner_company_type: CompanyType,
    pub admin_email: String,
    pub admin_display_name: String,
    pub seats_limit: i32,
}

/// What provisioning created.
#[derive(Debug)]
pub struct ProvisionTenantResult {
    pub tenant: Tenant,
    pub owner_company: Company,
    pub admin_user: User,
    pub license: License,
}

/// Register a company within a tenant.
#[derive(Debug)]
pub struct RegisterCompanyCommand {
    pub tenant_id: TenantId,
    pub legal_name: String,
    pub display_name: String,
    pub company_type: CompanyType,
}

/// Thirty days, in seconds.
pub const TRIAL_SECS: i64 = 2_592_000;

/// The message when the store lacks the Tenant Admin system role.
pub open spec fn missing_admin_role_message() -> Seq<char> {
    "system Tenant Admin role missing — store was not seeded"@
}

/// `res` is what provisioning `cmd` at `now` creates.
pub open spec fn provisioned(res: ProvisionTenantResult, cmd: ProvisionTenantCommand, now: Timestamp) -> bool {
    let t = res.tenant;
    let c = res.owner_company;
    let u = res.admin_user;
    let l = res.license;
    &&& t.slug == cmd.slug
    &&& t.display_name == cmd.display_name
    &&& t.region_code == cmd.region_code
    &&& t.status == TenantStatus::Active
    &&& t.created_at == now && t.updated_at == now && t.version == 1
    &&& c.tenant_id == t.id
    &&& c.legal_name@ == cmd.owner_company_name@ && c.display_name@ == cmd.owner_company_name@
    &&& c.company_type == cmd.owner_company_type
    &&& c.status == CompanyStatus::Active
    &&& c.created_at == now && c.updated_at == now && c.version == 1
    &&& u.tenant_id == t.id
    &&& u.email == cmd.admin_email
    &&& u.display_name == cmd.admin_display_name
    &&& u.status == UserStatus::Active
    &&& u.person_id is None
    &&& u.created_at == now && u.updated_at == now && u.version == 1
    &&& l.tenant_id == t.id
    &&& l.status == LicenseStatus::Trial
    &&& l.plan_code@ == "trial"@
    &&& l.seats_limit == cmd.seats_limit
    &&& l.starts_at == now
    &&& shifted(now as int, TRIAL_SECS as int) == Some(l.ends_at.unwrap() as int) && l.ends_at is Some
    &&& l.created_at == now && l.updated_at == now && l.version == 1
}

/// `g` is the standing, tenant-wide Tenant Admin grant of `user`.
pub open spec fn admin_grant(g: AccessGrant, tenant_id: TenantId, user_id: UserId, now: Timestamp) -> bool {
    &&& g.tenant_id == tenant_id
    &&& g.user_id == user_id
    &&& g.role_id == SYSTEM_TENANT_ADMIN_ROLE_UUID
    &&& g.scope == AccessScope { scope_type: crate::domain::enums::GrantScopeType::Tenant, scope_id: None }
    &&& g.grant_kind == GrantKind::Standard
    &&& g.expires_at is None
    &&& g.revoked_at is None
    &&& g.created_at == now
    &&& g.created_by is None
}

/// `s` enables exactly the `core` module for `license_id`.
pub open spec fn core_entitlements(s: EntitlementSet, license_id: u128) -> bool {
    &&& s.license_id == license_id
    &&& s.entitlements@.len() == 1
    &&& s.entitlements@[0].license_id == license_id
    &&& s.entitlements@[0].module_key@ == "core"@
    &&& s.entitlements@[0].enabled
}

/// The audit payload of a provisioning.
pub open spec fn provision_payload(res: ProvisionTenantResult) -> Seq<char> {
    json_object_text(
        seq![
            ("admin_user_id"@, id_json_text(res.admin_user.id)),
            ("owner_company_id"@, id_json_text(res.owner_company.id)),
            ("tenant_id"@, id_json_text(res.tenant.id)),
        ],
    )
}

/// `new` is `old` after provisioning `cmd` at `now` created `res`: the tenant, owner company,
/// admin user, Tenant Admin grant, trial license and its `core` entitlement, one audit entry and
/// one `TenantProvisioned` event caused by it.
pub open spec fn provision_outcome(
    old: CorePorts,
    new: CorePorts,
    cmd: ProvisionTenantCommand,
    res: ProvisionTenantResult,
    now: Timestamp,
) -> bool {
    &&& res.tenant.created_at == now
    &&& representable(now as int)
    &&& provisioned(res, cmd, now)
    &&& new.store.tenants@ == upserted(old.store.tenants@, res.tenant)
    &&& new.store.companies@ == upserted(
        old.store.companies@,
        res.owner_company,
    )
    &&& new.store.users@ == upserted(old.store.users@, res.admin_user)
    &&& exists|g: AccessGrant|
        admin_grant(g, res.tenant.id, res.admin_user.id, now)
            && new.store.grants@ == #[trigger] upserted(old.store.grants@, g)
    &&& new.store.licenses@ == upserted(old.store.licenses@, res.license)
    &&& exists|s: EntitlementSet|
        core_entitlements(s, res.license.id) && new.store.entitlements@
            == #[trigger] upserted(old.store.entitlements@, s)
    &&& logged(
        old.store.audit@,
        new.store.audit@,
        res.tenant.id,
        Some(res.admin_user.id),
        "system"@,
        "core.tenant.provisioned"@,
        "tenant"@,
        Some(res.tenant.id),
        provision_payload(res),
        "admin"@,
        None,
    )
    &&& new.evolved(
        old,
        set![
            Table::Tenants,
            Table::Companies,
            Table::Users,
            Table::Grants,
            Table::Licenses,
            Table::Entitlements,
            Table::Audit
        ],
        1,
    )
    &&& new.event(old, 0).wraps(
        res.tenant.id,
        ActorRef::User { user_id: res.admin_user.id },
        "tenant"@,
        res.tenant.id,
        None,
        Some(new.store.audit@.last().id),
        CoreEvent::TenantProvisioned {
            tenant_id: res.tenant.id,
            owner_company_id: res.owner_company.id,
            admin_user_id: res.admin_user.id,
        },
    )

}

/// Tenant provisioning and company registration.
#[derive(Debug, Clone, Copy)]
pub struct TenancyService;

impl TenancyService {
    pub fn new() -> (r: Self) {
        TenancyService
    }

    /// Bootstrap a tenant at `now`: the tenant, its owner company, an active admin user holding
    /// the tenant-wide Tenant Admin grant, and a thirty-day trial license enabling `core`, then an
    /// audit entry and a `TenantProvisioned` event caused by it. The slug must not be blank, and
    /// the trial must end within the calendar's range.
    pub fn provision_tenant_at(
        &self,
        ports: &mut CorePorts,
        cmd: ProvisionTenantCommand,
        now: Timestamp,
    ) -> (r: Result<ProvisionTenantResult, CoreError>)
        requires
            representable(now as int),
        ensures
            trim(cmd.slug@).len() == 0 ==> (r matches Err(e) && is_validation(
                e,
                "slug must not be empty"@,
            ) && *final(ports) == *old(ports)),
            trim(cmd.slug@).len() != 0 && shifted(now as int, TRIAL_SECS as int) is None ==> (r matches Err(
                e,
            ) && is_internal(e, out_of_range_message()) && *final(ports) == *old(ports)),
            trim(cmd.slug@).len() != 0 && shifted(now as int, TRIAL_SECS as int) is Some && role_of(
                old(ports).store,
                SYSTEM_TENANT_ADMIN_ROLE_UUID,
            ) is None ==> (r matches Err(e) && is_internal(e, missing_admin_role_message())
                && final(ports).evolved(
                *old(ports),
                set![Table::Tenants, Table::Companies, Table::Users],
                0,
            )),
            trim(cmd.slug@).len() != 0 && shifted(now as int, TRIAL_SECS as int) is Some && role_of(
                old(ports).store,
                SYSTEM_TENANT_ADMIN_ROLE_UUID,
            ) is Some ==> r is Ok,
            r matches Ok(res) ==> provision_outcome(*old(ports), *final(ports), cmd, res, now),
    {
        let slug_chars = chars_of(cmd.slug.as_str());
        let trimmed = trim_chars(&slug_chars);
        if trimmed.len() == 0 {
            return Err(CoreError::validation("slug must not be empty"));
        }
        let ends_at = match plus_seconds(now, TRIAL_SECS) {
            Some(t) => t,
            None => {
                return Err(CoreError::internal("instant out of range"));
            },
        };
        let ghost old_events = ports.outbox.events@;
        let tenant = Tenant {
            id: new_uuid(),
            slug: cmd.slug,
            display_name: cmd.display_name,
            region_code: cmd.region_code,
            status: TenantStatus::Active,
            created_at: now,
            updated_at: now,
            version: 1,
        };
        upsert(&mut ports.store.tenants, tenant.clone());
        let owner_company = Company {
            id: new_uuid(),
            tenant_id: tenant.id,
            legal_name: cmd.owner_company_name.clone(),
            display_name: cmd.owner_company_name,
            company_type: cmd.owner_company_type,
            status: CompanyStatus::Active,
            created_at: now,
            updated_at: now,
            version: 1,
        };
        upsert(&mut ports.store.companies, owner_company.clone());
        let admin_user = User {
            id: new_uuid(),
            tenant_id: tenant.id,
            email: cmd.admin_email,
            display_name: cmd.admin_display_name,
            status: UserStatus::Active,
            person_id: None,
            created_at: now,
            updated_at: now,
            version: 1,
        };
        upsert(&mut ports.store.users, admin_user.clone());
        let role_id = match find_key(&ports.store.roles, system_tenant_admin_role_id()) {
            Some(i) => {
                proof {
                    crate::lists::lemma_first_where_props(
                        ports.store.roles@,
                        crate::application::store::key_is::<crate::domain::models::RoleDefinition>(
                            SYSTEM_TENANT_ADMIN_ROLE_UUID,
                        ),
                    );
                }
                ports.store.roles[i].id
            },
            None => {
                proof {
                    assert(ports.outbox.events@.subrange(0, old_events.len() as int) =~= old_events);
                }
                return Err(
                    CoreError::internal("system Tenant Admin role missing — store was not seeded"),
                );
            },
        };
        let grant = AccessGrant {
            id: new_uuid(),
            tenant_id: tenant.id,
            user_id: admin_user.id,
            role_id,
            scope: AccessScope::tenant(),
            grant_kind: GrantKind::Standard,
            expires_at: None,
            revoked_at: None,
            created_at: now,
            created_by: None,
        };
        let ghost g = grant;
        upsert(&mut ports.store.grants, grant);
        let license = License {
            id: new_uuid(),
            tenant_id: tenant.id,
            status: LicenseStatus::Trial,
            plan_code: text("trial"),
            seats_limit: cmd.seats_limit,
            starts_at: now,
            ends_at: Some(ends_at),
            created_at: now,
            updated_at: now,
            version: 1,
        };
        let mut entitlements: Vec<ModuleEntitlement> = Vec::new();
        entitlements.push(
            ModuleEntitlement { license_id: license.id, module_key: text("core"), enabled: true },
        );
        upsert(&mut ports.store.licenses, license.clone());
        let set = EntitlementSet { license_id: license.id, entitlements };
        let ghost s = set;
        upsert(&mut ports.store.entitlements, set);
        let keys: Vec<&str> = vec!["admin_user_id", "owner_company_id", "tenant_id"];
        let values: Vec<String> = vec![
            id_json(admin_user.id),
            id_json(owner_company.id),
            id_json(tenant.id),
        ];
        let payload = json_object(&keys, &values);
        proof {
            let fields = Seq::new(keys.len() as nat, |i: int| (keys@[i]@, values@[i]@));
            assert(fields =~= seq![
                ("admin_user_id"@, id_json_text(admin_user.id)),
                ("owner_company_id"@, id_json_text(owner_company.id)),
                ("tenant_id"@, id_json_text(tenant.id)),
            ]);
        }
        let audit_id = ports.store.log_service_action(
            tenant.id,
            Some(admin_user.id),
            "system",
            "core.tenant.provisioned",
            "tenant",
            Some(tenant.id),
            payload,
            "admin",
            None,
        );
        let envelope = EventEnvelope::new(
            tenant.id,
            ActorRef::User { user_id: admin_user.id },
            ResourceRef { resource_type: text("tenant"), resource_id: tenant.id },
            None,
            Some(audit_id),
            CoreEvent::TenantProvisioned {
                tenant_id: tenant.id,
                owner_company_id: owner_company.id,
                admin_user_id: admin_user.id,
            },
        );
        ports.outbox.publish(envelope);
        let res = ProvisionTenantResult { tenant, owner_company, admin_user, license };
        proof {
            assert(ports.outbox.events@.subrange(0, old_events.len() as int) =~= old_events);
            assert(admin_grant(g, res.tenant.id, res.admin_user.id, now));
            assert(core_entitlements(s, res.license.id));
        }
        Ok(res)
    }

    /// Bootstrap a tenant now (see [`Self::provision_tenant_at`]): it succeeds for a non-blank
    /// slug and a seeded Tenant Admin role unless the clock reads within thirty days of the end
    /// of the calendar's range.
    pub fn provision_tenant(&self, ports: &mut CorePorts, cmd: ProvisionTenantCommand) -> (r: Result<
        ProvisionTenantResult,
        CoreError,
    >)
        ensures
            trim(cmd.slug@).len() == 0 ==> (r matches Err(e) && is_validation(
                e,
                "slug must not be empty"@,
            ) && *final(ports) == *old(ports)),
            trim(cmd.slug@).len() != 0 && role_of(old(ports).store, SYSTEM_TENANT_ADMIN_ROLE_UUID)
                is None ==> (r matches Err(e) && ((is_internal(e, missing_admin_role_message())
                && final(ports).evolved(
                *old(ports),
                set![Table::Tenants, Table::Companies, Table::Users],
                0,
            )) || (is_internal(e, out_of_range_message()) && *final(ports) == *old(ports)))),
            r matches Ok(res) ==> representable(res.tenant.created_at as int) && provision_outcome(
                *old(ports),
                *final(ports),
                cmd,
                res,
                res.tenant.created_at,
            ),
            role_of(old(ports).store, SYSTEM_TENANT_ADMIN_ROLE_UUID) is Some && trim(cmd.slug@).len()
                != 0 ==> (r is Ok || (r matches Err(e) && is_internal(e, out_of_range_message())
                && *final(ports) == *old(ports))),
    {
        let now = clock_now();
        self.provision_tenant_at(ports, cmd, now)
    }

    /// The tenant with this id.
    pub fn get_tenant(&self, ports: &CorePorts, id: TenantId) -> (r: Result<Tenant, CoreError>)
        ensures
            match tenant_of(ports.store, id) {
                Some(t) => r == Ok::<Tenant, CoreError>(t),
                None => r matches Err(e) && is_not_found(e, "tenant"@),
            },
    {
        match find_key(&ports.store.tenants, id) {
            Some(i) => Ok(ports.store.tenants[i].clone()),
            None => Err(CoreError::not_found("tenant")),
        }
    }

    /// Register an active company in an active tenant.
    pub fn register_company(&self, ports: &mut CorePorts, cmd: RegisterCompanyCommand) -> (r: Result<
        Company,
        CoreError,
    >)
        ensures
            match tenant_of(old(ports).store, cmd.tenant_id) {
                None => r matches Err(e) && is_not_found(e, "tenant"@) && *final(ports)
                    == *old(ports),
                Some(t) => if t.status != TenantStatus::Active {
                    r matches Err(e) && is_forbidden(e, "tenant is not active"@) && *final(ports)
                        == *old(ports)
                } else {
                    r matches Ok(c) && {
                        &&& c.tenant_id == cmd.tenant_id
                        &&& c.legal_name == cmd.legal_name
                        &&& c.display_name == cmd.display_name
                        &&& c.company_type == cmd.company_type
                        &&& c.status == CompanyStatus::Active
                        &&& representable(c.created_at as int) && c.updated_at == c.created_at
                        &&& c.version == 1
                        &&& final(ports).store.companies@ == upserted(old(ports).store.companies@, c)
                        &&& final(ports).evolved(*old(ports), set![Table::Companies], 0)
                    }
                },
            },
    {
        let status = match find_key(&ports.store.tenants, cmd.tenant_id) {
            Some(i) => ports.store.tenants[i].status,
            None => {
                return Err(CoreError::not_found("tenant"));
            },
        };
        if status != TenantStatus::Active {
            return Err(CoreError::forbidden("tenant is not active"));
        }
        let now = clock_now();
        let company = Company {
            id: new_uuid(),
            tenant_id: cmd.tenant_id,
            legal_name: cmd.legal_name,
            display_name: cmd.display_name,
            company_type: cmd.company_type,
            status: CompanyStatus::Active,
            created_at: now,
            updated_at: now,
            version: 1,
        };
        upsert(&mut ports.store.companies, company.clone());
        proof {
            assert(ports.outbox.events@.subrange(0, ports.outbox.events@.len() as int)
                =~= ports.outbox.events@);
        }
        Ok(company)
    }

    /// The company with this id.
    pub fn get_company(&self, ports: &CorePorts, id: CompanyId) -> (r: Result<Company, CoreError>)
        ensures
            match key_index(ports.store.companies@, id) {
                Some(i) => r == Ok::<Company, CoreError>(ports.store.companies@[i]),
                None => r matches Err(e) && is_not_found(e, "company"@),
            },
    {
        match find_key(&ports.store.companies, id) {
            Some(i) => Ok(ports.store.companies[i].clone()),
            None => Err(CoreError::not_found("company")),
        }
    }
}

} // verus!

//! Stable snake_case text codes of the Core enumerations, as stored in the database, with their
//! parsers. Every code parses back to the value it came from.
use vstd::prelude::*;

use crate::domain::enums::{
    CompanyStatus, CompanyType, GrantKind, GrantScopeType, MembershipStatus, OverrideEffect,
    RoleKind, RoleStatus, TenantStatus, UserStatus,
};
use crate::domain::error::{is_internal, CoreError};
use crate::text::str_eq;

verus! {

broadcast use vstd::string::group_string_axioms;

/// The stored text code of a `TenantStatus`.
pub open spec fn tenant_status_text(v: TenantStatus) -> Seq<char> {
    match v {
        TenantStatus::Active => "active"@,
        TenantStatus::Suspended => "suspended"@,
        TenantStatus::Closed => "closed"@,
    }
}

/// The `TenantStatus` whose stored code is `s`, if any.
pub open spec fn tenant_status_from_text(s: Seq<char>) -> Option<TenantStatus> {
    if s == "active"@ {
        Some(TenantStatus::Active)
    } else if s == "suspended"@ {
        Some(TenantStatus::Suspended)
    } else if s == "closed"@ {
        Some(TenantStatus::Closed)
    } else {
        None
    }
}

pub fn tenant_status_str(v: TenantStatus) -> (r: &'static str)
    ensures
        r@ == tenant_status_text(v),
{
    match v {
        TenantStatus::Active => "active",
        TenantStatus::Suspended => "suspended",
        TenantStatus::Closed => "closed",
    }
}

pub fn parse_tenant_status(s: &str) -> (r: Result<TenantStatus, CoreError>)
    ensures
        match r {
            Ok(v) => tenant_status_from_text(s@) == Some(v),
            Err(e) => tenant_status_from_text(s@).is_none() && is_internal(e, "unknown tenant status: "@ + s@),
        },
{
    if str_eq(s, "active") {
        return Ok(TenantStatus::Active);
    }
    if str_eq(s, "suspended") {
        return Ok(TenantStatus::Suspended);
    }
    if str_eq(s, "closed") {
        return Ok(TenantStatus::Closed);
    }
    Err(CoreError::internal_with("unknown tenant status: ", s))
}

/// Every `TenantStatus` code parses back to the value it came from.
pub proof fn lemma_tenant_status_round_trip(v: TenantStatus)
    ensures
        tenant_status_from_text(tenant_status_text(v)) == Some(v),
{
    reveal_strlit("active");
    assert("active"@ =~= seq!['a', 'c', 't', 'i', 'v', 'e']);
    reveal_strlit("suspended");
    assert("suspended"@ =~= seq!['s', 'u', 's', 'p', 'e', 'n', 'd', 'e', 'd']);
    reveal_strlit("closed");
    assert("closed"@ =~= seq!['c', 'l', 'o', 's', 'e', 'd']);
    match v {
        TenantStatus::Active => {},
        TenantStatus::Suspended => {},
        TenantStatus::Closed => {},
    }
}

/// The stored text code of a `CompanyStatus`.
pub open spec fn company_status_text(v: CompanyStatus) -> Seq<char> {
    match v {
        CompanyStatus::Active => "active"@,
        CompanyStatus::Deactivated => "deactivated"@,
    }
}

/// The `CompanyStatus` whose stored code is `s`, if any.
pub open spec fn company_status_from_text(s: Seq<char>) -> Option<CompanyStatus> {
    if s == "active"@ {
        Some(CompanyStatus::Active)
    } else if s == "deactivated"@ {
        Some(CompanyStatus::Deactivated)
    } else {
        None
    }
}

pub fn company_status_str(v: CompanyStatus) -> (r: &'static str)
    ensures
        r@ == company_status_text(v),
{
    match v {
        CompanyStatus::Active => "active",
        CompanyStatus::Deactivated => "deactivated",
    }
}

pub fn parse_company_status(s: &str) -> (r: Result<CompanyStatus, CoreError>)
    ensures
        match r {
            Ok(v) => company_status_from_text(s@) == Some(v),
            Err(e) => company_status_from_text(s@).is_none() && is_internal(e, "unknown company status: "@ + s@),
        },
{
    if str_eq(s, "active") {
        return Ok(CompanyStatus::Active);
    }
    if str_eq(s, "deactivated") {
        return Ok(CompanyStatus::Deactivated);
    }
    Err(CoreError::internal_with("unknown company status: ", s))
}

/// Every `CompanyStatus` code parses back to the value it came from.
pub proof fn lemma_company_status_round_trip(v: CompanyStatus)
    ensures
        company_status_from_text(company_status_text(v)) == Some(v),
{
    reveal_strlit("active");
    assert("active"@ =~= seq!['a', 'c', 't', 'i', 'v', 'e']);
    reveal_strlit("deactivated");
    assert("deactivated"@ =~= seq!['d', 'e', 'a', 'c', 't', 'i', 'v', 'a', 't', 'e', 'd']);
    match v {
        CompanyStatus::Active => {},
        CompanyStatus::Deactivated => {},
    }
}

/// The stored text code of a `CompanyType`.
pub open spec fn company_type_text(v: CompanyType) -> Seq<char> {
    match v {
        CompanyType::Prime => "prime"@,
        CompanyType::Subcontractor => "subcontractor"@,
        CompanyType::Crane => "crane"@,
        CompanyType::Forming => "forming"@,
        CompanyType::Civil => "civil"@,
        CompanyType::Industrial => "industrial"@,
        CompanyType::Other => "other"@,
    }
}

/// The `CompanyType` whose stored code is `s`, if any.
pub open spec fn company_type_from_text(s: Seq<char>) -> Option<CompanyType> {
    if s == "prime"@ {
        Some(CompanyType::Prime)
    } else if s == "subcontractor"@ {
        Some(CompanyType::Subcontractor)
    } else if s == "crane"@ {
        Some(CompanyType::Crane)
    } else if s == "forming"@ {
        Some(CompanyType::Forming)
    } else if s == "civil"@ {
        Some(CompanyType::Civil)
    } else if s == "industrial"@ {
        Some(CompanyType::Industrial)
    } else if s == "other"@ {
        Some(CompanyType::Other)
    } else {
        None
    }
}

pub fn company_type_str(v: CompanyType) -> (r: &'static str)
    ensures
        r@ == company_type_text(v),
{
    match v {
        CompanyType::Prime => "prime",
        CompanyType::Subcontractor => "subcontractor",
        CompanyType::Crane => "crane",
        CompanyType::Forming => "forming",
        CompanyType::Civil => "civil",
        CompanyType::Industrial => "industrial",
        CompanyType::Other => "other",
    }
}

pub fn parse_company_type(s: &str) -> (r: Result<CompanyType, CoreError>)
    ensures
        match r {
            Ok(v) => company_type_from_text(s@) == Some(v),
            Err(e) => company_type_from_text(s@).is_none() && is_internal(e, "unknown company type: "@ + s@),
        },
{
    if str_eq(s, "prime") {
        return Ok(CompanyType::Prime);
    }
    if str_eq(s, "subcontractor") {
        return Ok(CompanyType::Subcontractor);
    }
    if str_eq(s, "crane") {
        return Ok(CompanyType::Crane);
    }
    if str_eq(s, "forming") {
        return Ok(CompanyType::Forming);
    }
    if str_eq(s, "civil") {
        return Ok(CompanyType::Civil);
    }
    if str_eq(s, "industrial") {
        return Ok(CompanyType::Industrial);
    }
    if str_eq(s, "other") {
        return Ok(CompanyType::Other);
    }
    Err(CoreError::internal_with("unknown company type: ", s))
}

/// Every `CompanyType` code parses back to the value it came from.
pub proof fn lemma_company_type_round_trip(v: CompanyType)
    ensures
        company_type_from_text(company_type_text(v)) == Some(v),
{
    reveal_strlit("prime");
    assert("prime"@ =~= seq!['p', 'r', 'i', 'm', 'e']);
    reveal_strlit("subcontractor");
    assert("subcontractor"@ =~= seq!['s', 'u', 'b', 'c', 'o', 'n', 't', 'r', 'a', 'c', 't', 'o', 'r']);
    reveal_strlit("crane");
    assert("crane"@ =~= seq!['c', 'r', 'a', 'n', 'e']);
    reveal_strlit("forming");
    assert("forming"@ =~= seq!['f', 'o', 'r', 'm', 'i', 'n', 'g']);
    reveal_strlit("civil");
    assert("civil"@ =~= seq!['c', 'i', 'v', 'i', 'l']);
    reveal_strlit("industrial");
    assert("industrial"@ =~= seq!['i', 'n', 'd', 'u', 's', 't', 'r', 'i', 'a', 'l']);
    reveal_strlit("other");
    assert("other"@ =~= seq!['o', 't', 'h', 'e', 'r']);
    match v {
        CompanyType::Prime => {},
        CompanyType::Subcontractor => {},
        CompanyType::Crane => {},
        CompanyType::Forming => {},
        CompanyType::Civil => {},
        CompanyType::Industrial => {},
        CompanyType::Other => {},
    }
}

/// The stored text code of a `UserStatus`.
pub open spec fn user_status_text(v: UserStatus) -> Seq<char> {
    match v {
        UserStatus::Invited => "invited"@,
        UserStatus::Active => "active"@,
        UserStatus::Locked => "locked"@,
        UserStatus::Deactivated => "deactivated"@,
    }
}

/// The `UserStatus` whose stored code is `s`, if any.
pub open spec fn user_status_from_text(s: Seq<char>) -> Option<UserStatus> {
    if s == "invited"@ {
        Some(UserStatus::Invited)
    } else if s == "active"@ {
        Some(UserStatus::Active)
    } else if s == "locked"@ {
        Some(UserStatus::Locked)
    } else if s == "deactivated"@ {
        Some(UserStatus::Deactivated)
    } else {
        None
    }
}

pub fn user_status_str(v: UserStatus) -> (r: &'static str)
    ensures
        r@ == user_status_text(v),
{
    match v {
        UserStatus::Invited => "invited",
        UserStatus::Active => "active",
        UserStatus::Locked => "locked",
        UserStatus::Deactivated => "deactivated",
    }
}

pub fn parse_user_status(s: &str) -> (r: Result<UserStatus, CoreError>)
    ensures
        match r {
            Ok(v) => user_status_from_text(s@) == Some(v),
            Err(e) => user_status_from_text(s@).is_none() && is_internal(e, "unknown user status: "@ + s@),
        },
{
    if str_eq(s, "invited") {
        return Ok(UserStatus::Invited);
    }
    if str_eq(s, "active") {
        return Ok(UserStatus::Active);
    }
    if str_eq(s, "locked") {
        return Ok(UserStatus::Locked);
    }
    if str_eq(s, "deactivated") {
        return Ok(UserStatus::Deactivated);
    }
    Err(CoreError::internal_with("unknown user status: ", s))
}

/// Every `UserStatus` code parses back to the value it came from.
pub proof fn lemma_user_status_round_trip(v: UserStatus)
    ensures
        user_status_from_text(user_status_text(v)) == Some(v),
{
    reveal_strlit("invited");
    assert("invited"@ =~= seq!['i', 'n', 'v', 'i', 't', 'e', 'd']);
    reveal_strlit("active");
    assert("active"@ =~= seq!['a', 'c', 't', 'i', 'v', 'e']);
    reveal_strlit("locked");
    assert("locked"@ =~= seq!['l', 'o', 'c', 'k', 'e', 'd']);
    reveal_strlit("deactivated");
    assert("deactivated"@ =~= seq!['d', 'e', 'a', 'c', 't', 'i', 'v', 'a', 't', 'e', 'd']);
    match v {
        UserStatus::Invited => {},
        UserStatus::Active => {},
        UserStatus::Locked => {},
        UserStatus::Deactivated => {},
    }
}

/// The stored text code of a `RoleKind`.
pub open spec fn role_kind_text(v: RoleKind) -> Seq<char> {
    match v {
        RoleKind::System => "system"@,
        RoleKind::TenantCustom => "tenant_custom"@,
        RoleKind::Membership => "membership"@,
        RoleKind::Company => "company"@,
        RoleKind::Project => "project"@,
        RoleKind::Temporary => "temporary"@,
    }
}

/// The `RoleKind` whose stored code is `s`, if any.
pub open spec fn role_kind_from_text(s: Seq<char>) -> Option<RoleKind> {
    if s == "system"@ {
        Some(RoleKind::System)
    } else if s == "tenant_custom"@ {
        Some(RoleKind::TenantCustom)
    } else if s == "membership"@ {
        Some(RoleKind::Membership)
    } else if s == "company"@ {
        Some(RoleKind::Company)
    } else if s == "project"@ {
        Some(RoleKind::Project)
    } else if s == "temporary"@ {
        Some(RoleKind::Temporary)
    } else {
        None
    }
}

pub fn role_kind_str(v: RoleKind) -> (r: &'static str)
    ensures
        r@ == role_kind_text(v),
{
    match v {
        RoleKind::System => "system",
        RoleKind::TenantCustom => "tenant_custom",
        RoleKind::Membership => "membership",
        RoleKind::Company => "company",
        RoleKind::Project => "project",
        RoleKind::Temporary => "temporary",
    }
}

pub fn parse_role_kind(s: &str) -> (r: Result<RoleKind, CoreError>)
    ensures
        match r {
            Ok(v) => role_kind_from_text(s@) == Some(v),
            Err(e) => role_kind_from_text(s@).is_none() && is_internal(e, "unknown role kind: "@ + s@),
        },
{
    if str_eq(s, "system") {
        return Ok(RoleKind::System);
    }
    if str_eq(s, "tenant_custom") {
        return Ok(RoleKind::TenantCustom);
    }
    if str_eq(s, "membership") {
        return Ok(RoleKind::Membership);
    }
    if str_eq(s, "company") {
        return Ok(RoleKind::Company);
    }
    if str_eq(s, "project") {
        return Ok(RoleKind::Project);
    }
    if str_eq(s, "temporary") {
        return Ok(RoleKind::Temporary);
    }
    Err(CoreError::internal_with("unknown role kind: ", s))
}

/// Every `RoleKind` code parses back to the value it came from.
pub proof fn lemma_role_kind_round_trip(v: RoleKind)
    ensures
        role_kind_from_text(role_kind_text(v)) == Some(v),
{
    reveal_strlit("system");
    assert("system"@ =~= seq!['s', 'y', 's', 't', 'e', 'm']);
    reveal_strlit("tenant_custom");
    assert("tenant_custom"@ =~= seq!['t', 'e', 'n', 'a', 'n', 't', '_', 'c', 'u', 's', 't', 'o', 'm']);
    reveal_strlit("membership");
    assert("membership"@ =~= seq!['m', 'e', 'm', 'b', 'e', 'r', 's', 'h', 'i', 'p']);
    reveal_strlit("company");
    assert("company"@ =~= seq!['c', 'o', 'm', 'p', 'a', 'n', 'y']);
    reveal_strlit("project");
    assert("project"@ =~= seq!['p', 'r', 'o', 'j', 'e', 'c', 't']);
    reveal_strlit("temporary");
    assert("temporary"@ =~= seq!['t', 'e', 'm', 'p', 'o', 'r', 'a', 'r', 'y']);
    match v {
        RoleKind::System => {},
        RoleKind::TenantCustom => {},
        RoleKind::Membership => {},
        RoleKind::Company => {},
        RoleKind::Project => {},
        RoleKind::Temporary => {},
    }
}

/// The stored text code of a `RoleStatus`.
pub open spec fn role_status_text(v: RoleStatus) -> Seq<char> {
    match v {
        RoleStatus::Active => "active"@,
        RoleStatus::Retired => "retired"@,
    }
}

/// The `RoleStatus` whose stored code is `s`, if any.
pub open spec fn role_status_from_text(s: Seq<char>) -> Option<RoleStatus> {
    if s == "active"@ {
        Some(RoleStatus::Active)
    } else if s == "retired"@ {
        Some(RoleStatus::Retired)
    } else {
        None
    }
}

pub fn parse_role_status(s: &str) -> (r: Result<RoleStatus, CoreError>)
    ensures
        match r {
            Ok(v) => role_status_from_text(s@) == Some(v),
            Err(e) => role_status_from_text(s@).is_none() && is_internal(e, "unknown role status: "@ + s@),
        },
{
    if str_eq(s, "active") {
        return Ok(RoleStatus::Active);
    }
    if str_eq(s, "retired") {
        return Ok(RoleStatus::Retired);
    }
    Err(CoreError::internal_with("unknown role status: ", s))
}

/// Every `RoleStatus` code parses back to the value it came from.
pub proof fn lemma_role_status_round_trip(v: RoleStatus)
    ensures
        role_status_from_text(role_status_text(v)) == Some(v),
{
    reveal_strlit("active");
    assert("active"@ =~= seq!['a', 'c', 't', 'i', 'v', 'e']);
    reveal_strlit("retired");
    assert("retired"@ =~= seq!['r', 'e', 't', 'i', 'r', 'e', 'd']);
    match v {
        RoleStatus::Active => {},
        RoleStatus::Retired => {},
    }
}

/// The stored text code of a `GrantScopeType`.
pub open spec fn scope_type_text(v: GrantScopeType) -> Seq<char> {
    match v {
        GrantScopeType::Tenant => "tenant"@,
        GrantScopeType::OrgUnit => "org_unit"@,
        GrantScopeType::Company => "company"@,
        GrantScopeType::Project => "project"@,
        GrantScopeType::Team => "team"@,
        GrantScopeType::SelfScope => "self"@,
    }
}

/// The `GrantScopeType` whose stored code is `s`, if any.
pub open spec fn scope_type_from_text(s: Seq<char>) -> Option<GrantScopeType> {
    if s == "tenant"@ {
        Some(GrantScopeType::Tenant)
    } else if s == "org_unit"@ {
        Some(GrantScopeType::OrgUnit)
    } else if s == "company"@ {
        Some(GrantScopeType::Company)
    } else if s == "project"@ {
        Some(GrantScopeType::Project)
    } else if s == "team"@ {
        Some(GrantScopeType::Team)
    } else if s == "self"@ {
        Some(GrantScopeType::SelfScope)
    } else {
        None
    }
}

pub fn scope_type_str(v: GrantScopeType) -> (r: &'static str)
    ensures
        r@ == scope_type_text(v),
{
    match v {
        GrantScopeType::Tenant => "tenant",
        GrantScopeType::OrgUnit => "org_unit",
        GrantScopeType::Company => "company",
        GrantScopeType::Project => "project",
        GrantScopeType::Team => "team",
        GrantScopeType::SelfScope => "self",
    }
}

pub fn parse_scope_type(s: &str) -> (r: Result<GrantScopeType, CoreError>)
    ensures
        match r {
            Ok(v) => scope_type_from_text(s@) == Some(v),
            Err(e) => scope_type_from_text(s@).is_none() && is_internal(e, "unknown scope type: "@ + s@),
        },
{
    if str_eq(s, "tenant") {
        return Ok(GrantScopeType::Tenant);
    }
    if str_eq(s, "org_unit") {
        return Ok(GrantScopeType::OrgUnit);
    }
    if str_eq(s, "company") {
        return Ok(GrantScopeType::Company);
    }
    if str_eq(s, "project") {
        return Ok(GrantScopeType::Project);
    }
    if str_eq(s, "team") {
        return Ok(GrantScopeType::Team);
    }
    if str_eq(s, "self") {
        return Ok(GrantScopeType::SelfScope);
    }
    Err(CoreError::internal_with("unknown scope type: ", s))
}

/// Every `GrantScopeType` code parses back to the value it came from.
pub proof fn lemma_scope_type_round_trip(v: GrantScopeType)
    ensures
        scope_type_from_text(scope_type_text(v)) == Some(v),
{
    reveal_strlit("tenant");
    assert("tenant"@ =~= seq!['t', 'e', 'n', 'a', 'n', 't']);
    reveal_strlit("org_unit");
    assert("org_unit"@ =~= seq!['o', 'r', 'g', '_', 'u', 'n', 'i', 't']);
    reveal_strlit("company");
    assert("company"@ =~= seq!['c', 'o', 'm', 'p', 'a', 'n', 'y']);
    reveal_strlit("project");
    assert("project"@ =~= seq!['p', 'r', 'o', 'j', 'e', 'c', 't']);
    reveal_strlit("team");
    assert("team"@ =~= seq!['t', 'e', 'a', 'm']);
    reveal_strlit("self");
    assert("self"@ =~= seq!['s', 'e', 'l', 'f']);
    match v {
        GrantScopeType::Tenant => {},
        GrantScopeType::OrgUnit => {},
        GrantScopeType::Company => {},
        GrantScopeType::Project => {},
        GrantScopeType::Team => {},
        GrantScopeType::SelfScope => {},
    }
}

/// The stored text code of a `OverrideEffect`.
pub open spec fn override_effect_text(v: OverrideEffect) -> Seq<char> {
    match v {
        OverrideEffect::Allow => "allow"@,
        OverrideEffect::Deny => "deny"@,
    }
}

/// The `OverrideEffect` whose stored code is `s`, if any.
pub open spec fn override_effect_from_text(s: Seq<char>) -> Option<OverrideEffect> {
    if s == "allow"@ {
        Some(OverrideEffect::Allow)
    } else if s == "deny"@ {
        Some(OverrideEffect::Deny)
    } else {
        None
    }
}

pub fn override_effect_str(v: OverrideEffect) -> (r: &'static str)
    ensures
        r@ == override_effect_text(v),
{
    match v {
        OverrideEffect::Allow => "allow",
        OverrideEffect::Deny => "deny",
    }
}

pub fn parse_override_effect(s: &str) -> (r: Result<OverrideEffect, CoreError>)
    ensures
        match r {
            Ok(v) => override_effect_from_text(s@) == Some(v),
            Err(e) => override_effect_from_text(s@).is_none() && is_internal(e, "unknown override effect: "@ + s@),
        },
{
    if str_eq(s, "allow") {
        return Ok(OverrideEffect::Allow);
    }
    if str_eq(s, "deny") {
        return Ok(OverrideEffect::Deny);
    }
    Err(CoreError::internal_with("unknown override effect: ", s))
}

/// Every `OverrideEffect` code parses back to the value it came from.
pub proof fn lemma_override_effect_round_trip(v: OverrideEffect)
    ensures
        override_effect_from_text(override_effect_text(v)) == Some(v),
{
    reveal_strlit("allow");
    assert("allow"@ =~= seq!['a', 'l', 'l', 'o', 'w']);
    reveal_strlit("deny");
    assert("deny"@ =~= seq!['d', 'e', 'n', 'y']);
    match v {
        OverrideEffect::Allow => {},
        OverrideEffect::Deny => {},
    }
}

/// The stored text code of a `GrantKind`.
pub open spec fn grant_kind_text(v: GrantKind) -> Seq<char> {
    match v {
        GrantKind::Standard => "standard"@,
        GrantKind::Delegation => "delegation"@,
        GrantKind::Temporary => "temporary"@,
        GrantKind::BreakGlass => "break_glass"@,
    }
}

/// The `GrantKind` whose stored code is `s`, if any.
pub open spec fn grant_kind_from_text(s: Seq<char>) -> Option<GrantKind> {
    if s == "standard"@ {
        Some(GrantKind::Standard)
    } else if s == "delegation"@ {
        Some(GrantKind::Delegation)
    } else if s == "temporary"@ {
        Some(GrantKind::Temporary)
    } else if s == "break_glass"@ {
        Some(GrantKind::BreakGlass)
    } else {
        None
    }
}

pub fn grant_kind_str(v: GrantKind) -> (r: &'static str)
    ensures
        r@ == grant_kind_text(v),
{
    match v {
        GrantKind::Standard => "standard",
        GrantKind::Delegation => "delegation",
        GrantKind::Temporary => "temporary",
        GrantKind::BreakGlass => "break_glass",
    }
}

pub fn parse_grant_kind(s: &str) -> (r: Result<GrantKind, CoreError>)
    ensures
        match r {
            Ok(v) => grant_kind_from_text(s@) == Some(v),
            Err(e) => grant_kind_from_text(s@).is_none() && is_internal(e, "unknown grant kind: "@ + s@),
        },
{
    if str_eq(s, "standard") {
        return Ok(GrantKind::Standard);
    }
    if str_eq(s, "delegation") {
        return Ok(GrantKind::Delegation);
    }
    if str_eq(s, "temporary") {
        return Ok(GrantKind::Temporary);
    }
    if str_eq(s, "break_glass") {
        return Ok(GrantKind::BreakGlass);
    }
    Err(CoreError::internal_with("unknown grant kind: ", s))
}

/// Every `GrantKind` code parses back to the value it came from.
pub proof fn lemma_grant_kind_round_trip(v: GrantKind)
    ensures
        grant_kind_from_text(grant_kind_text(v)) == Some(v),
{
    reveal_strlit("standard");
    assert("standard"@ =~= seq!['s', 't', 'a', 'n', 'd', 'a', 'r', 'd']);
    reveal_strlit("delegation");
    assert("delegation"@ =~= seq!['d', 'e', 'l', 'e', 'g', 'a', 't', 'i', 'o', 'n']);
    reveal_strlit("temporary");
    assert("temporary"@ =~= seq!['t', 'e', 'm', 'p', 'o', 'r', 'a', 'r', 'y']);
    reveal_strlit("break_glass");
    assert("break_glass"@ =~= seq!['b', 'r', 'e', 'a', 'k', '_', 'g', 'l', 'a', 's', 's']);
    match v {
        GrantKind::Standard => {},
        GrantKind::Delegation => {},
        GrantKind::Temporary => {},
        GrantKind::BreakGlass => {},
    }
}

/// The stored text code of a `MembershipStatus`.
pub open spec fn membership_status_text(v: MembershipStatus) -> Seq<char> {
    match v {
        MembershipStatus::Invited => "invited"@,
        MembershipStatus::Active => "active"@,
        MembershipStatus::Suspended => "suspended"@,
        MembershipStatus::Removed => "removed"@,
    }
}

/// The `MembershipStatus` whose stored code is `s`, if any.
pub open spec fn membership_status_from_text(s: Seq<char>) -> Option<MembershipStatus> {
    if s == "invited"@ {
        Some(MembershipStatus::Invited)
    } else if s == "active"@ {
        Some(MembershipStatus::Active)
    } else if s == "suspended"@ {
        Some(MembershipStatus::Suspended)
    } else if s == "removed"@ {
        Some(MembershipStatus::Removed)
    } else {
        None
    }
}

pub fn membership_status_str(v: MembershipStatus) -> (r: &'static str)
    ensures
        r@ == membership_status_text(v),
{
    match v {
        MembershipStatus::Invited => "invited",
        MembershipStatus::Active => "active",
        MembershipStatus::Suspended => "suspended",
        MembershipStatus::Removed => "removed",
    }
}

pub fn parse_membership_status(s: &str) -> (r: Result<MembershipStatus, CoreError>)
    ensures
        match r {
            Ok(v) => membership_status_from_text(s@) == Some(v),
            Err(e) => membership_status_from_text(s@).is_none() && is_internal(e, "unknown membership status: "@ + s@),
        },
{
    if str_eq(s, "invited") {
        return Ok(MembershipStatus::Invited);
    }
    if str_eq(s, "active") {
        return Ok(MembershipStatus::Active);
    }
    if str_eq(s, "suspended") {
        return Ok(MembershipStatus::Suspended);
    }
    if str_eq(s, "removed") {
        return Ok(MembershipStatus::Removed);
    }
    Err(CoreError::internal_with("unknown membership status: ", s))
}

/// Every `MembershipStatus` code parses back to the value it came from.
pub proof fn lemma_membership_status_round_trip(v: MembershipStatus)
    ensures
        membership_status_from_text(membership_status_text(v)) == Some(v),
{
    reveal_strlit("invited");
    assert("invited"@ =~= seq!['i', 'n', 'v', 'i', 't', 'e', 'd']);
    reveal_strlit("active");
    assert("active"@ =~= seq!['a', 'c', 't', 'i', 'v', 'e']);
    reveal_strlit("suspended");
    assert("suspended"@ =~= seq!['s', 'u', 's', 'p', 'e', 'n', 'd', 'e', 'd']);
    reveal_strlit("removed");
    assert("removed"@ =~= seq!['r', 'e', 'm', 'o', 'v', 'e', 'd']);
    match v {
        MembershipStatus::Invited => {},
        MembershipStatus::Active => {},
        MembershipStatus::Suspended => {},
        MembershipStatus::Removed => {},
    }
}

} // verus!

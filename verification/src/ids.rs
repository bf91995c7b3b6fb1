//! Identifier and time representations shared by every Core record.
use vstd::prelude::*;

verus! {

/// A UUID held as its 128-bit value (big-endian reading of the 16 bytes).
pub type Uuid = u128;

pub type TenantId = u128;
pub type CompanyId = u128;
pub type OrgUnitId = u128;
pub type UserId = u128;
pub type PersonId = u128;
pub type SessionId = u128;
pub type RoleId = u128;
pub type GrantId = u128;
pub type ProjectId = u128;
pub type ProjectMembershipId = u128;
pub type TeamId = u128;
pub type FileObjectId = u128;
pub type AuditEntryId = u128;
pub type LicenseId = u128;
pub type PermissionOverrideId = u128;
pub type CorrelationId = u128;
pub type CausationId = u128;
pub type PrincipalId = u128;

/// An instant, as milliseconds since 1970-01-01T00:00:00Z (UTC).
pub type Timestamp = i64;

pub const MILLIS_PER_SECOND: i64 = 1000;
pub const MILLIS_PER_HOUR: i64 = 3_600_000;
pub const MILLIS_PER_DAY: i64 = 86_400_000;

/// Earliest instant a UTC date-time can hold (-262143-01-01T00:00:00Z).
pub const MIN_TIMESTAMP: i64 = -8_334_601_315_200_000;
/// Latest instant a UTC date-time can hold (+262142-12-31T23:59:59.999Z).
pub const MAX_TIMESTAMP: i64 = 8_210_266_876_799_999;

/// Whether `t` is an instant a UTC date-time can hold.
pub open spec fn representable(t: int) -> bool {
    MIN_TIMESTAMP <= t <= MAX_TIMESTAMP
}

/// `t` moved by `secs` whole seconds, when the result is still representable (the
/// `DateTime + Duration` of the calendar type, which cannot leave its range).
pub open spec fn shifted(t: int, secs: int) -> Option<int> {
    if representable(t + secs * 1000) {
        Some(t + secs * 1000)
    } else {
        None
    }
}

/// `t` plus `secs` seconds, or `None` when that instant is not representable.
pub fn plus_seconds(t: Timestamp, secs: i64) -> (r: Option<Timestamp>)
    requires
        representable(t as int),
    ensures
        r == match shifted(t as int, secs as int) {
            Some(v) => Some(v as Timestamp),
            None => None::<Timestamp>,
        },
{
    let wide: i128 = (t as i128) + (secs as i128) * 1000;
    if MIN_TIMESTAMP as i128 <= wide && wide <= MAX_TIMESTAMP as i128 {
        Some(wide as i64)
    } else {
        None
    }
}

/// A record version after one more update (wrapping at the top of the range, as release
/// builds do).
pub open spec fn bumped(v: i64) -> i64 {
    if v < i64::MAX {
        (v + 1) as i64
    } else {
        i64::MIN
    }
}

/// The next version of a record (see [`bumped`]).
pub fn bump_version(v: i64) -> (r: i64)
    ensures
        r == bumped(v),
{
    if v < i64::MAX {
        v + 1
    } else {
        i64::MIN
    }
}

} // verus!

//! Enterprise RBAC engines: the permission engine, the policy chain and the role rules.

pub mod permission_engine;
pub mod policies;
pub mod role_engine;

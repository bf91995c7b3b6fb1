//! Application layer: the in-memory store and the Core services over it.

pub mod store;
pub mod audit;
pub mod seed;

pub mod apis;
pub mod license;
pub mod flags;
pub mod settings;
pub mod authz;
pub mod tenancy;
pub mod identity;
pub mod membership;
pub mod files;

//! Core domain layer — pure types and rules, no I/O.

pub mod enums;
pub mod error;
pub mod codes;
pub mod authz;
pub mod audit;
pub mod files;
pub mod models;
pub mod permissions;
pub mod rbac;

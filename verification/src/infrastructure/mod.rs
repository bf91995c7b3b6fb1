//! Adapters behind the application's ports: object storage and virus scanning.

pub mod object_storage;
pub mod virus_scan;

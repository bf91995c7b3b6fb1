//! Proven Core — tenancy, identity, authorization, membership, files, audit, settings, flags and
//! licensing for the Proven construction-compliance platform, as a verified library.

pub mod ids;
pub mod external;
pub mod text;
pub mod lists;
pub mod page;
pub mod domain;
pub mod events;
pub mod application;
pub mod infrastructure;
pub mod laws;
pub mod api;

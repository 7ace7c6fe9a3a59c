//! Configuration for a desktop application shell backed by a local SQLite
//! database: the schema-migration descriptors it registers and the logical
//! database identifier they are applied to.

pub mod config;
pub mod migration;

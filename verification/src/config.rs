//! The agent's on-disk configuration.
pub mod agent;
pub mod bridge;
pub mod bridge_laws;
pub mod copy_laws;
pub mod described;
pub mod descriptions;
pub mod echo;
pub mod field_laws;
pub mod health;
pub mod hidden;
pub mod keeping_laws;
pub mod key_names;
pub mod keys;
pub mod listed;
pub mod naming_laws;
pub mod org;
pub mod org_laws;
pub mod org_table;
pub mod port_laws;
pub mod range_laws;
pub mod spares;
pub mod store;
pub mod surface;
pub mod surface_laws;
pub mod value_laws;

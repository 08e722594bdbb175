//! Verified core of the Roomler collaboration platform: the agent's
//! configuration, enrollment and config surface, the data model's rules, and
//! the decisions that the HTTP and WebSocket layers make.
pub mod text;
pub mod text_laws;
pub mod num;
pub mod ip;
pub mod config;
pub mod json;
pub mod enrolling;
pub mod enrollment;
pub mod enrollment_laws;
pub mod oid;
pub mod chance;
pub mod models;
pub mod indexes;
pub mod settings;
pub mod server_laws;
pub mod startup;
pub mod api;

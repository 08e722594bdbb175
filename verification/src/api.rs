//! What the HTTP and WebSocket layers decide.
pub mod error;
pub mod scope;
pub mod wire;
pub mod message;
pub mod posting;
pub mod lookup_laws;
pub mod jobs;
pub mod job_laws;
pub mod address_laws;
pub mod room;
pub mod route_laws;
pub mod router;
pub mod channel;
pub mod conference;
pub mod recording;
pub mod transcription;
pub mod tenant;
pub mod user;
pub mod background_task;
pub mod giphy;
pub mod reaction;
pub mod file;
pub mod auth;
pub mod extract;
pub mod detail_laws;
pub mod stripe;
pub mod agent_release;
pub mod remote_control;
pub mod ws_storage;
pub mod ws_handler;
pub mod ws_laws;

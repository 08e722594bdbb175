//! The documents that the database holds.
pub mod audit_log;
pub mod background_task;
pub mod channel;
pub mod channel_member;
pub mod conference;
pub mod conference_participant;
pub mod custom_emoji;
pub mod file;
pub mod invite;
pub mod message;
pub mod model_laws;
pub mod notification;
pub mod permissions;
pub mod reaction;
pub mod recording;
pub mod role;
pub mod tenant;
pub mod tenant_member;
pub mod transcription;
pub mod user;

//! Moderation logging: filtering of message deletion and edit events
//! against a guild binding and a channel blacklist, and rendering of the
//! accepted events into audit records.

pub mod blacklist;
pub mod config;
pub mod event;
pub mod filter;
pub mod guild;
pub mod record;
pub mod text;

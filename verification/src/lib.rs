//! A minimal pastebin library: random short identifiers, a durable paste
//! store backed by SQLite, and content-negotiated rendering of stored
//! pastes as plain text or syntax-highlighted HTML.

pub mod handlers;
pub mod id;
pub mod render;
pub mod store;

pub use id::gen_id;

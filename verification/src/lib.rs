//! A real-time subscription client for a managed GraphQL publish/subscribe
//! endpoint: connection negotiation, the frame codec, the protocol state
//! machine, keepalive supervision and the session that ties them together.
//!
//! The library decides; the embedding program performs the transport work and
//! reports what happened.

pub mod auth;
pub mod codec;
pub mod config;
pub mod forms;
pub mod chat;
pub mod graphql;
mod ids;
pub mod json;
pub mod keepalive;
pub mod models;
pub mod negotiator;
pub mod protocol;
pub mod session;
pub mod state;
pub mod text;
pub mod trace;

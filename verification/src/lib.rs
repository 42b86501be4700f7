//! Whitelist request lifecycle library for a small game-server community bot.
//!
//! Members ask to be whitelisted on one of several managed game servers and a
//! group of approvers decides each request. The heart of the crate is the
//! lifecycle coordinator: it turns a stored pending request plus a single
//! approve/deny decision event into exactly one terminal outcome, tolerating
//! concurrent duplicate decision events. Authorization is checked before the
//! request row is touched, the row is claimed (read and removed) atomically,
//! and only a claimed approval may lead to the one administrative command sent
//! to the target server.

pub mod config;
pub mod coordinator;
pub mod laws;
pub mod listing;
pub mod notify;
pub mod store;
pub mod submit;
pub mod token;
pub mod text;

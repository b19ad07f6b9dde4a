//! Client library for a realtime chat gateway: a duplexed transport session,
//! a bounded coherent entity cache, and a per-event dispatch pipeline that
//! resolves referenced entities with fetch-through semantics and merges
//! per-event cache writes back atomically.

pub mod cache;
pub mod client;
pub mod http;
pub mod models;
pub mod websocket;
mod text;

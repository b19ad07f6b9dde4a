//! The events that travel over the gateway, in both directions.

pub mod client;
pub mod server;

//! Shard bookkeeping for a Discord gateway cluster: the commands a shard
//! accepts, the information it publishes about itself, and the decisions its
//! event loop takes on every message the gateway sends.

pub mod trusted;
pub mod command;
pub mod info;
pub mod event_handler;
pub mod event_loop;
pub mod sidecar;
pub mod spawn;
pub mod laws;

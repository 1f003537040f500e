//! Tracking a fleet of nodes: each node's agent registers itself, sends
//! heartbeats, and reports local IPv4 address changes; a central registry
//! keeps per-node liveness state; and a session-authenticated client
//! mirrors address changes into an upstream DNS host-record store.
//!
//! The I/O around these rules — the OS notification subscription, the HTTP
//! transport, the environment and files configuration is read from — lives
//! outside the library and hands in plain values.

pub mod agent_config;
pub mod dns_sync;
pub mod dto;
pub mod ipv4;
pub mod parse;
pub mod registry;
pub mod server_config;
pub mod shared_map;
pub mod watcher;

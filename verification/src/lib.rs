//! Trumpet: an agent nexus whose registries, task state machine,
//! conversation store, configuration rules, error catalogue and wire-level
//! parsers are specified and proved with Verus.

pub mod text;
pub mod error;
pub mod ids;
pub mod model;
pub mod task_types;
pub mod events;
pub mod store;
pub mod registry;
pub mod skills;
pub mod task_manager;
pub mod chat;
pub mod config;
pub mod code_tools;
pub mod wire;
pub mod sse;
pub mod proto;
pub mod auth;
pub mod router;
pub mod push;
pub mod crypto;
pub mod sort;
pub mod a2a;
pub mod mcp;
pub mod http;
pub mod layering;

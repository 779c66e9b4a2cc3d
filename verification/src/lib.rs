//! Core logic of a live-development tool for the Orbit UI framework: change
//! tracking for hot-module-reload (HMR), path-to-module mapping, debounced
//! rebuild decisions, a broadcast hub fanning protocol messages out to
//! connected clients, HTML bootstrap injection, and the supporting
//! configuration, template and maintenance logic.
//!
//! All I/O (file system, HTTP, WebSocket, clocks) stays outside this crate;
//! the functions here work on plain values and carry their contracts.

pub mod args;
pub mod components;
pub mod config;
pub mod coordinator;
pub mod hmr;
pub mod hmr_inject;
pub mod dev_maintenance;
pub mod hub;
pub mod maintenance;
pub mod messages;
pub mod server;
pub mod templates;
pub mod test_component;
pub mod path_map;
pub mod project_templates;
pub mod text;
pub mod util;

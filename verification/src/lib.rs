//! Remapper: the verified core of a cross-platform input remapping tool.
//!
//! The library holds the event model, the key-code tables, the configuration
//! schema and its operations, the four mapping handlers (simple, macro,
//! tap/hold, combo), the event pipeline that routes events through them, and
//! the state of the editor components. Device access, files, processes and
//! rendering live outside the library.
#![allow(unused_imports)]

pub mod text;
pub mod keycodes;
pub mod clock;
pub mod events;
pub mod platform;
pub mod error;
pub mod config;
pub mod manager;
pub mod mappings;
pub mod engine;
pub mod migration;
pub mod search;
pub mod order;
pub mod devices;
pub mod platform_codes;
pub mod backends;
pub mod desktop_input;
pub mod daemon;
pub mod cli;
pub mod gui;

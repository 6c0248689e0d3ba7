//! Provisioning and debug-session bridging for TON developer tooling.
//!
//! The crate locates a correctly-versioned local copy of a language server —
//! either a release-asset archive keyed by an immutable version string or a
//! registry-installed package — and turns a generic debug request into the
//! session descriptor a TCP-based debug adapter expects.

pub mod bridge;
pub mod dispatch;
pub mod errors;
pub mod ipv4;
pub mod json_text;
pub mod json_read;
pub mod registry;
pub mod release;
pub mod textutil;

pub use errors::ToolError;

//! Runs `cargo check` (or another command with the same output format) in the
//! background and turns its JSON output into diagnostics for an editor.
//!
//! The library holds the decisions: how a run is invoked, how the output
//! stream is read, which messages are forwarded, and the supervisor's state
//! machine that restarts runs and emits tasks. Threads, channels and the
//! child process are driven by the caller.

mod outside;
pub mod config;
pub mod message;
pub mod runner;
pub mod supervisor;
pub mod trace;

pub use cargo_metadata::diagnostic::{
    Applicability, Diagnostic, DiagnosticLevel, DiagnosticSpan, DiagnosticSpanMacroExpansion,
};
pub use config::FlycheckConfig;
pub use supervisor::{CheckCommand, CheckTask};

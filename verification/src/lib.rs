//! Core of a terminal assistant that turns natural-language input into either
//! an explanatory answer or an executable shell command, by delegating
//! reasoning to a remote large-language-model provider.
//!
//! This crate holds the provider-agnostic logic: building requests, choosing a
//! provider client, recovering from transient call/parse failures via bounded
//! retry, interpreting the model's free-form text as structured data, routing
//! between operating modes, and planning safe execution of the resulting shell
//! command.  All I/O (HTTP, keyring, files, processes, terminal) lives with the
//! callers; this crate computes on plain values.

pub mod client;
pub mod config;
pub mod dispatch;
pub mod error;
pub mod executor;
pub mod input_state;
pub mod json;
pub mod menu;
pub mod parser;
pub mod paths;
pub mod presets;
pub mod prompt;
pub mod provider;
pub mod retry;
pub mod secret;
pub mod switch;
pub mod system_info;
pub mod text;
pub mod wire;

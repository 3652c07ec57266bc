//! Command handlers and startup plan of a desktop webview shell.
//!
//! The host runtime owns windows, script execution and plugins. This library
//! holds the decisions made around them: how a window lookup turns into a
//! command result, and which plugins startup registers.
pub mod commands;
pub mod startup;

//! A verified core for a file watcher that supervises a child process:
//! multi-source configuration merging, the change-classification (ignore)
//! engine, event debouncing, and the process-supervision state machine.
//!
//! Filesystem-event delivery, pattern-file matching internals, CLI parsing
//! and config-file parsing are external collaborators; the library consumes
//! them through narrow interfaces and plain values.

pub mod args_opt;
pub mod config;
pub mod file_opt;
pub mod gitignore;
pub mod strings;
pub mod watch;

//! Configuration-driven orchestration of `restic` backups.
//!
//! The library turns a backup configuration into the argument and environment
//! vectors of a `restic` invocation, and turns what the finished child process
//! left behind into a classified outcome with operator-facing diagnostics.
//! Nothing here performs I/O: callers spawn the process, write the log and
//! serve HTTP, and hand plain values in and out.
//!
//! One run goes through [`report::prepare_backup`], which builds and
//! announces the invocation, and [`report::conclude`], which classifies how
//! it ended. There is no retry and no cancellation: an invocation is spawned
//! at most once.

pub mod text;
pub mod decimal;
pub mod case;
pub mod size;
pub mod config;
pub mod command;
pub mod render;
pub mod outcome;
pub mod report;
pub mod service;
pub mod snapshots;
pub mod logs;
pub mod cli;

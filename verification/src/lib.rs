//! Runs a command in all subaccounts of a cloud organization.
//!
//! The library holds the verified core: configuration validation, account
//! filtering, command tokenization and environment assembly, and the
//! per-account pipeline orchestration under a bounded concurrency limit.
//! Process spawning and the external directory/identity calls reach it only
//! through the `Aws` and `Spawner` ports.

pub mod aws;
pub mod config;
pub mod exec;
pub mod orchestrator;
pub mod report;
pub mod text;

//! Provisioning of a dynamic-DNS updater on a remote host: the job stages,
//! the job registry, and the decisions of every step of a deployment.
//!
//! The library performs no input or output. Each protocol is a small state
//! machine: it names the next action, the caller performs it and hands the
//! reply back.

pub mod cf_check;
pub mod create_binary;
pub mod error;
pub mod text;
pub mod job;
pub mod ssh;

//! The remote session: how it is set up, how one command is run, how a file
//! is sent, and how the reboot entry is installed.
//!
//! Each of these is a state machine. It names the next request to the
//! remote side; the caller makes the request on its connection and hands
//! the reply back.

pub mod failure;
pub mod command;
pub mod cron;
pub mod session;
pub mod upload;

pub use crate::ssh::command::run_command;
pub use crate::ssh::cron::create_cron_job;
pub use crate::ssh::session::create_session;
pub use crate::ssh::upload::upload_file;

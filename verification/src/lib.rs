//! Persistence-and-session engine of a chat bridge: a transactional store for
//! synchronisation state, a manager of puppet sessions, and an event dispatch
//! queue with bounded retry.
pub mod cli;
pub mod config;
pub mod handlers;
pub mod puppet;
pub mod queue;
pub mod registration;
pub mod retry;
pub mod session;
pub mod store;
pub mod text;

pub use crate::cli::{Args, Command};
pub use crate::config::File as ConfigFile;

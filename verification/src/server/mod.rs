//! The daemon: its configuration, its callers, and what it answers them.

pub mod args;
pub mod call;
pub mod config;
pub mod config_laws;
pub mod conv;
pub mod cred_laws;
pub mod creds;
pub mod dispatch;
pub mod extract;
pub mod handlers;
pub mod reply_laws;
pub mod start_laws;

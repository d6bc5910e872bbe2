//! Layered resolution of the manager's configuration.

pub mod cache;
pub mod config;
pub mod environment;
pub mod error;
pub mod keys;
pub mod laws;
pub mod platform;
pub mod table;
pub mod text;

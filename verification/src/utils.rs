//! Errors and configuration.

pub mod config;
pub mod error;

pub use error::VmError;

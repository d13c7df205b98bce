//! Window configuration.

pub mod config;
pub mod options;

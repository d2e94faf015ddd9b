//! Command line and configuration wizard of the llmconduit gateway.

pub mod cli;
pub mod config;
pub mod config_laws;
pub mod faithful;
pub mod flow;
pub mod json;
pub mod laws;
pub mod proposals;
pub mod questions;
pub mod text;
pub mod transcript;
pub mod wizard;

//! The command line.

use std::path::PathBuf;
use vstd::prelude::*;

verus! {

/// `std::path::PathBuf`, a path; it is only carried through.
#[verifier::external_type_specification]
#[verifier::external_body]
pub struct ExPathBuf(PathBuf);

/// The command line: LLM API gateway for translating, normalizing, and extending model
/// traffic.
#[derive(Debug)]
pub struct Cli {
    /// Enable the embedded request debug UI at /debug.
    pub with_debug_ui: bool,
    pub command: Option<Commands>,
}

/// A subcommand.
#[derive(Debug)]
pub enum Commands {
    /// Start the gateway server.
    Start {
        /// Path to the config file. Defaults to ~/.config/llmconduit/config.yaml
        config: Option<PathBuf>,
        /// Dump raw model delta text to the terminal while the gateway is running.
        raw: bool,
    },
    /// Run the interactive configuration flow and write a config file.
    Configure {
        /// Path to the config file. Defaults to ~/.config/llmconduit/config.yaml
        config: Option<PathBuf>,
    },
    /// Diff consecutive upstream request log entries and highlight unstable prefixes.
    AnalyzeLog {
        /// Path to the config file. Defaults to ~/.config/llmconduit/config.yaml
        config: Option<PathBuf>,
        /// Path to the JSONL request log. Defaults to upstream_request_log_path from config.
        path: Option<PathBuf>,
        /// Maximum number of consecutive pairs to report.
        pairs: usize,
    },
}

/// The path of the config file: the given one, else what `default_config_path` says,
/// which is asked only if no path was given.
pub fn resolve_config_path<F: FnOnce() -> Result<PathBuf, String>>(
    path: Option<PathBuf>,
    default_config_path: F,
) -> (r: Result<PathBuf, String>)
    requires
        path is None ==> default_config_path.requires(()),
    ensures
        path matches Some(given) ==> r == Ok::<PathBuf, String>(given),
        path is None ==> default_config_path.ensures((), r),
{
    match path {
        Some(given) => Ok(given),
        None => default_config_path(),
    }
}

} // verus!

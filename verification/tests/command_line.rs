use llmconduit::cli::{resolve_config_path, Cli, Commands};
use std::path::PathBuf;

#[test]
fn given_config_path_wins() {
    let path = resolve_config_path(Some(PathBuf::from("/etc/llmconduit.yaml")), || {
        panic!("the default is not asked for")
    });
    assert_eq!(path, Ok(PathBuf::from("/etc/llmconduit.yaml")));
}

#[test]
fn default_config_path_is_asked_for() {
    let path = resolve_config_path(None, || Ok(PathBuf::from("/home/me/config.yaml")));
    assert_eq!(path, Ok(PathBuf::from("/home/me/config.yaml")));
    let failed = resolve_config_path(None, || Err("no home directory".to_string()));
    assert_eq!(failed, Err("no home directory".to_string()));
}

#[test]
fn commands_hold_their_arguments() {
    let cli = Cli {
        with_debug_ui: true,
        command: Some(Commands::AnalyzeLog { config: None, path: None, pairs: 10 }),
    };
    assert!(cli.with_debug_ui);
    assert!(matches!(cli.command, Some(Commands::AnalyzeLog { pairs: 10, .. })));
}

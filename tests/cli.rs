use ym::cli::{cli_action, Cli, StartupAction};

#[test]
fn init_always_configures() {
    assert_eq!(cli_action(&Cli { init: true }, true), StartupAction::Configure);
    assert_eq!(cli_action(&Cli { init: true }, false), StartupAction::Configure);
}

#[test]
fn without_init_launch_needs_credentials() {
    assert_eq!(cli_action(&Cli { init: false }, true), StartupAction::Launch);
    assert_eq!(cli_action(&Cli { init: false }, false), StartupAction::Abort);
}

//! The start-up decision taken from the command line.

use vstd::prelude::*;

verus! {

/// Command-line arguments.
#[derive(Debug, Clone, Copy, PartialEq, Eq, Structural)]
pub struct Cli {
    /// Set up the credentials before starting.
    pub init: bool,
}

/// What start-up does before the session opens.
#[derive(Debug, Clone, Copy, PartialEq, Eq, Structural)]
pub enum StartupAction {
    /// Credentials are missing and no set-up was asked for: report it and
    /// exit with failure.
    Abort,
    /// Ask for the credentials, save them, then open the session.
    Configure,
    /// Open the session.
    Launch,
}

/// The start-up action for `cli`, where `app_ready` tells whether the
/// credentials file exists: set-up when asked for, otherwise launch when the
/// credentials are there and abort when they are not.
pub fn cli_action(cli: &Cli, app_ready: bool) -> (r: StartupAction)
    ensures
        cli.init ==> r == StartupAction::Configure,
        !cli.init && app_ready ==> r == StartupAction::Launch,
        !cli.init && !app_ready ==> r == StartupAction::Abort,
{
    if cli.init {
        StartupAction::Configure
    } else if app_ready {
        StartupAction::Launch
    } else {
        StartupAction::Abort
    }
}

} // verus!

//! Command lines of the environment manager and of the gateway daemon, as
//! plain data; argument parsing itself is done by the binaries.
use vstd::prelude::*;

verus! {

/// The environment manager's command line.
pub struct Cli {
    /// Optional configuration file path.
    pub config_file: Option<String>,
    pub command: Commands,
}

pub enum Commands {
    /// List all available environments.
    Envs,
    /// Create a new environment interactively.
    Create { name: Option<String> },
    /// Set the global default environment.
    Global { version: String },
    /// Activate an environment in a new shell.
    Shell { env_name: Option<String> },
    /// Show the active environment.
    Current,
    /// Remove an environment.
    Remove { name: String },
}

/// The gateway daemon's command line.
pub struct DaemonCli {
    /// Path of the settings file.
    pub config: String,
    pub command: Option<DaemonCommands>,
}

pub enum DaemonCommands {
    /// Start the gateway, optionally on another bind address.
    Start { bind: Option<String> },
    /// Test the connection to the backends.
    Test,
    /// Show the configuration.
    Config,
}

impl DaemonCli {
    /// The address to listen on: the one given to `start`, else the
    /// configured one.
    pub fn bind_addr(&self, configured: &String) -> (r: String)
        ensures
            self.command matches Some(DaemonCommands::Start { bind: Some(b) }) ==> r == b,
            !(self.command matches Some(DaemonCommands::Start { bind: Some(_) })) ==> r == *configured,
    {
        match &self.command {
            Some(DaemonCommands::Start { bind: Some(b) }) => b.clone(),
            _ => configured.clone(),
        }
    }
}

} // verus!

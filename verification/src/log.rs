use vstd::prelude::*;

use crate::cli::Cli;
use crate::config::{resolved_verbose, FileConfig};

verus! {

/// How much the program logs: `Simple` is informational messages and above,
/// `Verbose` is everything down to trace messages.
#[derive(PartialEq, Eq, Structural, Clone, Copy, Debug)]
pub enum LogLevel {
    Simple,
    Verbose,
}

/// The level installed at start-up, before the configuration file is read:
/// `Verbose` when the command line asks for it, and none otherwise.
pub open spec fn spec_startup_log_level(cli_verbose: bool) -> Option<LogLevel> {
    if cli_verbose {
        Some(LogLevel::Verbose)
    } else {
        None
    }
}

/// The level installed once the configuration is resolved: none if one was
/// installed at start-up (a level can be installed only once), else the one
/// the resolved configuration asks for.
pub open spec fn spec_configured_log_level(config_verbose: bool, cli_verbose: bool) -> Option<LogLevel> {
    if cli_verbose {
        None
    } else if config_verbose {
        Some(LogLevel::Verbose)
    } else {
        Some(LogLevel::Simple)
    }
}

/// Which level to install at start-up, from the command line's verbose flag
/// alone; `None` means that none is installed yet.
pub fn startup_log_level(cli_verbose: bool) -> (res: Option<LogLevel>)
    ensures
        res == spec_startup_log_level(cli_verbose),
{
    if cli_verbose {
        Some(LogLevel::Verbose)
    } else {
        None
    }
}

/// Which level to install once the configuration is resolved; `None` means
/// that the start-up step has already installed one.
pub fn configured_log_level(config_verbose: bool, cli_verbose: bool) -> (res: Option<LogLevel>)
    ensures
        res == spec_configured_log_level(config_verbose, cli_verbose),
{
    match (config_verbose, cli_verbose) {
        (true, false) => Some(LogLevel::Verbose),
        (false, false) => Some(LogLevel::Simple),
        (_, _) => None,
    }
}

/// Over the two steps a level is installed exactly once, and it is `Verbose`
/// exactly when the configuration resolved from the file and the command line
/// is verbose.
pub proof fn lemma_log_level_installed_once(file: FileConfig, cli: Cli)
    ensures
        ({
            let config_verbose = resolved_verbose(file, cli);
            let early = spec_startup_log_level(cli.verbose);
            let late = spec_configured_log_level(config_verbose, cli.verbose);
            &&& early is Some != late is Some
            &&& (match early {
                Some(l) => l,
                None => late->0,
            }) == (if config_verbose { LogLevel::Verbose } else { LogLevel::Simple })
        }),
{
}

} // verus!

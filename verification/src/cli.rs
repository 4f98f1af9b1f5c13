use vstd::prelude::*;
use vstd::string::StringSliceAdditionalSpecFns;

verus! {

/// The parsed command line.
pub struct Cli {
    /// The subcommand to run.
    pub command: Commands,
    /// Where the configuration file is looked for, as the bytes of the
    /// operating system's path.
    pub config: Vec<u8>,
    /// Whether additional debug and trace information is wanted.
    pub verbose: bool,
}

/// The subcommands of the command line.
pub enum Commands {
    /// Build the blog; `output_folder`, when given, is where the site goes
    /// (the bytes of the operating system's path).
    Build { output_folder: Option<Vec<u8>> },
}

/// The command line as it is when nothing is passed: `build` with no output
/// folder, the default configuration path, and no verbose flag.
pub fn empty_cli() -> (cli: Cli)
    ensures
        cli.command == (Commands::Build { output_folder: None }),
        cli.config@ == "./bloginator.toml".spec_bytes(),
        !cli.verbose,
{
    Cli {
        command: Commands::Build { output_folder: None },
        config: "./bloginator.toml".as_bytes_vec(),
        verbose: false,
    }
}

} // verus!

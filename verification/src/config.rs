use vstd::prelude::*;
use vstd::string::StringSliceAdditionalSpecFns;

use crate::cli::{Cli, Commands};

verus! {

/// The options that the configuration file can set. Every option may be left
/// out. The configuration file's own location is not part of it: by the time
/// this value exists the file has been found, or every option is absent.
pub struct FileConfig {
    pub build: Option<FileBuildConfig>,
    pub verbose: Option<bool>,
}

/// The `[build]` table of the configuration file. Paths are held as the
/// bytes of the operating system's path.
pub struct FileBuildConfig {
    pub output_folder: Option<Vec<u8>>,
}

/// The configuration that the build runs with, once the command line has
/// been laid over the configuration file.
#[derive(Debug)]
pub struct Config {
    pub build_config: BuildConfig,
    pub verbose: bool,
}

/// The settings of the `build` command; the output folder is held as the
/// bytes of the operating system's path.
#[derive(Debug)]
pub struct BuildConfig {
    pub output_folder: Vec<u8>,
}

/// The output folder used when neither the command line nor the
/// configuration file names one.
pub open spec fn default_output_folder() -> Seq<u8> {
    "./build".spec_bytes()
}

/// The output folder that the configuration file names, if it names one.
pub open spec fn file_output_folder(file: FileConfig) -> Option<Seq<u8>> {
    match file.build {
        Some(b) => match b.output_folder {
            Some(f) => Some(f@),
            None => None,
        },
        None => None,
    }
}

/// The output folder that the command line names, if it names one.
pub open spec fn cli_output_folder(cli: Cli) -> Option<Seq<u8>> {
    match cli.command {
        Commands::Build { output_folder: Some(f) } => Some(f@),
        Commands::Build { output_folder: None } => None,
    }
}

/// The output folder of the resolved configuration: the command line's if it
/// names one, else the configuration file's, else `./build`.
pub open spec fn resolved_output_folder(file: FileConfig, cli: Cli) -> Seq<u8> {
    match cli_output_folder(cli) {
        Some(f) => f,
        None => match file_output_folder(file) {
            Some(f) => f,
            None => default_output_folder(),
        },
    }
}

/// Verbose mode of the resolved configuration: on when either source turns
/// it on.
pub open spec fn resolved_verbose(file: FileConfig, cli: Cli) -> bool {
    file.verbose == Some(true) || cli.verbose
}

/// A copy of a path's bytes.
fn copy_path(path: &Vec<u8>) -> (res: Vec<u8>)
    ensures
        res@ == path@,
{
    let res = path.clone();
    assert(res@ =~= path@);
    res
}

impl Default for FileConfig {
    /// A configuration file that sets nothing.
    fn default() -> (res: Self)
        ensures
            res.build is None,
            res.verbose is None,
    {
        FileConfig { build: None, verbose: None }
    }
}

impl Default for FileBuildConfig {
    /// A `[build]` table that sets nothing.
    fn default() -> (res: Self)
        ensures
            res.output_folder is None,
    {
        FileBuildConfig { output_folder: None }
    }
}

impl Default for BuildConfig {
    /// Build settings with the output folder `./build`.
    fn default() -> (res: Self)
        ensures
            res.output_folder@ == default_output_folder(),
    {
        BuildConfig { output_folder: "./build".as_bytes_vec() }
    }
}

impl FileConfig {
    /// Lays the command-line options over this configuration file: a value
    /// given on the command line wins, one given only in the file is kept,
    /// and verbose mode is on when either turns it on.
    pub fn overlay_cli_options(&self, options: &Cli) -> (res: Config)
        ensures
            res.build_config.output_folder@ == resolved_output_folder(*self, *options),
            res.verbose == resolved_verbose(*self, *options),
    {
        let file_verbose = match self.verbose {
            Some(v) => v,
            None => false,
        };
        let build_config = match &options.command {
            Commands::Build { output_folder: Some(output_folder) } => BuildConfig {
                output_folder: copy_path(output_folder),
            },
            _ => match &self.build {
                Some(FileBuildConfig { output_folder: Some(output_folder) }) => BuildConfig {
                    output_folder: copy_path(output_folder),
                },
                _ => BuildConfig::default(),
            },
        };
        Config { build_config, verbose: file_verbose || options.verbose }
    }
}

/// An output folder given on the command line is the one the build uses,
/// whatever the configuration file says.
pub proof fn lemma_cli_output_folder_takes_precedence(file: FileConfig, cli: Cli, folder: Vec<u8>)
    requires
        cli.command == (Commands::Build { output_folder: Some(folder) }),
    ensures
        resolved_output_folder(file, cli) == folder@,
{
}

/// When the command line names no output folder, the configuration file's
/// output folder is the one the build uses.
pub proof fn lemma_file_output_folder_used_when_cli_silent(file: FileConfig, cli: Cli, folder: Vec<u8>)
    requires
        cli.command == (Commands::Build { output_folder: None }),
        file.build == Some(FileBuildConfig { output_folder: Some(folder) }),
    ensures
        resolved_output_folder(file, cli) == folder@,
{
}

/// When the command line names no output folder and the configuration file
/// has no `[build]` table, or one without `output_folder`, the build uses
/// `./build`, whatever else the file sets.
pub proof fn lemma_default_output_folder(file: FileConfig, cli: Cli)
    requires
        cli.command == (Commands::Build { output_folder: None }),
        file.build is None || file.build == Some(FileBuildConfig { output_folder: None }),
    ensures
        resolved_output_folder(file, cli) == "./build".spec_bytes(),
{
}

/// The output folder in full, by the fields of the two sources: the command
/// line's when it gives one, else the `[build]` table's when it gives one,
/// else `./build`. The verbose setting and the configuration path play no
/// part.
pub proof fn lemma_output_folder_by_fields(file: FileConfig, cli: Cli)
    ensures
        resolved_output_folder(file, cli) == match cli.command {
            Commands::Build { output_folder: Some(f) } => f@,
            Commands::Build { output_folder: None } => match file.build {
                Some(FileBuildConfig { output_folder: Some(f) }) => f@,
                _ => "./build".spec_bytes(),
            },
        },
{
}

/// Verbose mode is on exactly when the command line asks for it or the
/// configuration file sets it to true; an absent or false setting in the file
/// never turns off a verbose flag given on the command line.
pub proof fn lemma_verbose_if_either_source(file: FileConfig, cli: Cli)
    ensures
        resolved_verbose(file, cli) <==> (cli.verbose || file.verbose == Some(true)),
        cli.verbose ==> resolved_verbose(file, cli),
        file.verbose == Some(true) ==> resolved_verbose(file, cli),
        (!cli.verbose && file.verbose != Some(true)) ==> !resolved_verbose(file, cli),
{
}

/// Where the configuration file was looked for has no bearing on the
/// resolved configuration: two command lines that differ only there resolve
/// to the same output folder and verbose mode.
pub proof fn lemma_config_location_irrelevant(file: FileConfig, cli1: Cli, cli2: Cli)
    requires
        cli1.command == cli2.command,
        cli1.verbose == cli2.verbose,
    ensures
        resolved_output_folder(file, cli1) == resolved_output_folder(file, cli2),
        resolved_verbose(file, cli1) == resolved_verbose(file, cli2),
{
}

} // verus!

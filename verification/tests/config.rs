use bloginator::{empty_cli, BuildConfig, Cli, Commands, FileBuildConfig, FileConfig};

#[test]
fn all_unspecified() {
    let empty_fileconfig = FileConfig::default();
    let empty_cli_options = empty_cli();

    let config = empty_fileconfig.overlay_cli_options(&empty_cli_options);

    assert_eq!(config.build_config.output_folder, b"./build".to_vec());
    assert_eq!(config.verbose, false);
}

#[test]
fn fileconfig_unspecified() {
    let empty_fileconfig = FileConfig::default();
    let full_cli_options = Cli {
        command: Commands::Build {
            output_folder: Some("./testbuild".into()),
        },
        config: "./testconfig.toml".into(),
        verbose: true,
    };

    let config = empty_fileconfig.overlay_cli_options(&full_cli_options);

    assert_eq!(
        config.build_config.output_folder,
        b"./testbuild".to_vec()
    );
    assert_eq!(config.verbose, true);
}

#[test]
fn cli_unspecified() {
    let full_fileconfig = FileConfig {
        build: Some(FileBuildConfig {
            output_folder: Some("./testbuild".into()),
        }),
        verbose: Some(true),
    };
    let empty_cli_options = empty_cli();

    let config = full_fileconfig.overlay_cli_options(&empty_cli_options);

    assert_eq!(
        config.build_config.output_folder,
        b"./testbuild".to_vec()
    );
    assert_eq!(config.verbose, true);
}

// In v1 the file config has verbose false and the command line has it true;
// in v2 it is the other way round.
#[test]
fn all_specified_v1() {
    let full_fileconfig = FileConfig {
        build: Some(FileBuildConfig {
            output_folder: Some("./testbuild1".into()),
        }),
        verbose: Some(false),
    };
    let full_cli_options = Cli {
        command: Commands::Build {
            output_folder: Some("./testbuild2".into()),
        },
        config: "./testconfig.toml".into(),
        verbose: true,
    };

    let config = full_fileconfig.overlay_cli_options(&full_cli_options);

    assert_eq!(
        config.build_config.output_folder,
        b"./testbuild2".to_vec()
    );
    assert_eq!(config.verbose, true);
}

#[test]
fn all_specified_v2() {
    let full_fileconfig = FileConfig {
        build: Some(FileBuildConfig {
            output_folder: Some("./testbuild1".into()),
        }),
        verbose: Some(true),
    };
    let full_cli_options = Cli {
        command: Commands::Build {
            output_folder: Some("./testbuild2".into()),
        },
        config: "./testconfig.toml".into(),
        verbose: false,
    };

    let config = full_fileconfig.overlay_cli_options(&full_cli_options);

    assert_eq!(
        config.build_config.output_folder,
        b"./testbuild2".to_vec()
    );
    assert_eq!(config.verbose, true);
}

#[test]
fn empty_cli_is_build_with_defaults() {
    let cli = empty_cli();
    match cli.command {
        Commands::Build { output_folder } => assert_eq!(output_folder, None),
    }
    assert_eq!(cli.config, b"./bloginator.toml");
    assert!(!cli.verbose);
}

#[test]
fn defaults_set_nothing_but_the_build_folder() {
    let file = FileConfig::default();
    assert!(file.build.is_none());
    assert!(file.verbose.is_none());
    assert!(FileBuildConfig::default().output_folder.is_none());
    assert_eq!(BuildConfig::default().output_folder, b"./build");
}

#[test]
fn file_build_table_without_folder_falls_back_to_default() {
    let file = FileConfig {
        build: Some(FileBuildConfig { output_folder: None }),
        verbose: Some(false),
    };
    let config = file.overlay_cli_options(&empty_cli());
    assert_eq!(config.build_config.output_folder, b"./build");
    assert!(!config.verbose);
}

#[test]
fn cli_folder_wins_over_file_folder_and_verbose_false_everywhere() {
    let file = FileConfig {
        build: Some(FileBuildConfig {
            output_folder: Some("site".into()),
        }),
        verbose: None,
    };
    let cli = Cli {
        command: Commands::Build {
            output_folder: Some("out".into()),
        },
        config: "elsewhere.toml".into(),
        verbose: false,
    };
    let config = file.overlay_cli_options(&cli);
    assert_eq!(config.build_config.output_folder, b"out");
    assert!(!config.verbose);
}

#[test]
fn config_location_does_not_change_result() {
    let file = FileConfig {
        build: Some(FileBuildConfig {
            output_folder: Some("site".into()),
        }),
        verbose: Some(true),
    };
    let mut a = empty_cli();
    a.config = "a.toml".into();
    let mut b = empty_cli();
    b.config = "b.toml".into();
    let ca = file.overlay_cli_options(&a);
    let cb = file.overlay_cli_options(&b);
    assert_eq!(ca.build_config.output_folder, cb.build_config.output_folder);
    assert_eq!(ca.verbose, cb.verbose);
    assert_eq!(ca.build_config.output_folder, b"site");
    assert!(ca.verbose);
}

use bloginator::{configured_log_level, startup_log_level, LogLevel};

#[test]
fn startup_level_follows_cli_flag() {
    assert_eq!(startup_log_level(true), Some(LogLevel::Verbose));
    assert_eq!(startup_log_level(false), None);
}

#[test]
fn configured_level_table() {
    assert_eq!(configured_log_level(true, false), Some(LogLevel::Verbose));
    assert_eq!(configured_log_level(false, false), Some(LogLevel::Simple));
    assert_eq!(configured_log_level(true, true), None);
    assert_eq!(configured_log_level(false, true), None);
}

#[test]
fn level_installed_exactly_once() {
    for file_verbose in [None, Some(false), Some(true)] {
        for cli_verbose in [false, true] {
            let config_verbose = file_verbose.unwrap_or(false) || cli_verbose;
            let early = startup_log_level(cli_verbose);
            let late = configured_log_level(config_verbose, cli_verbose);
            assert!(early.is_some() != late.is_some());
            let installed = early.or(late).unwrap();
            let expected = if config_verbose { LogLevel::Verbose } else { LogLevel::Simple };
            assert_eq!(installed, expected);
        }
    }
}

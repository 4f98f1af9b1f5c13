//! Configuration resolution and the build decisions of a small static blog
//! generator: how command-line options overlay the configuration file, which
//! log level to install, how file-system checks fail and are reported, when
//! the output folder may be cleared (`clearing_decision`) and what clearing
//! does with each entry (`clear_entry_action`), and how a post page is
//! rendered from its template. The program around it does the I/O and panics
//! where a check fails.

pub mod cli;
pub mod config;
pub mod fsutils;
pub mod log;
pub mod post;
mod text;

pub use cli::{empty_cli, Cli, Commands};
pub use config::{BuildConfig, Config, FileBuildConfig, FileConfig};
pub use fsutils::{
    assert_exists, assert_is_dir, assert_is_file, check_exists, check_is_dir, check_is_file,
    clear_entry_action, clearing_decision, confirms_clearing, is_build_marker, ClearDecision,
    EntryAction, EntryKind, FsError, PathStatus, BUILD_MARKER,
};
pub use log::{configured_log_level, startup_log_level, LogLevel};
pub use post::{fill_post_template, post_page_name, render_post, POST_TEMPLATE_FILE};

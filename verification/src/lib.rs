//! A library to orchestrate the executions of experiments on remote hosts.
use vstd::prelude::*;

pub mod application;
pub mod asynclets;
pub mod commons;
pub mod error;
pub mod git;
pub mod hosts;
pub mod misc;
pub mod primitives;
pub mod repository;
pub mod run;
pub mod scheduler;
pub mod ssh;
pub mod stateful;
pub mod text;

verus! {

/// The path to the script to launch in the experiment repo
pub const SCRIPT_RPATH: &'static str = "run";

/// globs pattern for files to ignore in send
pub const SEND_IGNORE_RPATH: &'static str = ".sendignore";

/// globs pattern for files to ignore in fetch
pub const FETCH_IGNORE_RPATH: &'static str = ".fetchignore";

/// folder containing execution profiles in $HOME
pub const PROFILES_FOLDER_RPATH: &'static str = ".orchestra";

/// file containing known hosts keys
pub const KNOWN_HOSTS_RPATH: &'static str = ".orchestra/known_hosts";

/// file containing ssh configs
pub const SSH_CONFIG_RPATH: &'static str = ".orchestra/config";

/// file name of tar archive to send
pub const SEND_ARCH_RPATH: &'static str = ".send.tar";

/// file name of tar to fetch
pub const FETCH_ARCH_RPATH: &'static str = ".fetch.tar";

/// folder containing the experiment repository as a submodule
pub const XPRP_RPATH: &'static str = "xprp";

/// folder containing the experiment executions
pub const EXCS_RPATH: &'static str = "excs";

/// file containing the execution parameters.
pub const EXCCONF_RPATH: &'static str = ".excconf";

/// folder containing the output data in an execution folder
pub const DATA_RPATH: &'static str = "data";

/// file containing expegit configuration
pub const CMPCONF_RPATH: &'static str = ".cmpconf";

/// file containing the execution features
pub const FEATURES_RPATH: &'static str = ".features";

} // verus!

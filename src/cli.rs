//! The command-line options of the language server.
use vstd::prelude::*;

verus! {

/// The options the server is started with.
#[derive(Clone, Debug)]
pub struct Args {
    /// Which server to connect to (the first one of the list when absent).
    pub server_id: Option<String>,
    /// A configuration file path that overrides the default one.
    pub config_file_path: Option<String>,
    /// Whether more information is printed to the console.
    pub verbose: bool,
    /// Whether the server's version check is skipped when connecting.
    pub no_version_check: bool,
}

} // verus!

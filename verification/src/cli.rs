//! Command-line options.

use vstd::prelude::*;

verus! {

/// What the command line can set.
#[derive(Debug, PartialEq, Eq)]
pub struct Opts {
    /// Enable tracing
    pub tracing: bool,
    /// The path to the config file
    pub config_path: String,
}

/// The path of the config file where the command line names none.
pub open spec fn default_config_path() -> Seq<char> {
    "config.toml"@
}

impl Default for Opts {
    /// The options of a command line that sets nothing.
    fn default() -> (opts: Self)
        ensures
            !opts.tracing,
            opts.config_path@ == default_config_path(),
    {
        Opts { tracing: false, config_path: "config.toml".to_owned() }
    }
}

} // verus!

//! Command-line arguments of the shell.
use vstd::prelude::*;
use vstd::string::*;

verus! {

/// The configuration file read when none is named.
pub const DEFAULT_CONFIG: &'static str = "./config.toml";

pub struct Args {
    /// Path of the configuration file.
    pub config: String,
}

impl Args {
    pub fn new(config: String) -> (r: Self)
        ensures
            r.config@ == config@,
    {
        Args { config }
    }

    /// Path of the configuration file.
    pub fn config_path(&self) -> (r: &str)
        ensures
            r@ == self.config@,
    {
        self.config.as_str()
    }
}

impl Default for Args {
    fn default() -> (r: Self)
        ensures
            r.config@ == DEFAULT_CONFIG@,
    {
        Args { config: String::from_str(DEFAULT_CONFIG) }
    }
}

} // verus!

//! User configuration from a file, in its first form with a single option.

use vstd::prelude::*;

verus! {

/// User config options from a config file.
#[derive(Debug, Clone, Copy, PartialEq, Eq, Structural)]
pub struct Config {
    /// Enable S3 history backup.
    pub enable_s3_backup: bool,
}

impl Default for Config {
    fn default() -> (config: Self)
        ensures
            config == (Config { enable_s3_backup: false }),
    {
        Config { enable_s3_backup: false }
    }
}

impl Config {
    /// The configuration to run with: the one that was read from the file,
    /// and the default where none could be read.
    pub fn get_config(user_config: Option<Config>) -> (config: Self)
        ensures
            config == (match user_config {
                Some(read) => read,
                None => Config { enable_s3_backup: false },
            }),
    {
        match user_config {
            Some(read) => read,
            None => Config::default(),
        }
    }
}

} // verus!

//! User configuration from a file: its options, and where the file is looked for.

use vstd::prelude::*;
use vstd::string::StringExecFns;

verus! {

/// Name of the configuration file.
pub const CONFIG_FILE_NAME: &'static str = "axum-example.toml";

/// User config options from a config file.
#[derive(Debug, Clone, Copy, PartialEq, Eq, Structural)]
pub struct FileConfig {
    /// Enable logging database status.
    pub periodic_db_log_enabled: bool,
    /// Logging interval in seconds.
    pub periodic_db_log_interval: u64,
}

/// Where a configuration file was found.
#[derive(Debug, Clone, Copy, PartialEq, Eq, Structural)]
pub enum ConfigLocation {
    /// In the current working directory.
    CurrentDir,
    /// In `.config` under the home directory.
    HomeConfigDir,
}

/// Why no configuration file was found.
#[derive(Debug, Clone, Copy, PartialEq, Eq, Structural)]
pub enum ConfigSearchError {
    CurrentDirUnknown,
    LocalCheckFailed,
    HomeDirUnknown,
    HomeCheckFailed,
    NotFound,
}

/// What a look at a path showed.
#[derive(Debug, Clone, Copy, PartialEq, Eq, Structural)]
pub enum Existence {
    Exists,
    Missing,
    /// The file system could not say.
    Unknown,
}

/// What the search for the configuration file has just learned.
#[derive(Debug, Clone, Copy, PartialEq, Eq, Structural)]
pub enum SearchEvent {
    /// Nothing yet.
    Started,
    /// Whether the current working directory could be determined.
    CurrentDir(bool),
    /// What the look at the file in the current directory showed.
    LocalFile(Existence),
    /// Whether the home directory could be determined.
    HomeDir(bool),
    /// What the look at the file under the home directory showed.
    HomeFile(Existence),
}

/// What the search for the configuration file does next.
#[derive(Debug, Clone, Copy, PartialEq, Eq, Structural)]
pub enum SearchStep {
    ResolveCurrentDir,
    CheckLocalFile,
    ResolveHomeDir,
    CheckHomeFile,
    /// The search ends: the file is at this location.
    Found(ConfigLocation),
    /// The search ends without a file.
    Failed(ConfigSearchError),
}

/// The step that follows an event. The file in the current directory is
/// preferred; the home directory is looked at only where that file is missing.
pub open spec fn step_after(event: SearchEvent) -> SearchStep {
    match event {
        SearchEvent::Started => SearchStep::ResolveCurrentDir,
        SearchEvent::CurrentDir(known) => if known {
            SearchStep::CheckLocalFile
        } else {
            SearchStep::Failed(ConfigSearchError::CurrentDirUnknown)
        },
        SearchEvent::LocalFile(Existence::Exists) => SearchStep::Found(ConfigLocation::CurrentDir),
        SearchEvent::LocalFile(Existence::Missing) => SearchStep::ResolveHomeDir,
        SearchEvent::LocalFile(Existence::Unknown) => SearchStep::Failed(ConfigSearchError::LocalCheckFailed),
        SearchEvent::HomeDir(known) => if known {
            SearchStep::CheckHomeFile
        } else {
            SearchStep::Failed(ConfigSearchError::HomeDirUnknown)
        },
        SearchEvent::HomeFile(Existence::Exists) => SearchStep::Found(ConfigLocation::HomeConfigDir),
        SearchEvent::HomeFile(Existence::Missing) => SearchStep::Failed(ConfigSearchError::NotFound),
        SearchEvent::HomeFile(Existence::Unknown) => SearchStep::Failed(ConfigSearchError::HomeCheckFailed),
    }
}

/// One step of the search for the user config file: what to do after `event`.
pub fn user_config_file_path(event: SearchEvent) -> (step: SearchStep)
    ensures
        step == step_after(event),
{
    match event {
        SearchEvent::Started => SearchStep::ResolveCurrentDir,
        SearchEvent::CurrentDir(known) => {
            if known {
                SearchStep::CheckLocalFile
            } else {
                SearchStep::Failed(ConfigSearchError::CurrentDirUnknown)
            }
        },
        SearchEvent::LocalFile(seen) => match seen {
            Existence::Exists => SearchStep::Found(ConfigLocation::CurrentDir),
            Existence::Missing => SearchStep::ResolveHomeDir,
            Existence::Unknown => SearchStep::Failed(ConfigSearchError::LocalCheckFailed),
        },
        SearchEvent::HomeDir(known) => {
            if known {
                SearchStep::CheckHomeFile
            } else {
                SearchStep::Failed(ConfigSearchError::HomeDirUnknown)
            }
        },
        SearchEvent::HomeFile(seen) => match seen {
            Existence::Exists => SearchStep::Found(ConfigLocation::HomeConfigDir),
            Existence::Missing => SearchStep::Failed(ConfigSearchError::NotFound),
            Existence::Unknown => SearchStep::Failed(ConfigSearchError::HomeCheckFailed),
        },
    }
}

impl ConfigSearchError {
    /// What the error says, as a character sequence.
    pub open spec fn text(&self) -> Seq<char> {
        match self {
            ConfigSearchError::CurrentDirUnknown => "Failed to get current directory"@,
            ConfigSearchError::LocalCheckFailed => "Failed to check local config file existence"@,
            ConfigSearchError::HomeDirUnknown => "Failed to find home directory"@,
            ConfigSearchError::HomeCheckFailed => "Failed to check home config file existence"@,
            ConfigSearchError::NotFound =>
                "Config file not found in current directory or home config directory"@,
        }
    }

    /// What the error says.
    pub fn message(&self) -> (s: String)
        ensures
            s@ == self.text(),
    {
        match self {
            ConfigSearchError::CurrentDirUnknown => String::from_str(
                "Failed to get current directory",
            ),
            ConfigSearchError::LocalCheckFailed => String::from_str(
                "Failed to check local config file existence",
            ),
            ConfigSearchError::HomeDirUnknown => String::from_str("Failed to find home directory"),
            ConfigSearchError::HomeCheckFailed => String::from_str(
                "Failed to check home config file existence",
            ),
            ConfigSearchError::NotFound => String::from_str(
                "Config file not found in current directory or home config directory",
            ),
        }
    }
}

impl Default for FileConfig {
    fn default() -> (config: Self)
        ensures
            config == (FileConfig { periodic_db_log_enabled: false, periodic_db_log_interval: 0 }),
    {
        FileConfig { periodic_db_log_enabled: false, periodic_db_log_interval: 0 }
    }
}

impl FileConfig {
    /// The configuration to run with: the one that was read from the file,
    /// and the default where none could be read.
    pub fn get_config(user_config: Option<FileConfig>) -> (config: Self)
        ensures
            config == (match user_config {
                Some(read) => read,
                None => FileConfig { periodic_db_log_enabled: false, periodic_db_log_interval: 0 },
            }),
    {
        match user_config {
            Some(read) => read,
            None => FileConfig::default(),
        }
    }
}

} // verus!

use vstd::prelude::*;
use vstd::string::StringExecFns;
use crate::log_level::LogLevel;

verus! {

/// Name of the configuration file, which sits next to the game's executable.
pub const CONFIG_FILE_NAME: &'static str = "cardamom-loader.toml";

/// Text written to a new configuration file: no console, plugins folder
/// `cardamom`, log level `3` (`Info`), the settings of `Config::default()`.
pub const DEFAULT_CONFIG: &'static str = "console = false
plugins_folder_name = \"cardamom\"

# 0 Off | 1 Error | 2 Warn | 3 Info | 4 Debug | 5 Trace
log_level = 3
";

/// The loader's settings.
#[derive(Debug)]
pub struct Config {
    /// Whether to open a console window for the log.
    pub console: bool,
    /// Name of the folder, next to the executable, that holds the plugins.
    pub plugins_folder_name: String,
    /// Verbosity of the log.
    pub log_level: LogLevel,
}

/// Why no configuration could be read from the file.
#[derive(Debug)]
pub enum ConfigError {
    /// The file could not be read; the text describes why.
    Read(String),
    /// The file is not a well-formed configuration; the text describes why.
    Parse(String),
    /// The file names a log level above `5`.
    InvalidLogLevel(u8),
}

/// What loading the configuration settled on.
#[derive(Debug)]
pub struct LoadOutcome {
    /// The configuration to run with.
    pub config: Config,
    /// Set when the file could not be used: the loader then runs with the
    /// default configuration, opens the console, reports this error and writes
    /// a fresh default file.
    pub fallback: Option<ConfigError>,
}

/// The default settings: no console, plugins in `cardamom`, log level `Info`.
pub open spec fn is_default_config(c: Config) -> bool {
    &&& !c.console
    &&& c.plugins_folder_name@ == "cardamom"@
    &&& c.log_level == LogLevel::Info
}

impl Default for Config {
    fn default() -> (c: Self)
        ensures
            is_default_config(c),
    {
        Config {
            console: false,
            plugins_folder_name: String::from_str("cardamom"),
            log_level: LogLevel::default(),
        }
    }
}

impl Config {
    /// Builds the configuration from the three values the file holds, the log
    /// level still as its number; a number above `5` is refused.
    pub fn from_raw(console: bool, plugins_folder_name: String, log_level: u8) -> (r: Result<
        Config,
        ConfigError,
    >)
        ensures
            log_level <= 5 <==> r is Ok,
            r matches Ok(c) ==> {
                &&& c.console == console
                &&& c.plugins_folder_name == plugins_folder_name
                &&& c.log_level.spec_repr() == log_level
            },
            r matches Err(e) ==> e == ConfigError::InvalidLogLevel(log_level),
    {
        match LogLevel::from_repr(log_level) {
            Some(level) => Ok(Config { console, plugins_folder_name, log_level: level }),
            None => Err(ConfigError::InvalidLogLevel(log_level)),
        }
    }

    /// Settles on the configuration to run with, given what reading the file
    /// produced: a usable file is taken as it is; otherwise the default
    /// configuration is used and the error is kept so that the caller can
    /// report it and write a new default file.
    pub fn load_or_create_new(loaded: Result<Config, ConfigError>) -> (out: LoadOutcome)
        ensures
            match loaded {
                Ok(c) => out.config == c && out.fallback is None,
                Err(e) => is_default_config(out.config) && out.fallback == Some(e),
            },
    {
        match loaded {
            Ok(config) => LoadOutcome { config, fallback: None },
            Err(e) => LoadOutcome { config: Config::default(), fallback: Some(e) },
        }
    }
}

} // verus!

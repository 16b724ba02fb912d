use cardamom_loader::config::{Config, ConfigError, CONFIG_FILE_NAME, DEFAULT_CONFIG};
use cardamom_loader::log_level::LogLevel;

fn assert_default(c: &Config) {
    assert!(!c.console);
    assert_eq!(c.plugins_folder_name, "cardamom");
    assert_eq!(c.log_level, LogLevel::Info);
}

#[test]
fn default_config_values() {
    assert_default(&Config::default());
}

#[test]
fn default_config_text_reads_back_as_default() {
    let table: toml::Value = toml::from_str(DEFAULT_CONFIG).unwrap();
    let console = table.get("console").and_then(|v| v.as_bool()).unwrap();
    let folder = table.get("plugins_folder_name").and_then(|v| v.as_str()).unwrap();
    let level = table.get("log_level").and_then(|v| v.as_integer()).unwrap();
    assert_eq!(level, 3);
    let config = match Config::from_raw(console, folder.to_string(), level as u8) {
        Ok(c) => c,
        Err(e) => panic!("default text refused: {:?}", e),
    };
    assert_default(&config);
}

#[test]
fn default_config_text_documents_the_levels() {
    assert!(DEFAULT_CONFIG.contains("# 0 Off | 1 Error | 2 Warn | 3 Info | 4 Debug | 5 Trace"));
}

#[test]
fn config_file_name() {
    assert_eq!(CONFIG_FILE_NAME, "cardamom-loader.toml");
}

#[test]
fn from_raw_takes_the_values() {
    let c = Config::from_raw(true, "mods".to_string(), 5).unwrap();
    assert!(c.console);
    assert_eq!(c.plugins_folder_name, "mods");
    assert_eq!(c.log_level, LogLevel::Trace);
    let c = Config::from_raw(false, String::new(), 0).unwrap();
    assert_eq!(c.log_level, LogLevel::Off);
}

#[test]
fn from_raw_refuses_unknown_level() {
    match Config::from_raw(true, "mods".to_string(), 6) {
        Err(ConfigError::InvalidLogLevel(6)) => {}
        other => panic!("unexpected {:?}", other),
    }
}

#[test]
fn usable_file_is_taken_as_it_is() {
    let loaded = Config::from_raw(true, "mods".to_string(), 1);
    let out = Config::load_or_create_new(loaded);
    assert!(out.fallback.is_none());
    assert!(out.config.console);
    assert_eq!(out.config.plugins_folder_name, "mods");
    assert_eq!(out.config.log_level, LogLevel::Error);
}

#[test]
fn unreadable_file_falls_back_to_defaults() {
    let out = Config::load_or_create_new(Err(ConfigError::Read("not found".to_string())));
    assert_default(&out.config);
    match out.fallback {
        Some(ConfigError::Read(why)) => assert_eq!(why, "not found"),
        other => panic!("unexpected {:?}", other),
    }
}

#[test]
fn malformed_file_falls_back_to_defaults() {
    let out = Config::load_or_create_new(Err(ConfigError::Parse("bad".to_string())));
    assert_default(&out.config);
    assert!(matches!(out.fallback, Some(ConfigError::Parse(_))));
    let out = Config::load_or_create_new(Config::from_raw(true, "x".to_string(), 9));
    assert_default(&out.config);
    assert!(matches!(out.fallback, Some(ConfigError::InvalidLogLevel(9))));
}

use cardamom_loader::config::{Config, ConfigError, LoadOutcome};
use cardamom_loader::log_level::LogLevel;
use cardamom_loader::startup::{Action, Event, Startup};

fn describe(a: &Action) -> String {
    match a {
        Action::CheckAndMarkLoaded => "check".into(),
        Action::FindExeDir => "exe".into(),
        Action::LoadConfig => "config".into(),
        Action::EnableConsole(l) => format!("console {}", l.as_str()),
        Action::WriteDefaultConfig(_) => "write default".into(),
        Action::LoadOverrideDll => "override".into(),
        Action::LoadSystemDll => "system".into(),
        Action::InitExports => "init".into(),
        Action::ShowDinputError => "error".into(),
        Action::SetLogLevelEnv(l) => format!("env {}", l.as_str()),
        Action::LoadPlugins(f) => format!("plugins {}", f),
        Action::Finish => "finish".into(),
    }
}

fn drive(events: Vec<Event>) -> Vec<String> {
    let mut s = Startup::new();
    let mut out = Vec::new();
    for e in events {
        let (t, a) = s.step(e);
        out.push(describe(&a));
        s = t;
    }
    out
}

fn config(console: bool, folder: &str, level: u8) -> LoadOutcome {
    Config::load_or_create_new(Config::from_raw(console, folder.to_string(), level))
}

#[test]
fn fresh_start_with_override_dll() {
    let acts = drive(vec![
        Event::Begin,
        Event::LoadedFlag(false),
        Event::ExeDir(true),
        Event::ConfigLoaded(config(false, "cardamom", 3)),
        Event::DllLoaded(true),
        Event::Ack,
        Event::Ack,
        Event::Ack,
    ]);
    assert_eq!(
        acts,
        vec!["check", "exe", "config", "override", "init", "env INFO", "plugins cardamom", "finish"]
    );
}

#[test]
fn console_is_opened_with_the_configured_level() {
    let acts = drive(vec![
        Event::Begin,
        Event::LoadedFlag(false),
        Event::ExeDir(true),
        Event::ConfigLoaded(config(true, "mods", 4)),
        Event::Ack,
        Event::DllLoaded(false),
        Event::DllLoaded(true),
        Event::Ack,
        Event::Ack,
        Event::Ack,
    ]);
    assert_eq!(
        acts,
        vec![
            "check", "exe", "config", "console DEBUG", "override", "system", "init", "env DEBUG",
            "plugins mods", "finish"
        ]
    );
}

#[test]
fn already_loaded_skips_plugins() {
    let acts = drive(vec![
        Event::Begin,
        Event::LoadedFlag(true),
        Event::ExeDir(true),
        Event::ConfigLoaded(config(false, "cardamom", 3)),
        Event::DllLoaded(true),
        Event::Ack,
    ]);
    assert_eq!(acts, vec!["check", "exe", "config", "override", "init", "finish"]);
}

#[test]
fn no_dinput_at_all_is_reported() {
    let acts = drive(vec![
        Event::Begin,
        Event::LoadedFlag(false),
        Event::ExeDir(true),
        Event::ConfigLoaded(config(false, "cardamom", 3)),
        Event::DllLoaded(false),
        Event::DllLoaded(false),
        Event::Ack,
    ]);
    assert_eq!(acts, vec!["check", "exe", "config", "override", "system", "error", "finish"]);
}

#[test]
fn missing_exe_dir_loads_system_dll_only() {
    let acts = drive(vec![
        Event::Begin,
        Event::LoadedFlag(false),
        Event::ExeDir(false),
        Event::Ack,
        Event::DllLoaded(true),
    ]);
    assert_eq!(acts, vec!["check", "exe", "console INFO", "system", "finish"]);
    let acts = drive(vec![
        Event::Begin,
        Event::LoadedFlag(false),
        Event::ExeDir(false),
        Event::Ack,
        Event::DllLoaded(false),
        Event::Ack,
    ]);
    assert_eq!(acts, vec!["check", "exe", "console INFO", "system", "error", "finish"]);
}

#[test]
fn unexpected_report_ends_loading() {
    let acts = drive(vec![Event::Begin, Event::Ack, Event::Begin]);
    assert_eq!(acts, vec!["check", "finish", "finish"]);
    let (s, a) = Startup::new().step(Event::DllLoaded(true));
    assert!(matches!(s, Startup::Done));
    assert!(matches!(a, Action::Finish));
}

#[test]
fn default_console_level_is_info() {
    let (_, a) = Startup::AwaitExeDir { already_loaded: false }.step(Event::ExeDir(false));
    assert!(matches!(a, Action::EnableConsole(LogLevel::Info)));
}

#[test]
fn unusable_config_opens_console_and_writes_default() {
    let out = Config::load_or_create_new(Err(ConfigError::Parse("bad".to_string())));
    let acts = drive(vec![
        Event::Begin,
        Event::LoadedFlag(false),
        Event::ExeDir(true),
        Event::ConfigLoaded(out),
        Event::Ack,
        Event::Ack,
        Event::DllLoaded(true),
        Event::Ack,
        Event::Ack,
        Event::Ack,
    ]);
    assert_eq!(
        acts,
        vec![
            "check", "exe", "config", "console INFO", "write default", "override", "init",
            "env INFO", "plugins cardamom", "finish"
        ]
    );
}

#[test]
fn fallback_report_carries_the_error() {
    let out = Config::load_or_create_new(Err(ConfigError::Read("missing".to_string())));
    let (s, _) = Startup::AwaitConfig { already_loaded: false }.step(Event::ConfigLoaded(out));
    let (_, a) = s.step(Event::Ack);
    match a {
        Action::WriteDefaultConfig(ConfigError::Read(why)) => assert_eq!(why, "missing"),
        other => panic!("unexpected {:?}", other),
    }
}

use cardamom_loader::log_level::{LogLevel, LOG_LEVEL_ENV_VAR};

const ALL: [LogLevel; 6] = [
    LogLevel::Off,
    LogLevel::Error,
    LogLevel::Warn,
    LogLevel::Info,
    LogLevel::Debug,
    LogLevel::Trace,
];

#[test]
fn names_are_upper_case_level_names() {
    let names: Vec<&str> = ALL.iter().map(|l| l.as_str()).collect();
    assert_eq!(names, vec!["OFF", "ERROR", "WARN", "INFO", "DEBUG", "TRACE"]);
}

#[test]
fn numbers_follow_the_documented_scale() {
    let numbers: Vec<u8> = ALL.iter().map(|l| l.to_repr()).collect();
    assert_eq!(numbers, vec![0, 1, 2, 3, 4, 5]);
}

#[test]
fn number_round_trip() {
    for l in ALL {
        assert_eq!(LogLevel::from_repr(l.to_repr()), Some(l));
    }
    for n in 0u8..=5 {
        assert_eq!(LogLevel::from_repr(n).map(|l| l.to_repr()), Some(n));
    }
}

#[test]
fn numbers_above_five_name_no_level() {
    assert_eq!(LogLevel::from_repr(6), None);
    assert_eq!(LogLevel::from_repr(42), None);
    assert_eq!(LogLevel::from_repr(255), None);
}

#[test]
fn default_level_is_info() {
    assert_eq!(LogLevel::default(), LogLevel::Info);
    assert_eq!(LogLevel::default().to_repr(), 3);
}

#[test]
fn env_var_name() {
    assert_eq!(LOG_LEVEL_ENV_VAR, "CARDAMOM_LOG_LEVEL");
}

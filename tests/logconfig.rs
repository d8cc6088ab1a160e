use oysterpack_message::logconfig::{Level, LogConfig, LogConfigBuilder, Target};

#[test]
fn root_log_level_configured() {
    let config = LogConfigBuilder::new(Level::Info).build();
    assert_eq!(config.root_level(), Level::Info);
}

#[test]
fn default_log_config() {
    let config: LogConfig = Default::default();
    assert_eq!(config.root_level(), Level::Warn);
    assert!(config.target_levels().is_none());
}

#[test]
fn log_config_with_all_fields_configured() {
    let config = LogConfigBuilder::new(Level::Info)
        .target_level(Target::from_str("oysterpack_message"), Level::Info)
        .target_level(Target::from_str("a"), Level::Info)
        .target_level(Target::from_str("a"), Level::Warn)
        .target_level(Target::from_str("b"), Level::Error)
        .target_level(Target::from_str("c"), Level::Debug)
        .build();
    let mut levels: Vec<(String, Level)> = config
        .target_levels()
        .unwrap()
        .iter()
        .map(|(t, l)| (t.as_str().to_string(), *l))
        .collect();
    levels.sort();
    assert_eq!(
        levels,
        vec![
            ("a".to_string(), Level::Warn),
            ("b".to_string(), Level::Error),
            ("c".to_string(), Level::Debug),
            ("oysterpack_message".to_string(), Level::Info),
        ]
    );
}

#[test]
fn target_append() {
    let foo = Target::from_str("foo");
    let foo_bar = foo.append(Target::from_str("bar"));
    assert_eq!(Target::from_str("foo::bar"), foo_bar);
    assert_eq!(Target::new("x".to_string()).as_str(), "x");
}

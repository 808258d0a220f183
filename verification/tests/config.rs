use process_watch::config::{Config, ConfigError, ProcessSpec, RemoteSpec};

#[test]
fn empty_process_name_is_rejected() {
    let result = ProcessSpec::new(String::new(), vec!["-fullscreen".to_string()]);
    assert_eq!(result.err(), Some(ConfigError::EmptyProcessName));
}

#[test]
fn process_spec_keeps_name_and_arguments() {
    let spec = ProcessSpec::new(
        "game.exe".to_string(),
        vec!["-b".to_string(), "-a".to_string(), "-b".to_string()],
    )
    .unwrap();
    assert_eq!(spec.name(), "game.exe");
    assert_eq!(spec.required_arguments(), &vec!["-b".to_string(), "-a".to_string(), "-b".to_string()]);
}

#[test]
fn one_character_name_is_accepted() {
    let spec = ProcessSpec::new("x".to_string(), Vec::new()).unwrap();
    assert_eq!(spec.name(), "x");
    assert!(spec.required_arguments().is_empty());
}

#[test]
fn config_defaults_to_silent_start() {
    let process = ProcessSpec::new("game.exe".to_string(), Vec::new()).unwrap();
    let remote = RemoteSpec::new("host:1".to_string(), "/on".to_string(), "/off".to_string());
    let config = Config::new(process, remote, 0);
    assert!(!config.notify_on_start);
    assert_eq!(config.poll_interval_seconds, 0);
    assert_eq!(config.process.name(), "game.exe");
    assert_eq!(config.remote.host, "host:1");
    assert_eq!(config.remote.on_path, "/on");
    assert_eq!(config.remote.off_path, "/off");
    let loud = config.with_notify_on_start(true);
    assert!(loud.notify_on_start);
    assert_eq!(loud.poll_interval_seconds, 0);
    assert_eq!(loud.remote.host, "host:1");
    assert!(!loud.with_notify_on_start(false).notify_on_start);
}

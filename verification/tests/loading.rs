use deskscope::config::{load_config, Config, LoadAction, LoadEvent};

fn message(action: LoadAction) -> String {
    match action {
        LoadAction::GiveUp(message) => message,
        _ => panic!("did not give up"),
    }
}

#[test]
fn omitted_seconds_are_zero() {
    assert_eq!(
        Config::from_file("/p".to_string(), None).power_off_after_secs,
        0
    );
    let config = Config::from_file("/p".to_string(), Some(30));
    assert_eq!(config.power_off_after_secs, 30);
    assert_eq!(config.photo_directory, "/p");
}

#[test]
fn a_file_that_exists_is_read() {
    assert!(matches!(
        load_config("/etc/d.toml", LoadEvent::Looked(true)),
        LoadAction::Read
    ));
}

#[test]
fn a_missing_file_is_reported() {
    assert_eq!(
        message(load_config("/etc/d.toml", LoadEvent::Looked(false))),
        "Config file not found: /etc/d.toml\n  Create it or omit --config to use defaults."
    );
}

#[test]
fn contents_are_parsed() {
    match load_config("x", LoadEvent::WasRead(Ok("a = 1".to_string()))) {
        LoadAction::Parse(contents) => assert_eq!(contents, "a = 1"),
        _ => panic!("did not parse"),
    }
}

#[test]
fn an_unreadable_file_is_reported() {
    assert_eq!(
        message(load_config(
            "/etc/d.toml",
            LoadEvent::WasRead(Err("permission denied".to_string()))
        )),
        "Failed to read config file /etc/d.toml: permission denied"
    );
}

#[test]
fn a_parsed_configuration_starts_the_program() {
    let config = Config::from_file("/p".to_string(), Some(3));
    match load_config("x", LoadEvent::Parsed(Ok(config))) {
        LoadAction::Start(config) => {
            assert_eq!(config.photo_directory, "/p");
            assert_eq!(config.power_off_after_secs, 3);
        }
        _ => panic!("did not start"),
    }
}

#[test]
fn a_malformed_file_is_reported() {
    assert_eq!(
        message(load_config(
            "/etc/d.toml",
            LoadEvent::Parsed(Err("missing field".to_string()))
        )),
        "Failed to parse config file /etc/d.toml: missing field"
    );
}

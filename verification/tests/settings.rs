use chattor::config::settings::Settings;

#[test]
fn test_default_settings_creation() {
    let settings = Settings::default_for_home("/home/user");
    assert_eq!(settings.config_dir, "/home/user/.config/chattor");
    assert_eq!(settings.data_dir, "/home/user/.local/share/chattor");
}

#[test]
fn test_default_settings_values() {
    let settings = Settings::default_for_home("/home/user");
    assert_eq!(settings.debug, false);
    assert_eq!(settings.tor_socks_port, 9050);
    assert!(settings.config_dir.contains("chattor"));
}

#[test]
fn test_db_path_in_data_dir() {
    let settings = Settings::default_for_home("/home/user");
    assert!(settings.db_path.starts_with(&settings.data_dir));
    assert!(settings.db_path.ends_with("/messages.db"));
}

#[test]
fn home_with_trailing_slash() {
    let settings = Settings::default_for_home("/root/");
    assert_eq!(settings.config_dir, "/root/.config/chattor");
    assert_eq!(settings.db_path, "/root/.local/share/chattor/messages.db");
}

#[test]
fn missing_home_is_not_found() {
    match chattor::config::settings::Settings::default(None) {
        Err(chattor::ChattorError::Io(e)) => assert_eq!(e.kind(), std::io::ErrorKind::NotFound),
        other => panic!("{:?}", other.is_ok()),
    }
}

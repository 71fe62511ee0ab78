use virex::config::{config_dir, device_path, settings_path, APP_ID};

#[test]
fn config_paths() {
    assert_eq!(config_dir(Some("/Users/a/Library/Application Support".to_string())), vec![
        "/Users/a/Library/Application Support".to_string(),
        APP_ID.to_string(),
    ]);
    assert_eq!(settings_path(None), vec![".".to_string(), "com.virex.app".to_string(), "settings.toml".to_string()]);
    assert_eq!(device_path(None)[2], "device-id");
}

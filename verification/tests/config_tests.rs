use vjmapper::config::{Theme, UserConfig, DEFAULT_UI_SCALE};

#[test]
fn test_default_config() {
    let config = UserConfig::default();
    assert_eq!(config.language, "en");
    assert!(config.recent_files.is_empty());
}

#[test]
fn default_config_scale_and_theme() {
    let config = UserConfig::default();
    assert_eq!(config.ui_scale.map(f32::from_bits), Some(1.0));
    assert_eq!(config.ui_scale, Some(DEFAULT_UI_SCALE));
    assert_eq!(config.theme, Some(Theme::Dark));
    assert!(config.last_project.is_none());
}

#[test]
fn set_language_changes_only_language() {
    let mut config = UserConfig::default();
    config.set_language("de");
    assert_eq!(config.language, "de");
    assert!(config.recent_files.is_empty());
}

#[test]
fn recent_files_most_recent_first_without_duplicates() {
    let mut config = UserConfig::default();
    config.add_recent_file("a.mp4");
    config.add_recent_file("b.mp4");
    config.add_recent_file("a.mp4");
    assert_eq!(config.recent_files, vec!["a.mp4".to_string(), "b.mp4".to_string()]);
    config.add_recent_file("a.mp4");
    assert_eq!(config.recent_files, vec!["a.mp4".to_string(), "b.mp4".to_string()]);
}

#[test]
fn recent_files_keep_at_most_ten() {
    let mut config = UserConfig::default();
    for i in 0..15 {
        config.add_recent_file(&format!("file{}.mp4", i));
    }
    assert_eq!(config.recent_files.len(), 10);
    assert_eq!(config.recent_files[0], "file14.mp4");
    assert_eq!(config.recent_files[9], "file5.mp4");
    config.add_recent_file("file9.mp4");
    assert_eq!(config.recent_files.len(), 10);
    assert_eq!(config.recent_files[0], "file9.mp4");
    assert_eq!(config.recent_files[9], "file5.mp4");
}

use dreamcanvas_shell::{normalize_settings, AppSettings, SettingsManager};

fn manager_with(url: Option<&str>) -> SettingsManager {
    let mut m = SettingsManager::new("/tmp/ui-settings.json".to_string(), None);
    m.update(AppSettings { web_app_url: url.map(|u| u.to_string()), auto_open: false });
    m
}

#[test]
fn update_trims_url() {
    let m = manager_with(Some("  https://x  "));
    assert_eq!(m.current().web_app_url, Some("https://x".to_string()));
}

#[test]
fn update_with_empty_url_clears_it() {
    let m = manager_with(Some(""));
    assert_eq!(m.current().web_app_url, None);
}

#[test]
fn update_with_blank_url_clears_it() {
    let m = manager_with(Some(" \t\n "));
    assert_eq!(m.current().web_app_url, None);
}

#[test]
fn update_keeps_auto_open_and_path() {
    let mut m = SettingsManager::new("/tmp/a.json".to_string(), None);
    m.update(AppSettings { web_app_url: None, auto_open: true });
    assert!(m.current().auto_open);
    assert_eq!(m.current().web_app_url, None);
    assert_eq!(m.path(), "/tmp/a.json");
}

#[test]
fn new_without_stored_settings_uses_defaults() {
    let m = SettingsManager::new("/tmp/b.json".to_string(), None);
    let s = m.current();
    assert_eq!(s.web_app_url, None);
    assert!(!s.auto_open);
}

#[test]
fn new_keeps_stored_settings() {
    let stored = AppSettings { web_app_url: Some("http://h:1".to_string()), auto_open: true };
    let m = SettingsManager::new("/tmp/c.json".to_string(), Some(stored));
    let s = m.current();
    assert_eq!(s.web_app_url, Some("http://h:1".to_string()));
    assert!(s.auto_open);
}

#[test]
fn open_web_app_without_url_fails() {
    let m = SettingsManager::new("/tmp/d.json".to_string(), None);
    assert_eq!(m.open_web_app(), Err("no web app URL is configured".to_string()));
}

#[test]
fn open_web_app_gives_configured_url() {
    let m = manager_with(Some(" https://app.example "));
    assert_eq!(m.open_web_app(), Ok("https://app.example".to_string()));
}

#[test]
fn normalize_keeps_inner_spaces() {
    let s = normalize_settings(AppSettings {
        web_app_url: Some("\u{3000}a b\u{a0}".to_string()),
        auto_open: false,
    });
    assert_eq!(s.web_app_url, Some("a b".to_string()));
}

#[test]
fn settings_file_under_config_dir() {
    assert_eq!(
        dreamcanvas_shell::settings_file("/home/u/.config"),
        "/home/u/.config/DreamCanvas/ui-settings.json"
    );
}

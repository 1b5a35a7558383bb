use ephemeral_browser::config::{
    config_place, BrowserKind, Config, ConfigPlace, SearchEngine, Theme, Toolbar, ToolbarTab, CONFIG_DIR_NAME,
    CONFIG_FILE_NAME,
};

fn tab(label: &str, url: &str) -> ToolbarTab {
    ToolbarTab { label: label.to_string(), url: url.to_string() }
}

#[test]
fn theme_ids_match_firefox_add_ons() {
    assert_eq!(Theme::Dark.firefox_theme_id(), "firefox-compact-dark@mozilla.org");
    assert_eq!(Theme::Light.firefox_theme_id(), "firefox-compact-light@mozilla.org");
    assert_eq!(Theme::Default.firefox_theme_id(), "default-theme@mozilla.org");
}

#[test]
fn defaults_match_the_readme() {
    let cfg = Config::default();
    assert_eq!(cfg.homepage, None);
    assert_eq!(cfg.homepage_url(), "https://duckduckgo.com");
    assert_eq!(cfg.search_engine.as_str(), "DuckDuckGo");
    assert_eq!(cfg.theme, Theme::Dark);
    assert_eq!(cfg.browser, BrowserKind::Firefox);
    assert_eq!(cfg.browser_path, None);
    assert!(!cfg.toolbar.enabled);
    assert!(cfg.toolbar.tabs.is_empty());
    assert!(!cfg.toolbar.should_show());
}

#[test]
fn homepage_set_to_empty_stays_empty() {
    let mut cfg = Config::default();
    cfg.homepage = Some(String::new());
    assert_eq!(cfg.homepage_url(), "");
    cfg.homepage = Some("https://example.com".to_string());
    assert_eq!(cfg.homepage_url(), "https://example.com");
}

#[test]
fn toolbar_shows_only_when_enabled_with_tabs() {
    let mut t = Toolbar::default();
    assert!(!t.should_show());
    t.enabled = true;
    assert!(!t.should_show());
    t.tabs.push(tab("YouTube", "https://www.youtube.com"));
    assert!(t.should_show());
    t.enabled = false;
    assert!(!t.should_show());
}

#[test]
fn browser_kind_names() {
    assert_eq!(BrowserKind::Firefox.name(), "firefox");
    assert_eq!(BrowserKind::Chromium.name(), "chromium");
    assert_eq!(BrowserKind::Chrome.name(), "chrome");
    assert_eq!(BrowserKind::default(), BrowserKind::Firefox);
    assert_eq!(Theme::default(), Theme::Dark);
}

#[test]
fn search_engine_name() {
    assert_eq!(SearchEngine::new("Startpage".to_string()).as_str(), "Startpage");
    assert_eq!(SearchEngine::default().as_str(), "DuckDuckGo");
}

#[test]
fn config_search_order() {
    assert_eq!(CONFIG_FILE_NAME, "config.toml");
    assert_eq!(CONFIG_DIR_NAME, "ephemeral-browser");
    assert_eq!(config_place(Some(true), true, Some(true)), Some(ConfigPlace::NextToExecutable));
    assert_eq!(config_place(Some(false), true, Some(true)), Some(ConfigPlace::WorkingDirectory));
    assert_eq!(config_place(None, true, None), Some(ConfigPlace::WorkingDirectory));
    assert_eq!(config_place(None, false, Some(true)), Some(ConfigPlace::OsConfigDir));
    assert_eq!(config_place(Some(false), false, Some(false)), None);
    assert_eq!(config_place(None, false, None), None);
}

#[test]
fn config_spellings() {
    for k in [BrowserKind::Firefox, BrowserKind::Chromium, BrowserKind::Chrome] {
        assert_eq!(BrowserKind::from_name(k.name()), Some(k));
    }
    assert_eq!(BrowserKind::from_name("Firefox"), None);
    assert_eq!(BrowserKind::from_name("chrom"), None);
    assert_eq!(Theme::from_name("dark"), Some(Theme::Dark));
    assert_eq!(Theme::from_name("light"), Some(Theme::Light));
    assert_eq!(Theme::from_name("default"), Some(Theme::Default));
    assert_eq!(Theme::from_name(""), None);
}

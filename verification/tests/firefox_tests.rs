use ephemeral_browser::browser::firefox::{
    UBLOCK_XPI_CACHE_NAME, UBLOCK_XPI_NAME, UBLOCK_XPI_URL,
};
use ephemeral_browser::browser::{BrowserError, Firefox};
use ephemeral_browser::config::{BrowserKind, Config, SearchEngine, Theme, ToolbarTab};

fn expected_user_js(cfg: &Config) -> String {
    let search_engine = cfg.search_engine.as_str();
    let homepage = cfg.homepage_url();
    let startup_page: u8 = if homepage.is_empty() { 0 } else { 1 };
    let theme_id = cfg.theme.firefox_theme_id();
    let toolbar_visibility = if cfg.toolbar.should_show() { "always" } else { "never" };
        let prefs = format!(
            r#"// Set default search engine
user_pref("browser.search.defaultenginename", "{search_engine}");
user_pref("browser.search.selectedEngine", "{search_engine}");
user_pref("browser.newtabpage.activity-stream.improvesearch.handoffToAwesomebar", false);
user_pref("browser.urlbar.placeholderName", "{search_engine}");
user_pref("browser.urlbar.update2.engineAliasRefresh", true);

// Use theme
user_pref("extensions.activeThemeID", "{theme_id}");

// Auto-enable extensions without prompts
user_pref("extensions.autoDisableScopes", 0);
user_pref("extensions.enabledScopes", 15);

// Allow uBlock Origin in private windows
user_pref("extensions.webextensions.uBlock0@raymondhill.net.privateBrowsingAllowed", true);

// Disable privacy notice tab on first run
user_pref("datareporting.policy.firstRunURL", "");
user_pref("browser.startup.homepage_override.mstone", "ignore");

// Disable surveys
user_pref("app.shield.optoutstudies.enabled", false);
user_pref("browser.newtabpage.activity-stream.asrouter.userprefs.cfr.addons", false);
user_pref("browser.newtabpage.activity-stream.asrouter.userprefs.cfr.features", false);

// Disable new tab page clutter
user_pref("browser.newtabpage.activity-stream.feeds.section.topstories", false);
user_pref("browser.newtabpage.activity-stream.showSponsored", false);
user_pref("browser.newtabpage.activity-stream.showSponsoredTopSites", false);
user_pref("browser.newtabpage.activity-stream.feeds.topsites", false);
user_pref("browser.newtabpage.activity-stream.feeds.section.highlights", false);
user_pref("browser.newtabpage.activity-stream.feeds.section.recentActivity", false);
user_pref("browser.newtabpage.activity-stream.feeds.snippets", false);

// Disable telemetry and data collection
user_pref("datareporting.healthreport.uploadEnabled", false);
user_pref("datareporting.policy.dataSubmissionEnabled", false);
user_pref("toolkit.telemetry.enabled", false);
user_pref("toolkit.telemetry.unified", false);
user_pref("toolkit.telemetry.archive.enabled", false);

// Bookmarks toolbar
user_pref("browser.toolbars.bookmarks.visibility", "{toolbar_visibility}");

// Import bookmarks from HTML
user_pref("browser.places.importBookmarksHTML", true);

// Enable userChrome.css customization
user_pref("toolkit.legacyUserProfileCustomizations.stylesheets", true);

// Set homepage
user_pref("browser.startup.homepage", "{homepage}");
user_pref("browser.startup.page", {startup_page});
"#,
        );

    prefs
}

#[test]
fn user_js_matches_the_profile_format() {
    let mut cfg = Config::default();
    for theme in [Theme::Dark, Theme::Light, Theme::Default] {
        for homepage in [None, Some(String::new()), Some("https://example.com".to_string())] {
            for show in [false, true] {
                cfg.theme = theme;
                cfg.homepage = homepage.clone();
                cfg.toolbar.enabled = show;
                cfg.toolbar.tabs = vec![ToolbarTab { label: "a".into(), url: "https://a".into() }];
                assert_eq!(Firefox::user_js(&cfg), expected_user_js(&cfg));
            }
        }
    }
    cfg.search_engine = SearchEngine::new("Startpage".to_string());
    cfg.homepage = Some(String::new());
    let js = Firefox::user_js(&cfg);
    assert_eq!(js, expected_user_js(&cfg));
    assert!(js.contains("user_pref(\"browser.search.defaultenginename\", \"Startpage\");"));
    assert!(js.ends_with("user_pref(\"browser.startup.homepage\", \"\");\nuser_pref(\"browser.startup.page\", 0);\n"));
}

#[test]
fn launch_args_carry_profile_and_urls() {
    let cfg = Config::default();
    let mut f = Firefox::default();
    assert_eq!(f.launch_args(&[]), Err(BrowserError::ProfileNotSetUp));
    f.start_profile("/tmp/ff".to_string(), &cfg);
    assert_eq!(f.profile_dir(), Ok("/tmp/ff"));
    let urls = vec!["https://example.com".to_string()];
    assert_eq!(
        f.launch_args(&urls).unwrap(),
        vec!["-no-remote".to_string(), "-profile".to_string(), "/tmp/ff".to_string(), "https://example.com".to_string()]
    );
}

#[test]
fn binary_lookup() {
    let mut cfg = Config::default();
    let mut f = Firefox::default();
    assert_eq!(f.binary_names(), vec!["firefox"]);
    assert_eq!(f.pick_binary(&[None]), Err(BrowserError::NotFoundInPath(BrowserKind::Firefox)));
    assert_eq!(f.pick_binary(&[Some("/usr/bin/firefox".into())]), Ok("/usr/bin/firefox".to_string()));
    cfg.browser_path = Some("/opt/firefox/firefox".to_string());
    f.start_profile("/tmp/ff".to_string(), &cfg);
    assert_eq!(f.pick_binary(&[Some("/usr/bin/firefox".into())]), Ok("/opt/firefox/firefox".to_string()));
}

#[test]
fn add_on_locations_and_style() {
    assert_eq!(UBLOCK_XPI_URL, "https://addons.mozilla.org/firefox/downloads/latest/ublock-origin/latest.xpi");
    assert_eq!(UBLOCK_XPI_NAME, "uBlock0@raymondhill.net.xpi");
    assert_eq!(UBLOCK_XPI_CACHE_NAME, "ublock-origin.xpi");
    let css = Firefox::user_chrome_css();
    assert!(css.starts_with("/* Dark purple toolbar to distinguish ephemeral-browser */\n:root {"));
    assert!(css.contains("#PersonalToolbar {\n    background-color: var(--ephemeral-purple) !important;\n}\n"));
}

use ephemeral_browser::browser::chromium::{
    chromium_bookmarks, extension_id_from_sha256sum, parse_release_assets, theme_manifest, ublock_lite_zip_url,
    ublock_lite_zip_url_from_release, ReleaseAsset,
};
use ephemeral_browser::browser::{BrowserError, Chromium};
use ephemeral_browser::config::{BrowserKind, Config, Theme, ToolbarTab};

fn expected_preferences(cfg: &Config, theme_ext_id: Option<String>) -> String {
    let homepage = cfg.homepage_url();
    let restore_on_startup = if homepage.is_empty() { 5 } else { 4 };
    let dark_mode = matches!(cfg.theme, Theme::Dark);
    let startup_urls = if homepage.is_empty() {
        String::new()
    } else {
        format!(r#""startup_urls": ["{homepage}"],"#)
    };
    let extensions_theme_id = theme_ext_id.as_deref().unwrap_or("user_color_theme_id");
    const PURPLE_ARGB: i32 = -7208705;
    let prefs = format!(
            r#"{{
    "bookmark_bar": {{
        "show_on_all_tabs": {show_bookmarks}
    }},
    "browser": {{
        "check_default_browser": false,
        "has_seen_welcome_page": true,
        "theme": {{
            "color_scheme2": 2,
            "color_variant2": 1,
            "user_color2": {PURPLE_ARGB}
        }}
    }},
    "extensions": {{
        "theme": {{
            "id": "{extensions_theme_id}",
            "system_theme": 0
        }}
    }},
    "session": {{
        "restore_on_startup": {restore_on_startup},
        {startup_urls}
        "dummy": true
    }},
    "sync_promo": {{
        "user_skipped": true
    }},
    "first_run_tabs": [],
    "homepage": "{homepage}",
    "homepage_is_newtabpage": false,
    "ntp": {{
        "shortcut_visible": false
    }},
    "webkit": {{
        "webprefs": {{
            "dark_mode_enabled": {dark_mode}
        }}
    }}
}}"#,
            show_bookmarks = cfg.toolbar.should_show(),
        );
    prefs
}

fn expected_bookmarks(cfg: &Config) -> String {
    let mut children = String::new();
    for (i, tab) in cfg.toolbar.tabs.iter().enumerate() {
        if i > 0 {
            children.push_str(",\n");
        }
        children.push_str(&format!(
            r#"            {{
                "name": "{}",
                "type": "url",
                "url": "{}"
            }}"#,
            tab.label, tab.url,
        ));
    }

    let bookmarks = format!(
        r#"{{
    "roots": {{
        "bookmark_bar": {{
            "children": [
{children}
            ],
            "name": "Bookmarks bar",
            "type": "folder"
        }},
        "other": {{
            "children": [],
            "name": "Other bookmarks",
            "type": "folder"
        }},
        "synced": {{
            "children": [],
            "name": "Mobile bookmarks",
            "type": "folder"
        }}
    }},
    "version": 1
}}"#,
    );

    bookmarks
}

fn expected_extension_id(stdout: &[u8]) -> Option<String> {
    let stdout = std::str::from_utf8(stdout).ok()?;
    let hex = stdout.get(..32)?;
    Some(
        hex.chars()
            .map(|c| {
                let n = c.to_digit(16).unwrap_or(0) as u8;
                (b'a' + n) as char
            })
            .collect(),
    )
}

fn tab(label: &str, url: &str) -> ToolbarTab {
    ToolbarTab { label: label.to_string(), url: url.to_string() }
}

#[test]
fn preferences_match_the_profile_format() {
    let mut cfg = Config::default();
    for theme in [Theme::Dark, Theme::Light, Theme::Default] {
        for homepage in [None, Some(String::new()), Some("https://example.com".to_string())] {
            for id in [None, Some("abcdefghijklmnopabcdefghijklmnop".to_string())] {
                cfg.theme = theme;
                cfg.homepage = homepage.clone();
                assert_eq!(
                    Chromium::preferences(&cfg, id.as_deref()),
                    expected_preferences(&cfg, id.clone())
                );
            }
        }
    }
    cfg.homepage = None;
    cfg.toolbar.enabled = true;
    cfg.toolbar.tabs.push(tab("a", "https://a"));
    let prefs = Chromium::preferences(&cfg, None);
    assert_eq!(prefs, expected_preferences(&cfg, None));
    assert!(prefs.contains("\"show_on_all_tabs\": true"));
    assert!(prefs.contains("\"restore_on_startup\": 4,\n        \"startup_urls\": [\"https://duckduckgo.com\"],"));
    assert!(prefs.contains("\"id\": \"user_color_theme_id\""));
}

#[test]
fn empty_homepage_opens_new_tab_page() {
    let mut cfg = Config::default();
    cfg.homepage = Some(String::new());
    let prefs = Chromium::preferences(&cfg, None);
    assert!(prefs.contains("\"restore_on_startup\": 5,"));
    assert!(!prefs.contains("startup_urls"));
}

#[test]
fn chromium_bookmarks_match_the_profile_format() {
    let mut cfg = Config::default();
    assert_eq!(chromium_bookmarks(&cfg), expected_bookmarks(&cfg));
    cfg.toolbar.tabs.push(tab("YouTube", "https://www.youtube.com"));
    assert_eq!(chromium_bookmarks(&cfg), expected_bookmarks(&cfg));
    cfg.toolbar.tabs.push(tab("AliExpress", "https://www.aliexpress.com"));
    cfg.toolbar.tabs.push(tab("Third", "https://third"));
    assert_eq!(chromium_bookmarks(&cfg), expected_bookmarks(&cfg));
}

#[test]
fn extension_ids_from_sha256sum_output() {
    let out = b"b5bb9d8014a0f9b1d61e21e796d78dccdf1352f23cd32812f4850b878ae4944c  -\n";
    assert_eq!(extension_id_from_sha256sum(out), Some("lflljniabekapjlbngbocbohjgnhinmm".to_string()));
    assert_eq!(extension_id_from_sha256sum(out), expected_extension_id(out));
    let upper = b"B5BB9D8014A0F9B1D61E21E796D78DCCDF1352F2";
    assert_eq!(extension_id_from_sha256sum(upper), Some("lflljniabekapjlbngbocbohjgnhinmm".to_string()));
    let cases: Vec<Vec<u8>> = vec![
        b"".to_vec(),
        b"0123456789abcdef0123456789abcde".to_vec(),
        b"0123456789abcdef0123456789abcdef".to_vec(),
        b"zz23456789abcdef0123456789abcdefXYZ".to_vec(),
        [b"0123456789abcdef0123456789abcde".as_slice(), "é".as_bytes()].concat(),
        [b"0123456789abcdef0123456789abcd".as_slice(), "é".as_bytes(), b"rest"].concat(),
        vec![0xff; 40],
        [b"0123456789abcdef0123456789abcdef".as_slice(), &[0xff]].concat(),
    ];
    for c in &cases {
        assert_eq!(extension_id_from_sha256sum(c), expected_extension_id(c), "input {c:?}");
    }
    assert_eq!(extension_id_from_sha256sum(&cases[1]), None);
    assert_eq!(extension_id_from_sha256sum(&cases[4]), None);
    assert_eq!(extension_id_from_sha256sum(&cases[7]), None);
}

#[test]
fn launch_args_carry_profile_extensions_and_urls() {
    let cfg = Config::default();
    let mut c = Chromium::new(BrowserKind::Chromium);
    assert_eq!(c.launch_args(&[]), Err(BrowserError::ProfileNotSetUp));
    assert_eq!(c.profile_dir(), Err(BrowserError::ProfileNotSetUp));
    c.start_profile("/tmp/p".to_string(), &cfg);
    assert_eq!(c.profile_dir(), Ok("/tmp/p"));
    let fixed = [
        "--no-first-run",
        "--no-default-browser-check",
        "--disable-background-networking",
        "--disable-component-update",
        "--disable-sync",
        "--disable-domain-reliability",
        "--disable-breakpad",
        "--disable-search-engine-choice-screen",
        "--disable-field-trial-config",
        "--metrics-recording-only",
        "--disable-features=OptimizationHints",
    ];
    let mut expected: Vec<String> = vec!["--user-data-dir=/tmp/p".to_string()];
    expected.extend(fixed.iter().map(|s| s.to_string()));
    assert_eq!(c.launch_args(&[]).unwrap(), expected);

    c.set_theme_dir("/tmp/p/ephemeral-theme".to_string());
    let mut with_theme = expected.clone();
    with_theme.push("--load-extension=/tmp/p/ephemeral-theme".to_string());
    assert_eq!(c.launch_args(&[]).unwrap(), with_theme);

    c.set_ublock_dir("/cache/ubol".to_string());
    let urls = vec!["https://example.com".to_string(), "--new-window".to_string()];
    let mut both = expected.clone();
    both.push("--load-extension=/cache/ubol,/tmp/p/ephemeral-theme".to_string());
    both.extend(urls.iter().cloned());
    assert_eq!(c.launch_args(&urls).unwrap(), both);
    assert_eq!(c.theme_dir(), Some("/tmp/p/ephemeral-theme"));
}

#[test]
fn binary_lookup_order() {
    let mut cfg = Config::default();
    let chrome = Chromium::new(BrowserKind::Chrome);
    assert_eq!(chrome.binary_names(), vec!["google-chrome-stable", "google-chrome"]);
    let mut chromium = Chromium::new(BrowserKind::Chromium);
    assert_eq!(chromium.binary_names(), vec!["chromium", "chromium-browser"]);
    assert_eq!(chromium.pick_binary(&[None, None]), Err(BrowserError::NotFoundInPath(BrowserKind::Chromium)));
    assert_eq!(chromium.pick_binary(&[]), Err(BrowserError::NotFoundInPath(BrowserKind::Chromium)));
    assert_eq!(
        chromium.pick_binary(&[None, Some("/usr/bin/chromium-browser".into()), Some("/x".into())]),
        Ok("/usr/bin/chromium-browser".to_string())
    );
    cfg.browser_path = Some("/opt/chromium/chrome".to_string());
    chromium.start_profile("/tmp/q".to_string(), &cfg);
    assert_eq!(chromium.pick_binary(&[Some("/usr/bin/chromium".into())]), Ok("/opt/chromium/chrome".to_string()));
}

#[test]
fn ublock_lite_asset_selection() {
    let asset = |n: Option<&str>, u: Option<&str>| ReleaseAsset {
        name: n.map(|s| s.to_string()),
        download_url: u.map(|s| s.to_string()),
    };
    assert_eq!(ublock_lite_zip_url(None), Err(BrowserError::NoReleaseAssets));
    assert_eq!(ublock_lite_zip_url(Some(&vec![])), Err(BrowserError::ChromiumZipNotFound));
    let assets = vec![
        asset(Some("uBOLite_2025.1.firefox.zip"), Some("https://f")),
        asset(Some("uBOLite_2025.1.chromium.mv3.zip"), None),
        asset(None, Some("https://nameless")),
        asset(Some("uBOLite_2025.1.chromium.crx"), Some("https://crx")),
        asset(Some("uBOLite_2025.1.chromium.zip"), Some("https://chromium-zip")),
        asset(Some("another.chromium.zip"), Some("https://second")),
    ];
    assert_eq!(ublock_lite_zip_url(Some(&assets)), Ok("https://chromium-zip".to_string()));
    let first_four: Vec<ReleaseAsset> = assets.into_iter().take(4).collect();
    assert_eq!(ublock_lite_zip_url(Some(&first_four)), Err(BrowserError::ChromiumZipNotFound));
}

#[test]
fn theme_manifest_colours() {
    let m = theme_manifest();
    assert!(m.starts_with("{\n    \"manifest_version\": 2,"));
    assert!(m.contains("\"frame\": [45, 27, 78],"));
    assert!(m.ends_with("    }\n}"));
}

#[test]
fn ublock_lite_url_from_release_text() {
    let body = r#"{
        "tag_name": "2025.1",
        "assets": [
            {"name": "uBOLite_2025.1.firefox.zip", "browser_download_url": "https://f"},
            {"name": 7, "browser_download_url": "https://number-name"},
            {"name": "uBOLite_2025.1.chromium.zip", "browser_download_url": "https://chromium-zip"},
            {"name": "later.chromium.zip", "browser_download_url": "https://later"}
        ]
    }"#;
    assert_eq!(ublock_lite_zip_url_from_release(body), Ok("https://chromium-zip".to_string()));
    assert_eq!(ublock_lite_zip_url_from_release("not json"), Err(BrowserError::InvalidReleaseJson));
    assert_eq!(ublock_lite_zip_url_from_release(r#"{"assets": 3}"#), Err(BrowserError::NoReleaseAssets));
    assert_eq!(ublock_lite_zip_url_from_release(r#"{}"#), Err(BrowserError::NoReleaseAssets));
    assert_eq!(
        ublock_lite_zip_url_from_release(r#"{"assets": [{"name": "a.chromium.zip"}]}"#),
        Err(BrowserError::ChromiumZipNotFound)
    );
    match parse_release_assets(body) {
        Some(Some(assets)) => {
            assert_eq!(assets.len(), 4);
            assert_eq!(assets[1].name, None);
            assert_eq!(assets[1].download_url.as_deref(), Some("https://number-name"));
            assert_eq!(assets[2].name.as_deref(), Some("uBOLite_2025.1.chromium.zip"));
        }
        _ => panic!("expected an asset list"),
    }
}

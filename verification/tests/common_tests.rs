use ephemeral_browser::browser::common::{
    bookmarks_html, html_escape, is_profile_candidate, is_stale_profile, needs_download, parse_pid,
    pid_file_contents, proc_entry_path, CachedFile, PID_FILE_NAME,
};
use ephemeral_browser::config::{Config, ToolbarTab};

fn expected_escape(s: &str) -> String {
    s.replace('&', "&amp;").replace('<', "&lt;").replace('>', "&gt;").replace('"', "&quot;")
}

#[test]
fn html_escape_replaces_markup() {
    assert_eq!(html_escape("a & b"), "a &amp; b");
    assert_eq!(html_escape("<b>\"x\"</b>"), "&lt;b&gt;&quot;x&quot;&lt;/b&gt;");
    assert_eq!(html_escape("&amp;"), "&amp;amp;");
    assert_eq!(html_escape(""), "");
    assert_eq!(html_escape("plain text é"), "plain text é");
    for s in ["it's", "a<b>c&d\"e", "&&<<>>\"\"", "ünïcødé <tag>", "'single'"] {
        assert_eq!(html_escape(s), expected_escape(s));
        assert!(!html_escape(s).contains('<'));
        assert!(!html_escape(s).contains('>'));
        assert!(!html_escape(s).contains('"'));
    }
}

#[test]
fn html_escape_of_concatenation() {
    let a = "x<y";
    let b = "\"&z";
    assert_eq!(html_escape(&format!("{a}{b}")), format!("{}{}", html_escape(a), html_escape(b)));
}

fn expected_bookmarks(tabs: &[ToolbarTab]) -> String {
    let mut f = String::new();
    f.push_str(
        r#"<!DOCTYPE NETSCAPE-Bookmark-file-1>
<META HTTP-EQUIV="Content-Type" CONTENT="text/html; charset=UTF-8">
<TITLE>Bookmarks</TITLE>
<H1>Bookmarks Menu</H1>
<DL><p>
    <DT><H3 ADD_DATE="1" LAST_MODIFIED="1" PERSONAL_TOOLBAR_FOLDER="true">Bookmarks Toolbar</H3>
    <DL><p>
"#,
    );
    for tab in tabs {
        f.push_str(&format!(
            "        <DT><A HREF=\"{}\">{}</A>\n",
            expected_escape(&tab.url),
            expected_escape(&tab.label),
        ));
    }
    f.push_str(
        r#"    </DL><p>
</DL><p>
"#,
    );
    f
}

#[test]
fn bookmarks_html_lists_tabs_escaped() {
    let mut cfg = Config::default();
    assert_eq!(bookmarks_html(&cfg), expected_bookmarks(&[]));
    cfg.toolbar.enabled = true;
    cfg.toolbar.tabs.push(ToolbarTab { label: "YouTube".into(), url: "https://www.youtube.com".into() });
    cfg.toolbar.tabs.push(ToolbarTab { label: "Q&A <1>".into(), url: "https://x.org/?a=1&b=\"2\"".into() });
    let html = bookmarks_html(&cfg);
    assert_eq!(html, expected_bookmarks(&cfg.toolbar.tabs));
    assert!(html.contains("        <DT><A HREF=\"https://x.org/?a=1&amp;b=&quot;2&quot;\">Q&amp;A &lt;1&gt;</A>\n"));
}

#[test]
fn pid_file_round_trip() {
    assert_eq!(PID_FILE_NAME, "ephemeral-browser.pid");
    for pid in [0u32, 1, 9, 10, 42, 12345, 999_999, u32::MAX] {
        let text = pid_file_contents(pid);
        assert_eq!(text, pid.to_string());
        assert_eq!(parse_pid(&text), Some(pid));
    }
}

#[test]
fn parse_pid_follows_trim_and_parse() {
    let cases = [
        "", " ", "42", " 42\n", "\t7\r\n", "+7", "+", "-1", "-0", "007", "4294967295", "4294967296",
        "99999999999999999999", "1 2", "12a", "\u{a0}5\u{3000}", "\u{2009}8\u{85}", "٣", "+-3", "++3",
    ];
    for c in cases {
        assert_eq!(parse_pid(c), c.trim().parse::<u32>().ok(), "input {c:?}");
    }
    assert_eq!(parse_pid(" 42\n"), Some(42));
    assert_eq!(parse_pid("4294967296"), None);
}

#[test]
fn proc_entry_paths() {
    assert_eq!(proc_entry_path(1), "/proc/1");
    assert_eq!(proc_entry_path(31337), "/proc/31337");
}

#[test]
fn downloads_expire_after_seven_days() {
    assert!(needs_download(&CachedFile::Unreadable));
    assert!(needs_download(&CachedFile::ModifiedInFuture));
    assert!(!needs_download(&CachedFile::Age { secs: 0, nanos: 0 }));
    assert!(!needs_download(&CachedFile::Age { secs: 604_800, nanos: 0 }));
    assert!(needs_download(&CachedFile::Age { secs: 604_800, nanos: 1 }));
    assert!(needs_download(&CachedFile::Age { secs: 604_801, nanos: 0 }));
    assert!(!needs_download(&CachedFile::Age { secs: 3 * 24 * 3600, nanos: 5 }));
}

#[test]
fn stale_profile_decisions() {
    assert!(is_profile_candidate("ephemeral-browser-abc", true));
    assert!(!is_profile_candidate("ephemeral-browser-abc", false));
    assert!(!is_profile_candidate("tmp123", true));
    assert!(!is_profile_candidate("ephemeral-browser", true));
    assert!(!is_stale_profile(Some(true), Some((1_000_000, 0))));
    assert!(is_stale_profile(Some(false), None));
    assert!(is_stale_profile(None, Some((3601, 0))));
    assert!(is_stale_profile(None, Some((3600, 1))));
    assert!(!is_stale_profile(None, Some((3600, 0))));
    assert!(!is_stale_profile(None, None));
}

//! Firefox: launch arguments, `user.js`, `userChrome.css` and the uBlock Origin add-on.

use vstd::prelude::*;

use crate::browser::BrowserError;
use crate::browser::common::{located_view, resolve_binary, spec_resolve_binary};
use crate::config::{BrowserKind, Config};
use crate::text::{clone_all, clone_opt, has_substring, opt_view, result_view};

verus! {

broadcast use vstd::string::group_string_axioms;

/// Firefox and the state of its temporary profile.
pub struct Firefox {
    profile_dir: Option<String>,
    binary_override: Option<String>,
}

/// What a `Firefox` holds, as plain values.
pub struct FirefoxView {
    pub profile_dir: Option<Seq<char>>,
    pub binary_override: Option<Seq<char>>,
}

impl View for Firefox {
    type V = FirefoxView;

    closed spec fn view(&self) -> FirefoxView {
        FirefoxView { profile_dir: opt_view(self.profile_dir), binary_override: opt_view(self.binary_override) }
    }
}

impl Firefox {
    /// No profile and no binary override yet.
    pub open spec fn spec_default() -> FirefoxView {
        FirefoxView { profile_dir: None, binary_override: None }
    }

    /// Records the freshly created profile directory, and takes the binary
    /// override from the configuration.
    pub fn start_profile(&mut self, profile_dir: String, cfg: &Config)
        ensures
            final(self)@ == (FirefoxView {
                profile_dir: Some(profile_dir@),
                binary_override: opt_view(cfg.browser_path),
            }),
    {
        self.profile_dir = Some(profile_dir);
        self.binary_override = clone_opt(&cfg.browser_path);
    }

    /// The binary that the configuration names, if it names one.
    pub fn binary_override(&self) -> (b: Option<&str>)
        ensures
            match b {
                Some(s) => self@.binary_override == Some(s@),
                None => self@.binary_override is None,
            },
    {
        match &self.binary_override {
            Some(s) => Some(s.as_str()),
            None => None,
        }
    }

    /// The profile directory, or an error before the profile exists.
    pub fn profile_dir(&self) -> (r: Result<&str, BrowserError>)
        ensures
            match r {
                Ok(s) => self@.profile_dir == Some(s@),
                Err(e) => self@.profile_dir is None && e == BrowserError::ProfileNotSetUp,
            },
    {
        match &self.profile_dir {
            Some(s) => Ok(s.as_str()),
            None => Err(BrowserError::ProfileNotSetUp),
        }
    }
}

impl Default for Firefox {
    /// No profile and no binary override yet.
    fn default() -> (f: Self)
        ensures
            f@ == Firefox::spec_default(),
    {
        Firefox { profile_dir: None, binary_override: None }
    }
}

/// Where the uBlock Origin add-on is downloaded from.
pub const UBLOCK_XPI_URL: &'static str = "https://addons.mozilla.org/firefox/downloads/latest/ublock-origin/latest.xpi";

/// File name of the add-on inside the profile's `extensions` directory.
pub const UBLOCK_XPI_NAME: &'static str = "uBlock0@raymondhill.net.xpi";

/// Cache file of the downloaded uBlock Origin add-on.
pub const UBLOCK_XPI_CACHE_NAME: &'static str = "ublock-origin.xpi";

/// The command-line arguments of a session whose profile lies in `profile_dir`:
/// no remote instance, the profile, then the caller's arguments unchanged.
pub open spec fn spec_firefox_args(profile_dir: Seq<char>, user_args: Seq<Seq<char>>) -> Seq<Seq<char>> {
    seq!["-no-remote"@, "-profile"@, profile_dir] + user_args
}

impl Firefox {
    /// The program names to search for in `PATH`.
    pub fn binary_names(&self) -> (names: Vec<&'static str>)
        ensures
            names.deep_view() == seq!["firefox"@],
    {
        let mut names: Vec<&'static str> = Vec::new();
        names.push("firefox");
        assert(names.deep_view() =~= seq!["firefox"@]);
        names
    }

    /// The binary to run: the configured override when there is one, else the
    /// first path in `located`, which holds the outcome of each lookup in
    /// search order; an error when every lookup failed.
    pub fn pick_binary(&self, located: &[Option<String>]) -> (r: Result<String, BrowserError>)
        ensures
            result_view(r) == spec_resolve_binary(self@.binary_override, located_view(located@), BrowserKind::Firefox),
    {
        resolve_binary(&self.binary_override, located, BrowserKind::Firefox)
    }

    /// The arguments to start Firefox with: no remote instance, the profile,
    /// then the caller's arguments unchanged; fails before the profile exists.
    pub fn launch_args(&self, user_args: &[String]) -> (r: Result<Vec<String>, BrowserError>)
        ensures
            match self@.profile_dir {
                Some(p) => r matches Ok(args) && args.deep_view() == spec_firefox_args(p, user_args.deep_view()),
                None => r == Err::<Vec<String>, BrowserError>(BrowserError::ProfileNotSetUp),
            },
    {
        let profile_dir = match self.profile_dir() {
            Ok(p) => p,
            Err(e) => return Err(e),
        };
        let mut args: Vec<String> = Vec::new();
        args.push("-no-remote".to_owned());
        args.push("-profile".to_owned());
        args.push(profile_dir.to_owned());
        let ghost before = args.deep_view();
        let mut rest = clone_all(user_args);
        args.append(&mut rest);
        assert(args.deep_view() =~= before + user_args.deep_view());
        Ok(args)
    }
}

pub const USER_JS_ENGINE_NAME: &'static str = r#"// Set default search engine
user_pref("browser.search.defaultenginename", ""#;

pub const USER_JS_SELECTED_ENGINE: &'static str = r#"");
user_pref("browser.search.selectedEngine", ""#;

pub const USER_JS_PLACEHOLDER: &'static str = r#"");
user_pref("browser.newtabpage.activity-stream.improvesearch.handoffToAwesomebar", false);
user_pref("browser.urlbar.placeholderName", ""#;

pub const USER_JS_THEME: &'static str = r#"");
user_pref("browser.urlbar.update2.engineAliasRefresh", true);

// Use theme
user_pref("extensions.activeThemeID", ""#;

pub const USER_JS_TOOLBAR: &'static str = r#"");

// Auto-enable extensions without prompts
user_pref("extensions.autoDisableScopes", 0);
user_pref("extensions.enabledScopes", 15);

// Allow uBlock Origin in private windows
user_pref("extensions.webextensions.uBlock0@raymondhill.net.privateBrowsingAllowed", true);

// Disable privacy notice tab on first run
user_pref("datareporting.policy.firstRunURL", "");
user_pref("browser.startup.homepage_override.mstone", "ignore");

// Disable surveys
user_pref("app.shield.optoutstudies.enabled", false);
user_pref("browser.newtabpage.activity-stream.asrouter.userprefs.cfr.addons", false);
user_pref("browser.newtabpage.activity-stream.asrouter.userprefs.cfr.features", false);

// Disable new tab page clutter
user_pref("browser.newtabpage.activity-stream.feeds.section.topstories", false);
user_pref("browser.newtabpage.activity-stream.showSponsored", false);
user_pref("browser.newtabpage.activity-stream.showSponsoredTopSites", false);
user_pref("browser.newtabpage.activity-stream.feeds.topsites", false);
user_pref("browser.newtabpage.activity-stream.feeds.section.highlights", false);
user_pref("browser.newtabpage.activity-stream.feeds.section.recentActivity", false);
user_pref("browser.newtabpage.activity-stream.feeds.snippets", false);

// Disable telemetry and data collection
user_pref("datareporting.healthreport.uploadEnabled", false);
user_pref("datareporting.policy.dataSubmissionEnabled", false);
user_pref("toolkit.telemetry.enabled", false);
user_pref("toolkit.telemetry.unified", false);
user_pref("toolkit.telemetry.archive.enabled", false);

// Bookmarks toolbar
user_pref("browser.toolbars.bookmarks.visibility", ""#;

pub const USER_JS_HOMEPAGE: &'static str = r#"");

// Import bookmarks from HTML
user_pref("browser.places.importBookmarksHTML", true);

// Enable userChrome.css customization
user_pref("toolkit.legacyUserProfileCustomizations.stylesheets", true);

// Set homepage
user_pref("browser.startup.homepage", ""#;

pub const USER_JS_STARTUP_PAGE: &'static str = r#"");
user_pref("browser.startup.page", "#;

pub const USER_JS_END: &'static str = r#");
"#;


/// The `user.js` of a new Firefox profile: the search engine, the theme, the
/// add-on and privacy settings, the bookmarks toolbar (`always` shown when the
/// toolbar should show, else `never`), and the homepage, with start page 1
/// (the homepage) or 0 (blank) when the homepage is empty.
pub open spec fn spec_user_js(
    search_engine: Seq<char>,
    theme_id: Seq<char>,
    show_toolbar: bool,
    homepage: Seq<char>,
) -> Seq<char> {
    let visibility = if show_toolbar { "always"@ } else { "never"@ };
    let startup_page = if homepage.len() == 0 { "0"@ } else { "1"@ };
    USER_JS_ENGINE_NAME@ + search_engine + USER_JS_SELECTED_ENGINE@ + search_engine
        + USER_JS_PLACEHOLDER@ + search_engine + USER_JS_THEME@ + theme_id
        + USER_JS_TOOLBAR@ + visibility + USER_JS_HOMEPAGE@ + homepage
        + USER_JS_STARTUP_PAGE@ + startup_page + USER_JS_END@
}

impl Firefox {
    /// The `user.js` for the configuration.
    pub fn user_js(cfg: &Config) -> (js: String)
        ensures
            js@ == spec_user_js(
                cfg.search_engine.spec_name(),
                cfg.theme.spec_firefox_theme_id(),
                cfg.toolbar.spec_should_show(),
                cfg.spec_homepage_url(),
            ),
    {
        let search_engine = cfg.search_engine.as_str();
        let homepage = cfg.homepage_url();
        let mut js = USER_JS_ENGINE_NAME.to_owned();
        js.append(search_engine);
        js.append(USER_JS_SELECTED_ENGINE);
        js.append(search_engine);
        js.append(USER_JS_PLACEHOLDER);
        js.append(search_engine);
        js.append(USER_JS_THEME);
        js.append(cfg.theme.firefox_theme_id());
        js.append(USER_JS_TOOLBAR);
        if cfg.toolbar.should_show() {
            js.append("always");
        } else {
            js.append("never");
        }
        js.append(USER_JS_HOMEPAGE);
        js.append(homepage);
        js.append(USER_JS_STARTUP_PAGE);
        if homepage.is_empty() {
            js.append("0");
        } else {
            js.append("1");
        }
        js.append(USER_JS_END);
        js
    }

    /// The `userChrome.css` that paints the toolbars purple.
    pub fn user_chrome_css() -> (css: &'static str)
        ensures
            css@ == USER_CHROME_CSS@,
    {
        USER_CHROME_CSS
    }
}

/// Style sheet that paints the navigation bar, tab bar and bookmarks toolbar
/// purple, so that the session is not mistaken for the usual browser.
pub const USER_CHROME_CSS: &'static str = r#"/* Dark purple toolbar to distinguish ephemeral-browser */
:root {
    --ephemeral-purple: #2d1b4e;
    --ephemeral-purple-light: #3d2b5e;
}

/* Navigation bar */
#nav-bar {
    background-color: var(--ephemeral-purple) !important;
}

/* Tab bar background */
#titlebar,
#TabsToolbar {
    background-color: var(--ephemeral-purple) !important;
}

/* Active tab */
.tabbrowser-tab[selected] .tab-background {
    background-color: var(--ephemeral-purple-light) !important;
}

/* Bookmarks toolbar */
#PersonalToolbar {
    background-color: var(--ephemeral-purple) !important;
}
"#;

/// The profile always comes before the arguments given on the command line,
/// and those are passed on last, unchanged and in order.
pub proof fn firefox_args_end_with_user_args(profile_dir: Seq<char>, user_args: Seq<Seq<char>>)
    ensures
        ({
            let args = spec_firefox_args(profile_dir, user_args);
            &&& args[2] == profile_dir
            &&& user_args.is_suffix_of(args)
        }),
{
    let args = spec_firefox_args(profile_dir, user_args);
    assert(args.subrange(args.len() - user_args.len(), args.len() as int) =~= user_args);
}

/// `user.js` starts by making the configured search engine the default,
/// selected and placeholder engine.
pub proof fn user_js_sets_search_engine(search_engine: Seq<char>, theme_id: Seq<char>, show_toolbar: bool, homepage: Seq<char>)
    ensures
        (USER_JS_ENGINE_NAME@ + search_engine + USER_JS_SELECTED_ENGINE@ + search_engine + USER_JS_PLACEHOLDER@
            + search_engine).is_prefix_of(spec_user_js(search_engine, theme_id, show_toolbar, homepage)),
{
    let js = spec_user_js(search_engine, theme_id, show_toolbar, homepage);
    let head = USER_JS_ENGINE_NAME@ + search_engine + USER_JS_SELECTED_ENGINE@ + search_engine + USER_JS_PLACEHOLDER@
        + search_engine;
    assert(js.subrange(0, head.len() as int) =~= head);
}

/// `user.js` activates the theme's add-on.
pub proof fn user_js_sets_theme(search_engine: Seq<char>, theme_id: Seq<char>, show_toolbar: bool, homepage: Seq<char>)
    ensures
        has_substring(
            spec_user_js(search_engine, theme_id, show_toolbar, homepage),
            USER_JS_THEME@ + theme_id + USER_JS_TOOLBAR@,
        ),
{
    let js = spec_user_js(search_engine, theme_id, show_toolbar, homepage);
    let pre = USER_JS_ENGINE_NAME@ + search_engine + USER_JS_SELECTED_ENGINE@ + search_engine + USER_JS_PLACEHOLDER@
        + search_engine;
    let part = USER_JS_THEME@ + theme_id + USER_JS_TOOLBAR@;
    assert(js.subrange(pre.len() as int, (pre.len() + part.len()) as int) =~= part);
}

/// The bookmarks toolbar is `always` visible when it should show, and `never` otherwise.
pub proof fn user_js_toolbar_visibility(search_engine: Seq<char>, theme_id: Seq<char>, show_toolbar: bool, homepage: Seq<char>)
    ensures
        show_toolbar ==> has_substring(
            spec_user_js(search_engine, theme_id, show_toolbar, homepage),
            USER_JS_TOOLBAR@ + "always"@ + USER_JS_HOMEPAGE@,
        ),
        !show_toolbar ==> has_substring(
            spec_user_js(search_engine, theme_id, show_toolbar, homepage),
            USER_JS_TOOLBAR@ + "never"@ + USER_JS_HOMEPAGE@,
        ),
{
    let js = spec_user_js(search_engine, theme_id, show_toolbar, homepage);
    let pre = USER_JS_ENGINE_NAME@ + search_engine + USER_JS_SELECTED_ENGINE@ + search_engine + USER_JS_PLACEHOLDER@
        + search_engine + USER_JS_THEME@ + theme_id;
    let visibility = if show_toolbar { "always"@ } else { "never"@ };
    let part = USER_JS_TOOLBAR@ + visibility + USER_JS_HOMEPAGE@;
    assert(js.subrange(pre.len() as int, (pre.len() + part.len()) as int) =~= part);
}

/// `user.js` ends with the homepage, and with start page 1 (the homepage), or
/// 0 (a blank page) when the homepage is empty.
pub proof fn user_js_homepage(search_engine: Seq<char>, theme_id: Seq<char>, show_toolbar: bool, homepage: Seq<char>)
    ensures
        homepage.len() != 0 ==> (USER_JS_HOMEPAGE@ + homepage + USER_JS_STARTUP_PAGE@ + "1"@ + USER_JS_END@).is_suffix_of(
            spec_user_js(search_engine, theme_id, show_toolbar, homepage),
        ),
        homepage.len() == 0 ==> (USER_JS_HOMEPAGE@ + USER_JS_STARTUP_PAGE@ + "0"@ + USER_JS_END@).is_suffix_of(
            spec_user_js(search_engine, theme_id, show_toolbar, homepage),
        ),
{
    let js = spec_user_js(search_engine, theme_id, show_toolbar, homepage);
    let startup_page = if homepage.len() == 0 { "0"@ } else { "1"@ };
    let tail = USER_JS_HOMEPAGE@ + homepage + USER_JS_STARTUP_PAGE@ + startup_page + USER_JS_END@;
    assert(js.subrange(js.len() - tail.len(), js.len() as int) =~= tail);
    if homepage.len() == 0 {
        assert(tail =~= USER_JS_HOMEPAGE@ + USER_JS_STARTUP_PAGE@ + "0"@ + USER_JS_END@);
    }
}

} // verus!

//! The configuration model: what `config.toml` may set, with its defaults.

use vstd::prelude::*;

use crate::text::same_text;

verus! {

/// Browser colour theme.
#[derive(Debug, Clone, Copy, PartialEq, Eq, Structural)]
pub enum Theme {
    Dark,
    Light,
    Default,
}

impl Theme {
    /// The add-on id of the Firefox theme that renders this theme.
    pub open spec fn spec_firefox_theme_id(self) -> Seq<char> {
        match self {
            Theme::Dark => "firefox-compact-dark@mozilla.org"@,
            Theme::Light => "firefox-compact-light@mozilla.org"@,
            Theme::Default => "default-theme@mozilla.org"@,
        }
    }

    pub fn firefox_theme_id(self) -> (id: &'static str)
        ensures
            id@ == self.spec_firefox_theme_id(),
    {
        match self {
            Theme::Dark => "firefox-compact-dark@mozilla.org",
            Theme::Light => "firefox-compact-light@mozilla.org",
            Theme::Default => "default-theme@mozilla.org",
        }
    }
}

impl Theme {
    /// How the configuration file spells the theme.
    pub open spec fn spec_name(self) -> Seq<char> {
        match self {
            Theme::Dark => "dark"@,
            Theme::Light => "light"@,
            Theme::Default => "default"@,
        }
    }

    /// The theme that the configuration file spells `name`, if any.
    pub open spec fn spec_from_name(name: Seq<char>) -> Option<Theme> {
        if name == "dark"@ {
            Some(Theme::Dark)
        } else if name == "light"@ {
            Some(Theme::Light)
        } else if name == "default"@ {
            Some(Theme::Default)
        } else {
            None
        }
    }

    /// Reads the theme's name as the configuration file spells it.
    pub fn from_name(name: &str) -> (t: Option<Self>)
        ensures
            t == Self::spec_from_name(name@),
    {
        if same_text(name, "dark") {
            Some(Theme::Dark)
        } else if same_text(name, "light") {
            Some(Theme::Light)
        } else if same_text(name, "default") {
            Some(Theme::Default)
        } else {
            None
        }
    }
}

/// The configuration file names each theme in exactly one way, and reading
/// back that name gives the theme.
pub proof fn theme_name_round_trip(t: Theme, name: Seq<char>)
    ensures
        Theme::spec_from_name(t.spec_name()) == Some(t),
        Theme::spec_from_name(name) == Some(t) ==> name == t.spec_name(),
{
    reveal_strlit("dark");
    reveal_strlit("light");
    reveal_strlit("default");
    assert("dark"@.len() == 4 && "light"@.len() == 5 && "default"@.len() == 7);
    assert("light"@ != "dark"@ && "default"@ != "dark"@ && "default"@ != "light"@);
}

impl Default for Theme {
    /// The dark theme.
    fn default() -> (t: Self)
        ensures
            t == Theme::Dark,
    {
        Theme::Dark
    }
}

/// Which installed browser to run.
#[derive(Debug, Clone, Copy, PartialEq, Eq, Structural)]
pub enum BrowserKind {
    Firefox,
    Chromium,
    Chrome,
}

impl BrowserKind {
    /// The lower-case name of the browser, as the configuration file spells it.
    pub open spec fn spec_name(self) -> Seq<char> {
        match self {
            BrowserKind::Firefox => "firefox"@,
            BrowserKind::Chromium => "chromium"@,
            BrowserKind::Chrome => "chrome"@,
        }
    }

    /// The lower-case name of the browser; this is how the kind is displayed.
    pub fn name(self) -> (n: &'static str)
        ensures
            n@ == self.spec_name(),
    {
        match self {
            BrowserKind::Firefox => "firefox",
            BrowserKind::Chromium => "chromium",
            BrowserKind::Chrome => "chrome",
        }
    }
}

impl BrowserKind {
    /// The kind that the configuration file spells `name`, if any.
    pub open spec fn spec_from_name(name: Seq<char>) -> Option<BrowserKind> {
        if name == "firefox"@ {
            Some(BrowserKind::Firefox)
        } else if name == "chromium"@ {
            Some(BrowserKind::Chromium)
        } else if name == "chrome"@ {
            Some(BrowserKind::Chrome)
        } else {
            None
        }
    }

    /// Reads the browser's name as the configuration file spells it.
    pub fn from_name(name: &str) -> (k: Option<Self>)
        ensures
            k == Self::spec_from_name(name@),
    {
        if same_text(name, "firefox") {
            Some(BrowserKind::Firefox)
        } else if same_text(name, "chromium") {
            Some(BrowserKind::Chromium)
        } else if same_text(name, "chrome") {
            Some(BrowserKind::Chrome)
        } else {
            None
        }
    }
}

/// The name a kind is displayed with is the name the configuration file
/// accepts for it, and no other name reads as that kind; so the display is
/// one-to-one.
pub proof fn browser_kind_name_round_trip(k: BrowserKind, name: Seq<char>)
    ensures
        BrowserKind::spec_from_name(k.spec_name()) == Some(k),
        BrowserKind::spec_from_name(name) == Some(k) ==> name == k.spec_name(),
{
    reveal_strlit("firefox");
    reveal_strlit("chromium");
    reveal_strlit("chrome");
    assert("firefox"@.len() == 7 && "chromium"@.len() == 8 && "chrome"@.len() == 6);
    assert("chromium"@ != "firefox"@ && "chrome"@ != "firefox"@ && "chrome"@ != "chromium"@);
}

/// Different kinds are displayed with different names.
pub proof fn browser_kind_name_injective(a: BrowserKind, b: BrowserKind)
    ensures
        a.spec_name() == b.spec_name() ==> a == b,
{
    browser_kind_name_round_trip(a, b.spec_name());
    browser_kind_name_round_trip(b, b.spec_name());
}

impl Default for BrowserKind {
    /// Firefox.
    fn default() -> (k: Self)
        ensures
            k == BrowserKind::Firefox,
    {
        BrowserKind::Firefox
    }
}

/// One bookmark of the bookmarks toolbar.
#[derive(Debug)]
pub struct ToolbarTab {
    pub label: String,
    pub url: String,
}

/// The bookmarks toolbar.
#[derive(Debug)]
pub struct Toolbar {
    pub enabled: bool,
    pub tabs: Vec<ToolbarTab>,
}

impl Toolbar {
    /// The toolbar is shown when it is enabled and has at least one bookmark.
    pub open spec fn spec_should_show(&self) -> bool {
        self.enabled && self.tabs@.len() > 0
    }

    pub fn should_show(&self) -> (show: bool)
        ensures
            show == self.spec_should_show(),
    {
        self.enabled && self.tabs.len() > 0
    }
}

impl Default for Toolbar {
    /// A disabled toolbar without bookmarks.
    fn default() -> (t: Self)
        ensures
            !t.enabled,
            t.tabs@.len() == 0,
    {
        Toolbar { enabled: false, tabs: Vec::new() }
    }
}

/// Name of the default search engine.
#[derive(Debug)]
pub struct SearchEngine(String);

impl SearchEngine {
    /// The engine's name.
    pub closed spec fn spec_name(&self) -> Seq<char> {
        self.0@
    }

    pub fn new(name: String) -> (e: Self)
        ensures
            e.spec_name() == name@,
    {
        SearchEngine(name)
    }

    /// The engine's name; this is how the engine is displayed.
    pub fn as_str(&self) -> (n: &str)
        ensures
            n@ == self.spec_name(),
    {
        self.0.as_str()
    }
}

impl Default for SearchEngine {
    /// DuckDuckGo.
    fn default() -> (e: Self)
        ensures
            e.spec_name() == "DuckDuckGo"@,
    {
        SearchEngine("DuckDuckGo".to_owned())
    }
}

/// The whole configuration; every field has a default.
#[derive(Debug)]
pub struct Config {
    /// Start page; `None` when the file does not set one.
    pub homepage: Option<String>,
    pub search_engine: SearchEngine,
    pub theme: Theme,
    pub browser: BrowserKind,
    /// Path of a browser binary to use instead of searching for one.
    pub browser_path: Option<String>,
    pub toolbar: Toolbar,
}

/// The start page used when the configuration sets none.
pub open spec fn default_homepage() -> Seq<char> {
    "https://duckduckgo.com"@
}

impl Config {
    /// The start page: the configured one, even when it is empty, else the default.
    pub open spec fn spec_homepage_url(&self) -> Seq<char> {
        match self.homepage {
            None => default_homepage(),
            Some(url) => url@,
        }
    }

    /// Returns the configured homepage URL.
    /// If homepage is not set in config, returns the default.
    /// If homepage is explicitly set to "", returns "".
    pub fn homepage_url(&self) -> (url: &str)
        ensures
            url@ == self.spec_homepage_url(),
    {
        match &self.homepage {
            None => "https://duckduckgo.com",
            Some(url) => url.as_str(),
        }
    }
}

impl Default for Config {
    /// Every field at its default: no homepage, DuckDuckGo, dark theme,
    /// Firefox, no binary override, and a disabled, empty toolbar.
    fn default() -> (c: Self)
        ensures
            c.homepage is None,
            c.search_engine.spec_name() == "DuckDuckGo"@,
            c.theme == Theme::Dark,
            c.browser == BrowserKind::Firefox,
            c.browser_path is None,
            !c.toolbar.enabled,
            c.toolbar.tabs@.len() == 0,
    {
        Config {
            homepage: None,
            search_engine: SearchEngine::default(),
            theme: Theme::default(),
            browser: BrowserKind::default(),
            browser_path: None,
            toolbar: Toolbar::default(),
        }
    }
}

/// File name of the configuration file.
pub const CONFIG_FILE_NAME: &'static str = "config.toml";

/// Directory under the OS configuration directory that may hold the file.
pub const CONFIG_DIR_NAME: &'static str = "ephemeral-browser";

/// Where the configuration file was found.
#[derive(Debug, Clone, Copy, PartialEq, Eq, Structural)]
pub enum ConfigPlace {
    /// Beside the running executable.
    NextToExecutable,
    /// In the current working directory.
    WorkingDirectory,
    /// In `ephemeral-browser` under the OS configuration directory.
    OsConfigDir,
}

/// The first place, in search order, that holds the file: next to the
/// executable, then the working directory, then the OS configuration
/// directory. Each argument says whether the file is there, `None` standing
/// for a place that cannot be determined (no path to the executable, no OS
/// configuration directory); `None` when no place holds it.
pub open spec fn spec_config_place(
    next_to_exe: Option<bool>,
    in_working_dir: bool,
    in_os_config_dir: Option<bool>,
) -> Option<ConfigPlace> {
    if next_to_exe == Some(true) {
        Some(ConfigPlace::NextToExecutable)
    } else if in_working_dir {
        Some(ConfigPlace::WorkingDirectory)
    } else if in_os_config_dir == Some(true) {
        Some(ConfigPlace::OsConfigDir)
    } else {
        None
    }
}

/// Which place's configuration file is read, given where the file exists.
pub fn config_place(next_to_exe: Option<bool>, in_working_dir: bool, in_os_config_dir: Option<bool>) -> (p: Option<ConfigPlace>)
    ensures
        p == spec_config_place(next_to_exe, in_working_dir, in_os_config_dir),
{
    if let Some(true) = next_to_exe {
        Some(ConfigPlace::NextToExecutable)
    } else if in_working_dir {
        Some(ConfigPlace::WorkingDirectory)
    } else if let Some(true) = in_os_config_dir {
        Some(ConfigPlace::OsConfigDir)
    } else {
        None
    }
}

/// The configuration file is searched next to the executable, then in the
/// working directory, then in the OS configuration directory; the first place
/// that holds it is read, and none is read when no place holds it.
pub proof fn config_search_order(next_to_exe: Option<bool>, in_working_dir: bool, in_os_config_dir: Option<bool>)
    ensures
        next_to_exe == Some(true) ==> spec_config_place(next_to_exe, in_working_dir, in_os_config_dir)
            == Some(ConfigPlace::NextToExecutable),
        next_to_exe != Some(true) && in_working_dir ==> spec_config_place(next_to_exe, in_working_dir, in_os_config_dir)
            == Some(ConfigPlace::WorkingDirectory),
        next_to_exe != Some(true) && !in_working_dir && in_os_config_dir == Some(true)
            ==> spec_config_place(next_to_exe, in_working_dir, in_os_config_dir) == Some(ConfigPlace::OsConfigDir),
        next_to_exe != Some(true) && !in_working_dir && in_os_config_dir != Some(true)
            ==> spec_config_place(next_to_exe, in_working_dir, in_os_config_dir) is None,
{
}

/// Without a configured homepage the start page is DuckDuckGo; a configured
/// one, even the empty one, is used as it is.
pub proof fn homepage_default_and_override(cfg: Config)
    ensures
        cfg.homepage is None ==> cfg.spec_homepage_url() == "https://duckduckgo.com"@,
        cfg.homepage matches Some(url) ==> cfg.spec_homepage_url() == url@,
{
}

/// The bookmarks toolbar is shown exactly when it is enabled and holds at least one bookmark.
pub proof fn toolbar_shown_when_enabled_with_tabs(t: Toolbar)
    ensures
        t.spec_should_show() <==> (t.enabled && t.tabs@.len() != 0),
{
}

/// Each theme is shown by its own Firefox theme add-on.
pub proof fn firefox_theme_ids_distinct(a: Theme, b: Theme)
    ensures
        a.spec_firefox_theme_id() == b.spec_firefox_theme_id() ==> a == b,
{
    reveal_strlit("firefox-compact-dark@mozilla.org");
    reveal_strlit("firefox-compact-light@mozilla.org");
    reveal_strlit("default-theme@mozilla.org");
    assert("firefox-compact-dark@mozilla.org"@.len() == 32);
    assert("firefox-compact-light@mozilla.org"@.len() == 33);
    assert("default-theme@mozilla.org"@.len() == 25);
}

} // verus!

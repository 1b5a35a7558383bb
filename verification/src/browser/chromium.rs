//! Chromium and Google Chrome: launch arguments, the profile's preference and
//! bookmark files, the theme extension and the uBlock Origin Lite download.

use vstd::prelude::*;
use vstd::string::StringSliceAdditionalSpecFns;
use vstd::utf8::{decode_utf8, is_char_boundary, pop_first_scalar, valid_utf8};

use crate::browser::BrowserError;
use crate::browser::common::{located_view, resolve_binary, spec_resolve_binary};
use crate::config::{BrowserKind, Config, Theme, ToolbarTab};
use crate::text::{
    chars_of, clone_all, clone_opt, contains, ends_with, has_substring, hex_digit, hex_digit_value, join, opt_view,
    push_char, result_view, spec_join, utf8_str,
};

verus! {

broadcast use vstd::string::group_string_axioms;

/// A Chromium-family browser and the state of its temporary profile.
pub struct Chromium {
    kind: BrowserKind,
    profile_dir: Option<String>,
    ublock_dir: Option<String>,
    theme_dir: Option<String>,
    binary_override: Option<String>,
}

/// What a `Chromium` holds, as plain values.
pub struct ChromiumView {
    pub kind: BrowserKind,
    pub profile_dir: Option<Seq<char>>,
    pub ublock_dir: Option<Seq<char>>,
    pub theme_dir: Option<Seq<char>>,
    pub binary_override: Option<Seq<char>>,
}

impl View for Chromium {
    type V = ChromiumView;

    closed spec fn view(&self) -> ChromiumView {
        ChromiumView {
            kind: self.kind,
            profile_dir: opt_view(self.profile_dir),
            ublock_dir: opt_view(self.ublock_dir),
            theme_dir: opt_view(self.theme_dir),
            binary_override: opt_view(self.binary_override),
        }
    }
}

impl Chromium {
    /// A browser of the given kind with no profile, extensions or binary override yet.
    pub open spec fn spec_new(kind: BrowserKind) -> ChromiumView {
        ChromiumView {
            kind,
            profile_dir: None,
            ublock_dir: None,
            theme_dir: None,
            binary_override: None,
        }
    }

    /// A browser of the given kind before its profile is set up.
    pub fn new(kind: BrowserKind) -> (c: Self)
        ensures
            c@ == Self::spec_new(kind),
    {
        Self { kind, profile_dir: None, ublock_dir: None, theme_dir: None, binary_override: None }
    }

    /// Which browser of the family this is.
    pub fn kind(&self) -> (k: BrowserKind)
        ensures
            k == self@.kind,
    {
        self.kind
    }

    /// Records the freshly created profile directory, and takes the binary
    /// override from the configuration.
    pub fn start_profile(&mut self, profile_dir: String, cfg: &Config)
        ensures
            final(self)@ == (ChromiumView {
                profile_dir: Some(profile_dir@),
                binary_override: opt_view(cfg.browser_path),
                ..old(self)@
            }),
    {
        self.profile_dir = Some(profile_dir);
        self.binary_override = clone_opt(&cfg.browser_path);
    }

    /// Records where the unpacked uBlock Origin Lite extension lies.
    pub fn set_ublock_dir(&mut self, dir: String)
        ensures
            final(self)@ == (ChromiumView { ublock_dir: Some(dir@), ..old(self)@ }),
    {
        self.ublock_dir = Some(dir);
    }

    /// Records where the theme extension was written.
    pub fn set_theme_dir(&mut self, dir: String)
        ensures
            final(self)@ == (ChromiumView { theme_dir: Some(dir@), ..old(self)@ }),
    {
        self.theme_dir = Some(dir);
    }

    /// The directory of the theme extension, once it is written.
    pub fn theme_dir(&self) -> (d: Option<&str>)
        ensures
            match d {
                Some(s) => self@.theme_dir == Some(s@),
                None => self@.theme_dir is None,
            },
    {
        match &self.theme_dir {
            Some(s) => Some(s.as_str()),
            None => None,
        }
    }

    /// The binary that the configuration names, if it names one.
    pub fn binary_override(&self) -> (b: Option<&str>)
        ensures
            match b {
                Some(s) => self@.binary_override == Some(s@),
                None => self@.binary_override is None,
            },
    {
        match &self.binary_override {
            Some(s) => Some(s.as_str()),
            None => None,
        }
    }

    /// The profile directory, or an error before the profile exists.
    pub fn profile_dir(&self) -> (r: Result<&str, BrowserError>)
        ensures
            match r {
                Ok(s) => self@.profile_dir == Some(s@),
                Err(e) => self@.profile_dir is None && e == BrowserError::ProfileNotSetUp,
            },
    {
        match &self.profile_dir {
            Some(s) => Ok(s.as_str()),
            None => Err(BrowserError::ProfileNotSetUp),
        }
    }
}

/// The flags that every Chromium session gets after `--user-data-dir`.
pub open spec fn chromium_fixed_flags() -> Seq<Seq<char>> {
    seq![
        "--no-first-run"@,
        "--no-default-browser-check"@,
        "--disable-background-networking"@,
        "--disable-component-update"@,
        "--disable-sync"@,
        "--disable-domain-reliability"@,
        "--disable-breakpad"@,
        "--disable-search-engine-choice-screen"@,
        "--disable-field-trial-config"@,
        "--metrics-recording-only"@,
        "--disable-features=OptimizationHints"@,
    ]
}

/// The unpacked extensions to load: uBlock Origin Lite, then the theme, each when present.
pub open spec fn spec_extension_dirs(v: ChromiumView) -> Seq<Seq<char>> {
    (match v.ublock_dir {
        Some(d) => seq![d],
        None => Seq::empty(),
    }) + (match v.theme_dir {
        Some(d) => seq![d],
        None => Seq::empty(),
    })
}

/// The command-line arguments of a session whose profile lies in `profile_dir`:
/// the profile flag, the fixed flags, the extensions to load (when there are any),
/// then the caller's arguments unchanged.
pub open spec fn spec_chromium_args(v: ChromiumView, profile_dir: Seq<char>, user_args: Seq<Seq<char>>) -> Seq<Seq<char>> {
    let exts = spec_extension_dirs(v);
    seq!["--user-data-dir="@ + profile_dir] + chromium_fixed_flags() + (if exts.len() > 0 {
        seq!["--load-extension="@ + spec_join(exts, ","@)]
    } else {
        Seq::empty()
    }) + user_args
}

impl Chromium {
    /// The program names to search for in `PATH`, in order.
    pub open spec fn spec_binary_names(kind: BrowserKind) -> Seq<Seq<char>> {
        if kind == BrowserKind::Chrome {
            seq!["google-chrome-stable"@, "google-chrome"@]
        } else {
            seq!["chromium"@, "chromium-browser"@]
        }
    }

    /// The program names to search for in `PATH`, in order.
    pub fn binary_names(&self) -> (names: Vec<&'static str>)
        requires
            self@.kind != BrowserKind::Firefox,
        ensures
            names.deep_view() == Self::spec_binary_names(self@.kind),
    {
        let mut names: Vec<&'static str> = Vec::new();
        match self.kind {
            BrowserKind::Chrome => {
                names.push("google-chrome-stable");
                names.push("google-chrome");
            },
            _ => {
                names.push("chromium");
                names.push("chromium-browser");
            },
        }
        assert(names.deep_view() =~= Self::spec_binary_names(self@.kind));
        names
    }

    /// The binary to run: the configured override when there is one, else the
    /// first path in `located`, which holds the outcome of each lookup in
    /// search order; an error when every lookup failed.
    pub fn pick_binary(&self, located: &[Option<String>]) -> (r: Result<String, BrowserError>)
        ensures
            result_view(r) == spec_resolve_binary(self@.binary_override, located_view(located@), self@.kind),
    {
        resolve_binary(&self.binary_override, located, self.kind)
    }

    /// The arguments to start the browser with; fails before the profile exists.
    pub fn launch_args(&self, user_args: &[String]) -> (r: Result<Vec<String>, BrowserError>)
        ensures
            match self@.profile_dir {
                Some(p) => r matches Ok(args) && args.deep_view() == spec_chromium_args(self@, p, user_args.deep_view()),
                None => r == Err::<Vec<String>, BrowserError>(BrowserError::ProfileNotSetUp),
            },
    {
        let profile_dir = match self.profile_dir() {
            Ok(p) => p,
            Err(e) => return Err(e),
        };
        let mut args: Vec<String> = Vec::new();
        let mut first = "--user-data-dir=".to_owned();
        first.append(profile_dir);
        args.push(first);
        args.push("--no-first-run".to_owned());
        args.push("--no-default-browser-check".to_owned());
        args.push("--disable-background-networking".to_owned());
        args.push("--disable-component-update".to_owned());
        args.push("--disable-sync".to_owned());
        args.push("--disable-domain-reliability".to_owned());
        args.push("--disable-breakpad".to_owned());
        args.push("--disable-search-engine-choice-screen".to_owned());
        args.push("--disable-field-trial-config".to_owned());
        args.push("--metrics-recording-only".to_owned());
        args.push("--disable-features=OptimizationHints".to_owned());
        let ghost fixed = args.deep_view();
        assert(fixed =~= seq!["--user-data-dir="@ + profile_dir@] + chromium_fixed_flags());

        let mut extensions: Vec<String> = Vec::new();
        if let Some(d) = &self.ublock_dir {
            extensions.push(d.clone());
        }
        if let Some(d) = &self.theme_dir {
            extensions.push(d.clone());
        }
        assert(extensions.deep_view() =~= spec_extension_dirs(self@));
        if extensions.len() > 0 {
            let mut load = "--load-extension=".to_owned();
            let joined = join(&extensions, ",");
            load.append(joined.as_str());
            args.push(load);
        }
        let ghost before = args.deep_view();
        let mut rest = clone_all(user_args);
        args.append(&mut rest);
        assert(args.deep_view() =~= before + user_args.deep_view());
        Ok(args)
    }
}

/// The letter that stands for one character of the digest in an extension id:
/// `'a'` plus the character's value as a hex digit, where a character that is
/// no hex digit counts as 0.
pub open spec fn id_letter(c: char) -> char {
    let n: u8 = match hex_digit_value(c) {
        Some(n) => n,
        None => 0,
    };
    ((97 + n) as u8) as char
}

fn letter_for(c: char) -> (l: char)
    ensures
        l == id_letter(c),
{
    let n: u8 = match hex_digit(c) {
        Some(n) => n,
        None => 0,
    };
    (97u8 + n) as char
}

/// The extension id that Chromium gives an unpacked extension, from the output of
/// `sha256sum` run on the extension's canonical path: the output must be UTF-8
/// text whose first 32 bytes end at a character boundary; each character of
/// those 32 bytes becomes one letter.
pub open spec fn spec_extension_id(stdout: Seq<u8>) -> Option<Seq<char>> {
    if valid_utf8(stdout) && 32 <= stdout.len() && is_char_boundary(stdout, 32) {
        Some(decode_utf8(stdout.subrange(0, 32)).map_values(|c: char| id_letter(c)))
    } else {
        None
    }
}

/// The Chromium extension id written in the letters `a` to `p`, from the
/// output of `sha256sum` (whose first 32 hex digits are the first 16 bytes of
/// the SHA-256 digest of the extension's canonical path).
pub fn extension_id_from_sha256sum(stdout: &[u8]) -> (id: Option<String>)
    ensures
        opt_view(id) == spec_extension_id(stdout@),
{
    broadcast use vstd::utf8::group_utf8_lib;

    let text = match utf8_str(stdout) {
        Some(t) => t,
        None => return None,
    };
    if stdout.len() < 32 || !text.is_char_boundary(32) {
        return None;
    }
    let (hex, _rest) = text.split_at(32);
    proof {
        vstd::utf8::encode_utf8_decode_utf8(hex@);
        assert(hex.spec_bytes() =~= stdout@.subrange(0, 32));
    }
    let chars = chars_of(hex);
    let mut id = String::new();
    for i in 0..chars.len()
        invariant
            chars@ == hex@,
            id@ =~= chars@.take(i as int).map_values(|c: char| id_letter(c)),
    {
        push_char(&mut id, letter_for(chars[i]));
        assert(chars@.take(i + 1) =~= chars@.take(i as int).push(chars@[i as int]));
    }
    assert(chars@.take(chars@.len() as int) =~= chars@);
    Some(id)
}

/// Manifest of the theme extension that colours the browser purple
/// (frame `#2d1b4e`, inactive frame `#231144`, toolbar `#3d2b5e`, white text).
pub const THEME_MANIFEST: &'static str = r#"{
    "manifest_version": 2,
    "name": "Ephemeral Browser Theme",
    "version": "1.0",
    "theme": {
        "colors": {
            "frame": [45, 27, 78],
            "frame_inactive": [35, 17, 68],
            "toolbar": [61, 43, 94],
            "tab_background_text": [255, 255, 255],
            "bookmark_text": [255, 255, 255],
            "tab_text": [255, 255, 255]
        }
    }
}"#;

/// The text of the theme extension's manifest.
pub fn theme_manifest() -> (m: &'static str)
    ensures
        m@ == THEME_MANIFEST@,
{
    THEME_MANIFEST
}

pub const PREFS_BOOKMARK_BAR: &'static str = r#"{
    "bookmark_bar": {
        "show_on_all_tabs": "#;

/// Up to the theme extension id; the colour `-7208705` is `#9200ff` as a signed
/// ARGB integer, `color_scheme2` 2 is dark mode and `color_variant2` 1 is neutral.
pub const PREFS_THEME: &'static str = r#"
    },
    "browser": {
        "check_default_browser": false,
        "has_seen_welcome_page": true,
        "theme": {
            "color_scheme2": 2,
            "color_variant2": 1,
            "user_color2": -7208705
        }
    },
    "extensions": {
        "theme": {
            "id": ""#;

pub const PREFS_SESSION: &'static str = r#"",
            "system_theme": 0
        }
    },
    "session": {
        "restore_on_startup": "#;

pub const PREFS_STARTUP: &'static str = r#",
        "#;

pub const PREFS_HOMEPAGE: &'static str = r#"
        "dummy": true
    },
    "sync_promo": {
        "user_skipped": true
    },
    "first_run_tabs": [],
    "homepage": ""#;

pub const PREFS_DARK_MODE: &'static str = r#"",
    "homepage_is_newtabpage": false,
    "ntp": {
        "shortcut_visible": false
    },
    "webkit": {
        "webprefs": {
            "dark_mode_enabled": "#;

pub const PREFS_END: &'static str = r#"
        }
    }
}"#;

/// `true` or `false`, as JSON writes a boolean.
pub open spec fn bool_text(b: bool) -> Seq<char> {
    if b {
        "true"@
    } else {
        "false"@
    }
}

fn push_bool(s: &mut String, b: bool)
    ensures
        final(s)@ == old(s)@ + bool_text(b),
{
    if b {
        s.append("true");
    } else {
        s.append("false");
    }
}

/// The id under which the theme is registered when its extension id is unknown.
pub open spec fn fallback_theme_id() -> Seq<char> {
    "user_color_theme_id"@
}

/// The `Preferences` file of a new Chromium profile. Chromium restores its start
/// pages (`restore_on_startup` 4, with `startup_urls`) when there is a homepage,
/// and opens the new tab page (5, without `startup_urls`) when it is empty; the
/// theme extension is registered as the active theme, and dark mode follows the
/// dark theme.
pub open spec fn spec_preferences(
    homepage: Seq<char>,
    theme: Theme,
    show_bookmarks: bool,
    theme_extension_id: Option<Seq<char>>,
) -> Seq<char> {
    let ext_id = match theme_extension_id {
        Some(id) => id,
        None => fallback_theme_id(),
    };
    let restore = if homepage.len() == 0 { "5"@ } else { "4"@ };
    let startup_urls = if homepage.len() == 0 {
        Seq::empty()
    } else {
        "\"startup_urls\": [\""@ + homepage + "\"],"@
    };
    PREFS_BOOKMARK_BAR@ + bool_text(show_bookmarks) + PREFS_THEME@ + ext_id + PREFS_SESSION@
        + restore + PREFS_STARTUP@ + startup_urls + PREFS_HOMEPAGE@ + homepage
        + PREFS_DARK_MODE@ + bool_text(theme == Theme::Dark) + PREFS_END@
}

impl Chromium {
    /// The `Preferences` file for the configuration, given the id of the theme
    /// extension when it could be computed.
    pub fn preferences(cfg: &Config, theme_extension_id: Option<&str>) -> (prefs: String)
        ensures
            prefs@ == spec_preferences(
                cfg.spec_homepage_url(),
                cfg.theme,
                cfg.toolbar.spec_should_show(),
                match theme_extension_id {
                    Some(id) => Some(id@),
                    None => None,
                },
            ),
    {
        let homepage = cfg.homepage_url();
        let dark_mode = match cfg.theme {
            Theme::Dark => true,
            _ => false,
        };
        let mut prefs = PREFS_BOOKMARK_BAR.to_owned();
        push_bool(&mut prefs, cfg.toolbar.should_show());
        prefs.append(PREFS_THEME);
        match theme_extension_id {
            Some(id) => prefs.append(id),
            None => prefs.append("user_color_theme_id"),
        }
        prefs.append(PREFS_SESSION);
        if homepage.is_empty() {
            prefs.append("5");
        } else {
            prefs.append("4");
        }
        prefs.append(PREFS_STARTUP);
        if !homepage.is_empty() {
            prefs.append("\"startup_urls\": [\"");
            prefs.append(homepage);
            prefs.append("\"],");
        }
        prefs.append(PREFS_HOMEPAGE);
        prefs.append(homepage);
        prefs.append(PREFS_DARK_MODE);
        push_bool(&mut prefs, dark_mode);
        prefs.append(PREFS_END);
        prefs
    }
}

pub const BOOKMARK_NAME: &'static str = r#"            {
                "name": ""#;

pub const BOOKMARK_URL: &'static str = r#"",
                "type": "url",
                "url": ""#;

pub const BOOKMARK_END: &'static str = r#""
            }"#;

pub const BOOKMARKS_START: &'static str = r#"{
    "roots": {
        "bookmark_bar": {
            "children": [
"#;

pub const BOOKMARKS_END: &'static str = r#"
            ],
            "name": "Bookmarks bar",
            "type": "folder"
        },
        "other": {
            "children": [],
            "name": "Other bookmarks",
            "type": "folder"
        },
        "synced": {
            "children": [],
            "name": "Mobile bookmarks",
            "type": "folder"
        }
    },
    "version": 1
}"#;

/// One bookmark of the bookmarks bar; label and URL are written as they are.
pub open spec fn spec_bookmark_entry(tab: ToolbarTab) -> Seq<char> {
    BOOKMARK_NAME@ + tab.label@ + BOOKMARK_URL@ + tab.url@ + BOOKMARK_END@
}

/// The `Bookmarks` file of a new Chromium profile: the toolbar's bookmarks, in
/// order and separated by `,` and a line break, in the bookmarks bar.
pub open spec fn spec_chromium_bookmarks(tabs: Seq<ToolbarTab>) -> Seq<char> {
    BOOKMARKS_START@ + spec_join(tabs.map_values(|t: ToolbarTab| spec_bookmark_entry(t)), ",\n"@)
        + BOOKMARKS_END@
}

/// The `Bookmarks` file for the toolbar of the configuration.
pub fn chromium_bookmarks(cfg: &Config) -> (b: String)
    ensures
        b@ == spec_chromium_bookmarks(cfg.toolbar.tabs@),
{
    let tabs = &cfg.toolbar.tabs;
    let ghost entries = tabs@.map_values(|t: ToolbarTab| spec_bookmark_entry(t));
    let mut children = String::new();
    for i in 0..tabs.len()
        invariant
            entries == tabs@.map_values(|t: ToolbarTab| spec_bookmark_entry(t)),
            children@ == spec_join(entries.take(i as int), ",\n"@),
    {
        assert(entries.take(i + 1).drop_last() =~= entries.take(i as int));
        if i > 0 {
            children.append(",\n");
        } else {
            assert(children@ + entries[0] =~= entries[0]);
        }
        let ghost before = children@;
        children.append(BOOKMARK_NAME);
        children.append(tabs[i].label.as_str());
        children.append(BOOKMARK_URL);
        children.append(tabs[i].url.as_str());
        children.append(BOOKMARK_END);
        assert(children@ =~= before + spec_bookmark_entry(tabs@[i as int]));
    }
    assert(entries.take(tabs@.len() as int) =~= entries);
    let mut b = BOOKMARKS_START.to_owned();
    b.append(children.as_str());
    b.append(BOOKMARKS_END);
    b
}

/// One asset of a GitHub release, with the two fields the download reads:
/// each is `None` when the release description lacks it or holds no string there.
pub struct ReleaseAsset {
    pub name: Option<String>,
    pub download_url: Option<String>,
}

/// The name and download URL of an asset, as plain values.
pub open spec fn asset_fields(asset: ReleaseAsset) -> (Option<Seq<char>>, Option<Seq<char>>) {
    (opt_view(asset.name), opt_view(asset.download_url))
}

/// The names and download URLs of a list of assets.
pub open spec fn assets_view(assets: Seq<ReleaseAsset>) -> Seq<(Option<Seq<char>>, Option<Seq<char>>)> {
    assets.map_values(|a: ReleaseAsset| asset_fields(a))
}

/// The release description as read from its text, as plain values: `None`
/// when the text is not JSON, `Some(None)` when it has no asset array.
pub open spec fn release_view(r: Option<Option<Vec<ReleaseAsset>>>) -> Option<Option<Seq<(Option<Seq<char>>, Option<Seq<char>>)>>> {
    match r {
        None => None,
        Some(None) => Some(None),
        Some(Some(list)) => Some(Some(assets_view(list@))),
    }
}

/// The asset is the Chromium build: its name mentions `chromium`, ends in
/// `.zip`, and it has a download URL.
pub open spec fn is_chromium_zip(fields: (Option<Seq<char>>, Option<Seq<char>>)) -> bool {
    &&& fields.0 matches Some(name) && has_substring(name, "chromium"@) && ".zip"@.is_suffix_of(name)
    &&& fields.1 is Some
}

/// The download URL of the first asset that is the Chromium build.
pub open spec fn first_chromium_zip(assets: Seq<(Option<Seq<char>>, Option<Seq<char>>)>) -> Option<Seq<char>>
    decreases assets.len(),
{
    if assets.len() == 0 {
        None
    } else if is_chromium_zip(assets[0]) {
        Some(assets[0].1->0)
    } else {
        first_chromium_zip(assets.drop_first())
    }
}

/// The URL of the uBlock Origin Lite zip for Chromium, from the assets of the
/// latest release (`None` when the release description has no asset list).
pub fn ublock_lite_zip_url(assets: Option<&Vec<ReleaseAsset>>) -> (r: Result<String, BrowserError>)
    ensures
        match assets {
            None => r == Err::<String, BrowserError>(BrowserError::NoReleaseAssets),
            Some(list) => match first_chromium_zip(assets_view(list@)) {
                Some(url) => r matches Ok(s) && s@ == url,
                None => r == Err::<String, BrowserError>(BrowserError::ChromiumZipNotFound),
            },
        },
{
    let list = match assets {
        Some(list) => list,
        None => return Err(BrowserError::NoReleaseAssets),
    };
    let mut i: usize = 0;
    assert(assets_view(list@).skip(0) =~= assets_view(list@));
    while i < list.len()
        invariant
            0 <= i <= list@.len(),
            assets == Some(list),
            first_chromium_zip(assets_view(list@)) == first_chromium_zip(assets_view(list@).skip(i as int)),
        decreases list@.len() - i,
    {
        assert(assets_view(list@).skip(i as int).drop_first() =~= assets_view(list@).skip(i + 1));
        assert(assets_view(list@).skip(i as int)[0] == asset_fields(list@[i as int]));
        let asset = &list[i];
        if let Some(name) = &asset.name {
            if contains(name.as_str(), "chromium") && ends_with(name.as_str(), ".zip") {
                if let Some(url) = &asset.download_url {
                    return Ok(url.clone());
                }
            }
        }
        i = i + 1;
    }
    assert(assets_view(list@).skip(i as int) =~= Seq::<(Option<Seq<char>>, Option<Seq<char>>)>::empty());
    Err(BrowserError::ChromiumZipNotFound)
}

/// What `serde_json` reads from the text of a release description: `None`
/// when the text is not JSON; `Some(None)` when the value has no `assets`
/// array; otherwise, for each element of that array, its `name` and its
/// `browser_download_url`, each `None` where the element holds no string there.
pub uninterp spec fn release_assets_of(body: Seq<char>) -> Option<Option<Seq<(Option<Seq<char>>, Option<Seq<char>>)>>>;

/// The assets of a release description, read with `serde_json::from_str`.
///
/// Trusted: the result is `release_assets_of` of the text; nothing more is
/// said of what `serde_json` accepts as JSON.
#[verifier::external_body]
pub fn parse_release_assets(body: &str) -> (r: Option<Option<Vec<ReleaseAsset>>>)
    ensures
        release_view(r) == release_assets_of(body@),
{
    let json: serde_json::Value = serde_json::from_str(body).ok()?;
    Some(json["assets"].as_array().map(|assets| {
        assets.iter().map(|asset| ReleaseAsset {
            name: asset["name"].as_str().map(str::to_string),
            download_url: asset["browser_download_url"].as_str().map(str::to_string),
        }).collect()
    }))
}

/// The URL of the uBlock Origin Lite zip for Chromium, from the text of the
/// latest release's description.
pub fn ublock_lite_zip_url_from_release(body: &str) -> (r: Result<String, BrowserError>)
    ensures
        match release_assets_of(body@) {
            None => r == Err::<String, BrowserError>(BrowserError::InvalidReleaseJson),
            Some(None) => r == Err::<String, BrowserError>(BrowserError::NoReleaseAssets),
            Some(Some(fields)) => match first_chromium_zip(fields) {
                Some(url) => r matches Ok(s) && s@ == url,
                None => r == Err::<String, BrowserError>(BrowserError::ChromiumZipNotFound),
            },
        },
{
    match parse_release_assets(body) {
        None => Err(BrowserError::InvalidReleaseJson),
        Some(None) => ublock_lite_zip_url(None),
        Some(Some(list)) => ublock_lite_zip_url(Some(&list)),
    }
}

proof fn lemma_id_letter_range(c: char)
    ensures
        'a' <= id_letter(c) <= 'p',
{
    let n: u8 = match hex_digit_value(c) {
        Some(n) => n,
        None => 0,
    };
    assert(n <= 15);
    assert(((97 + n) as u8) as char as u32 == 97 + n);
}

/// Every letter of an extension id lies between `a` and `p`, whatever `sha256sum` printed.
pub proof fn extension_id_letters(stdout: Seq<u8>)
    ensures
        spec_extension_id(stdout) matches Some(id) ==> forall|i: int| 0 <= i < id.len() ==> 'a' <= #[trigger] id[i] <= 'p',
{
    if let Some(id) = spec_extension_id(stdout) {
        assert forall|i: int| 0 <= i < id.len() implies 'a' <= #[trigger] id[i] <= 'p' by {
            lemma_id_letter_range(decode_utf8(stdout.subrange(0, 32))[i]);
        }
    }
}

proof fn lemma_ascii_decode(bytes: Seq<u8>)
    requires
        forall|i: int| 0 <= i < bytes.len() ==> #[trigger] bytes[i] < 0x80,
    ensures
        valid_utf8(bytes),
        decode_utf8(bytes).len() == bytes.len(),
    decreases bytes.len(),
{
    if bytes.len() > 0 {
        let b = bytes[0];
        assert(b < 0x80);
        assert(b & 0x7f == b) by (bit_vector)
            requires
                b < 0x80,
        ;
        let rest = bytes.subrange(1, bytes.len() as int);
        assert(pop_first_scalar(bytes) == rest);
        assert forall|i: int| 0 <= i < rest.len() implies #[trigger] rest[i] < 0x80 by {
            assert(rest[i] == bytes[i + 1]);
        }
        lemma_ascii_decode(rest);
    }
}

/// When `sha256sum` prints UTF-8 text whose first 32 bytes are ASCII, as its
/// hex digest is, the extension id has exactly 32 letters.
pub proof fn extension_id_of_ascii_digest(stdout: Seq<u8>)
    requires
        valid_utf8(stdout),
        stdout.len() >= 32,
        forall|i: int| 0 <= i < 32 ==> #[trigger] stdout[i] < 0x80,
    ensures
        spec_extension_id(stdout) matches Some(id) && id.len() == 32,
{
    let prefix = stdout.subrange(0, 32);
    assert forall|i: int| 0 <= i < prefix.len() implies #[trigger] prefix[i] < 0x80 by {
        assert(prefix[i] == stdout[i]);
    }
    lemma_ascii_decode(prefix);
    lemma_ascii_prefix_boundary(stdout, 32);
}

proof fn lemma_ascii_prefix_boundary(bytes: Seq<u8>, n: int)
    requires
        valid_utf8(bytes),
        0 <= n <= bytes.len(),
        forall|i: int| 0 <= i < n ==> #[trigger] bytes[i] < 0x80,
    ensures
        is_char_boundary(bytes, n),
    decreases n,
{
    if n > 0 {
        let rest = bytes.subrange(1, bytes.len() as int);
        assert(bytes[0] < 0x80);
        assert(pop_first_scalar(bytes) == rest);
        assert forall|i: int| 0 <= i < n - 1 implies #[trigger] rest[i] < 0x80 by {
            assert(rest[i] == bytes[i + 1]);
        }
        lemma_ascii_prefix_boundary(rest, n - 1);
    }
}

/// Where the description of the latest uBlock Origin Lite release is fetched from.
pub const UBLOCK_LITE_RELEASES_URL: &'static str = "https://api.github.com/repos/uBlockOrigin/uBOL-home/releases/latest";

/// Cache file of the downloaded uBlock Origin Lite zip.
pub const UBLOCK_LITE_ZIP_NAME: &'static str = "ublock-origin-lite-chromium.zip";

/// Cache directory into which the uBlock Origin Lite zip is unpacked.
pub const UBLOCK_LITE_DIR_NAME: &'static str = "ublock-origin-lite-chromium";

/// Directory of the theme extension inside the profile.
pub const THEME_DIR_NAME: &'static str = "ephemeral-theme";

/// The arguments given on the command line are passed on last, unchanged and in
/// order, so the pages they name are opened.
pub proof fn chromium_args_end_with_user_args(v: ChromiumView, profile_dir: Seq<char>, user_args: Seq<Seq<char>>)
    ensures
        ({
            let args = spec_chromium_args(v, profile_dir, user_args);
            &&& args[0] == "--user-data-dir="@ + profile_dir
            &&& user_args.is_suffix_of(args)
        }),
{
    let args = spec_chromium_args(v, profile_dir, user_args);
    assert(args.subrange(args.len() - user_args.len(), args.len() as int) =~= user_args);
}

/// The asset whose name mentions `chromium` and ends in `.zip`, and that has
/// a download URL, is taken when it is the first such asset; assets before it
/// that miss any of the three are passed over.
pub proof fn first_chromium_zip_is_taken(
    fields: Seq<(Option<Seq<char>>, Option<Seq<char>>)>,
    i: int,
    name: Seq<char>,
    url: Seq<char>,
)
    requires
        0 <= i < fields.len(),
        fields[i] == (Some(name), Some(url)),
        has_substring(name, "chromium"@),
        ".zip"@.is_suffix_of(name),
        forall|j: int| 0 <= j < i ==> !({
            let f = #[trigger] fields[j];
            &&& f.0 is Some
            &&& has_substring(f.0->0, "chromium"@)
            &&& ".zip"@.is_suffix_of(f.0->0)
            &&& f.1 is Some
        }),
    ensures
        first_chromium_zip(fields) == Some(url),
    decreases i,
{
    if i > 0 {
        assert(!is_chromium_zip(fields[0]));
        assert forall|j: int| 0 <= j < i - 1 implies !({
            let f = #[trigger] fields.drop_first()[j];
            &&& f.0 is Some
            &&& has_substring(f.0->0, "chromium"@)
            &&& ".zip"@.is_suffix_of(f.0->0)
            &&& f.1 is Some
        }) by {
            assert(fields.drop_first()[j] == fields[j + 1]);
        }
        first_chromium_zip_is_taken(fields.drop_first(), i - 1, name, url);
    }
}

/// When no asset mentions `chromium`, ends in `.zip` and has a download URL,
/// none is taken.
pub proof fn no_chromium_zip_is_taken(fields: Seq<(Option<Seq<char>>, Option<Seq<char>>)>)
    requires
        forall|j: int| 0 <= j < fields.len() ==> !({
            let f = #[trigger] fields[j];
            &&& f.0 is Some
            &&& has_substring(f.0->0, "chromium"@)
            &&& ".zip"@.is_suffix_of(f.0->0)
            &&& f.1 is Some
        }),
    ensures
        first_chromium_zip(fields) is None,
    decreases fields.len(),
{
    if fields.len() > 0 {
        assert(!is_chromium_zip(fields[0]));
        assert forall|j: int| 0 <= j < fields.len() - 1 implies !({
            let f = #[trigger] fields.drop_first()[j];
            &&& f.0 is Some
            &&& has_substring(f.0->0, "chromium"@)
            &&& ".zip"@.is_suffix_of(f.0->0)
            &&& f.1 is Some
        }) by {
            assert(fields.drop_first()[j] == fields[j + 1]);
        }
        no_chromium_zip_is_taken(fields.drop_first());
    }
}

/// The bookmarks bar is shown on all tabs exactly when the toolbar should
/// show, whatever the homepage, theme and theme extension id.
pub proof fn preferences_show_bookmarks_bar(
    homepage: Seq<char>,
    theme: Theme,
    show_bookmarks: bool,
    theme_extension_id: Option<Seq<char>>,
)
    ensures
        show_bookmarks ==> (PREFS_BOOKMARK_BAR@ + "true"@).is_prefix_of(
            spec_preferences(homepage, theme, show_bookmarks, theme_extension_id),
        ),
        !show_bookmarks ==> (PREFS_BOOKMARK_BAR@ + "false"@).is_prefix_of(
            spec_preferences(homepage, theme, show_bookmarks, theme_extension_id),
        ),
{
    let p = spec_preferences(homepage, theme, show_bookmarks, theme_extension_id);
    let head = PREFS_BOOKMARK_BAR@ + bool_text(show_bookmarks);
    assert(p.subrange(0, head.len() as int) =~= head);
}

/// Dark mode is enabled exactly for the dark theme, whatever the homepage,
/// toolbar and theme extension id.
pub proof fn preferences_dark_mode(
    homepage: Seq<char>,
    theme: Theme,
    show_bookmarks: bool,
    theme_extension_id: Option<Seq<char>>,
)
    ensures
        theme == Theme::Dark ==> (PREFS_DARK_MODE@ + "true"@ + PREFS_END@).is_suffix_of(
            spec_preferences(homepage, theme, show_bookmarks, theme_extension_id),
        ),
        theme != Theme::Dark ==> (PREFS_DARK_MODE@ + "false"@ + PREFS_END@).is_suffix_of(
            spec_preferences(homepage, theme, show_bookmarks, theme_extension_id),
        ),
{
    let p = spec_preferences(homepage, theme, show_bookmarks, theme_extension_id);
    let tail = PREFS_DARK_MODE@ + bool_text(theme == Theme::Dark) + PREFS_END@;
    assert(p.subrange(p.len() - tail.len(), p.len() as int) =~= tail);
}

/// Where `part` lies inside `spec_join(parts, sep)`.
proof fn lemma_join_part_at(parts: Seq<Seq<char>>, sep: Seq<char>, i: int) -> (k: int)
    requires
        0 <= i < parts.len(),
    ensures
        0 <= k,
        k + parts[i].len() <= spec_join(parts, sep).len(),
        spec_join(parts, sep).subrange(k, k + parts[i].len()) == parts[i],
    decreases parts.len(),
{
    let j = spec_join(parts, sep);
    if parts.len() == 1 {
        assert(j.subrange(0, parts[0].len() as int) =~= parts[0]);
        0
    } else if i == parts.len() - 1 {
        let k: int = (spec_join(parts.drop_last(), sep).len() + sep.len()) as int;
        assert(j.subrange(k, k + parts[i].len()) =~= parts[i]);
        k
    } else {
        let k = lemma_join_part_at(parts.drop_last(), sep, i);
        let prev = spec_join(parts.drop_last(), sep);
        assert(j.subrange(k, k + parts[i].len()) =~= prev.subrange(k, k + parts[i].len()));
        k
    }
}

/// The bookmarks file holds an entry for every tab with its label and URL
/// exactly as configured, neither escaped nor altered.
pub proof fn chromium_bookmarks_keep_label_and_url(tabs: Seq<ToolbarTab>, i: int)
    requires
        0 <= i < tabs.len(),
    ensures
        has_substring(
            spec_chromium_bookmarks(tabs),
            BOOKMARK_NAME@ + tabs[i].label@ + BOOKMARK_URL@ + tabs[i].url@ + BOOKMARK_END@,
        ),
{
    let entries = tabs.map_values(|t: ToolbarTab| spec_bookmark_entry(t));
    let entry = BOOKMARK_NAME@ + tabs[i].label@ + BOOKMARK_URL@ + tabs[i].url@ + BOOKMARK_END@;
    assert(entries[i] == entry);
    let k = lemma_join_part_at(entries, ",\n"@, i);
    let body = spec_join(entries, ",\n"@);
    let file = spec_chromium_bookmarks(tabs);
    let at: int = BOOKMARKS_START@.len() as int + k;
    assert(file == BOOKMARKS_START@ + body + BOOKMARKS_END@);
    assert(file.subrange(at, at + entry.len()) =~= body.subrange(k, k + entry.len()));
    assert(file.subrange(at, at + entry.len()) == entry);
}

/// The theme extension is registered under its id when that is known, and
/// under `user_color_theme_id` otherwise.
pub proof fn preferences_theme_id(
    homepage: Seq<char>,
    theme: Theme,
    show_bookmarks: bool,
    theme_extension_id: Option<Seq<char>>,
)
    ensures
        theme_extension_id matches Some(id) ==> has_substring(
            spec_preferences(homepage, theme, show_bookmarks, theme_extension_id),
            PREFS_THEME@ + id + PREFS_SESSION@,
        ),
        theme_extension_id is None ==> has_substring(
            spec_preferences(homepage, theme, show_bookmarks, theme_extension_id),
            PREFS_THEME@ + "user_color_theme_id"@ + PREFS_SESSION@,
        ),
{
    let p = spec_preferences(homepage, theme, show_bookmarks, theme_extension_id);
    let pre = PREFS_BOOKMARK_BAR@ + bool_text(show_bookmarks);
    let id = match theme_extension_id {
        Some(id) => id,
        None => fallback_theme_id(),
    };
    let part = PREFS_THEME@ + id + PREFS_SESSION@;
    assert(p.subrange(pre.len() as int, (pre.len() + part.len()) as int) =~= part);
}

/// With a homepage, Chromium restores it at startup (`restore_on_startup` 4
/// and the homepage as the one startup URL); with an empty homepage it opens
/// the new tab page (`restore_on_startup` 5, no startup URL). Either way the
/// `homepage` field holds the homepage.
pub proof fn preferences_startup(
    homepage: Seq<char>,
    theme: Theme,
    show_bookmarks: bool,
    theme_extension_id: Option<Seq<char>>,
)
    ensures
        homepage.len() != 0 ==> has_substring(
            spec_preferences(homepage, theme, show_bookmarks, theme_extension_id),
            PREFS_SESSION@ + "4"@ + PREFS_STARTUP@ + "\"startup_urls\": [\""@ + homepage + "\"],"@ + PREFS_HOMEPAGE@
                + homepage + PREFS_DARK_MODE@,
        ),
        homepage.len() == 0 ==> has_substring(
            spec_preferences(homepage, theme, show_bookmarks, theme_extension_id),
            PREFS_SESSION@ + "5"@ + PREFS_STARTUP@ + PREFS_HOMEPAGE@ + PREFS_DARK_MODE@,
        ),
{
    let p = spec_preferences(homepage, theme, show_bookmarks, theme_extension_id);
    let id = match theme_extension_id {
        Some(id) => id,
        None => fallback_theme_id(),
    };
    let pre = PREFS_BOOKMARK_BAR@ + bool_text(show_bookmarks) + PREFS_THEME@ + id;
    let restore = if homepage.len() == 0 { "5"@ } else { "4"@ };
    let startup_urls = if homepage.len() == 0 {
        Seq::empty()
    } else {
        "\"startup_urls\": [\""@ + homepage + "\"],"@
    };
    let part = PREFS_SESSION@ + restore + PREFS_STARTUP@ + startup_urls + PREFS_HOMEPAGE@ + homepage + PREFS_DARK_MODE@;
    assert(p.subrange(pre.len() as int, (pre.len() + part.len()) as int) =~= part);
    if homepage.len() == 0 {
        assert(part =~= PREFS_SESSION@ + "5"@ + PREFS_STARTUP@ + PREFS_HOMEPAGE@ + PREFS_DARK_MODE@);
    } else {
        assert(part =~= PREFS_SESSION@ + "4"@ + PREFS_STARTUP@ + "\"startup_urls\": [\""@ + homepage + "\"],"@
            + PREFS_HOMEPAGE@ + homepage + PREFS_DARK_MODE@);
    }
}

/// Every session gets the same privacy flags after the profile flag. The
/// loaded extensions are uBlock Origin Lite and then the theme, each when
/// present, joined by a comma into one `--load-extension` flag after those
/// flags; without either there is no such flag.
pub proof fn chromium_args_load_extensions(v: ChromiumView, profile_dir: Seq<char>, user_args: Seq<Seq<char>>)
    ensures
        ({
            let args = spec_chromium_args(v, profile_dir, user_args);
            &&& args.len() >= 12
            &&& args.subrange(1, 12) == seq![
                "--no-first-run"@,
                "--no-default-browser-check"@,
                "--disable-background-networking"@,
                "--disable-component-update"@,
                "--disable-sync"@,
                "--disable-domain-reliability"@,
                "--disable-breakpad"@,
                "--disable-search-engine-choice-screen"@,
                "--disable-field-trial-config"@,
                "--metrics-recording-only"@,
                "--disable-features=OptimizationHints"@,
            ]
            &&& (v.ublock_dir is Some && v.theme_dir is Some ==> args[12]
                == "--load-extension="@ + v.ublock_dir->0 + ","@ + v.theme_dir->0)
            &&& (v.ublock_dir is Some && v.theme_dir is None ==> args[12] == "--load-extension="@ + v.ublock_dir->0)
            &&& (v.ublock_dir is None && v.theme_dir is Some ==> args[12] == "--load-extension="@ + v.theme_dir->0)
            &&& (v.ublock_dir is None && v.theme_dir is None ==> args.len() == 12 + user_args.len())
        }),
{
    let exts = spec_extension_dirs(v);
    let args = spec_chromium_args(v, profile_dir, user_args);
    assert(args.subrange(1, 12) =~= chromium_fixed_flags());
    if exts.len() == 2 {
        assert(exts.drop_last() =~= seq![exts[0]]);
    }
    reveal_with_fuel(spec_join, 2);
}

} // verus!

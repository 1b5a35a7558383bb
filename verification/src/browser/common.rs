//! What both browser families share: choosing the binary, HTML escaping, the
//! bookmarks file, the PID file, the age limit of cached downloads, and which
//! leftover profiles are stale.

use vstd::prelude::*;

use crate::browser::BrowserError;
use crate::config::{BrowserKind, Config, ToolbarTab};
use crate::text::{
    all_digits, chars_of, decimal, digit_char, has_substring, is_whitespace, digits_value, is_digit, opt_view, parse_u32, push_char, push_decimal,
    result_view, spec_parse_u32, starts_with, spec_trim, trim_bounds, trim_end, trim_start, unsigned_digits,
};

verus! {

/// The first entry of `located` that holds a path.
pub open spec fn first_located(located: Seq<Option<Seq<char>>>) -> Option<Seq<char>>
    decreases located.len(),
{
    if located.len() == 0 {
        None
    } else {
        match located[0] {
            Some(p) => Some(p),
            None => first_located(located.drop_first()),
        }
    }
}

/// The located paths of `located`, as plain values.
pub open spec fn located_view(located: Seq<Option<String>>) -> Seq<Option<Seq<char>>> {
    located.map_values(|o: Option<String>| opt_view(o))
}

/// The binary to run: the override when there is one, else the first located
/// path, else the error that no binary of `kind` was found.
pub open spec fn spec_resolve_binary(
    binary_override: Option<Seq<char>>,
    located: Seq<Option<Seq<char>>>,
    kind: BrowserKind,
) -> Result<Seq<char>, BrowserError> {
    match binary_override {
        Some(p) => Ok(p),
        None => match first_located(located) {
            Some(p) => Ok(p),
            None => Err(BrowserError::NotFoundInPath(kind)),
        },
    }
}

/// The binary to run, from the override and the outcome of each lookup in search order.
pub fn resolve_binary(binary_override: &Option<String>, located: &[Option<String>], kind: BrowserKind) -> (r: Result<String, BrowserError>)
    ensures
        result_view(r) == spec_resolve_binary(opt_view(*binary_override), located_view(located@), kind),
{
    if let Some(p) = binary_override {
        return Ok(p.clone());
    }
    let mut i: usize = 0;
    assert(located@.skip(0) =~= located@);
    while i < located.len()
        invariant
            0 <= i <= located@.len(),
            binary_override is None,
            first_located(located_view(located@)) == first_located(located_view(located@.skip(i as int))),
        decreases located@.len() - i,
    {
        assert(located_view(located@.skip(i as int)).drop_first() =~= located_view(located@.skip(i + 1)));
        assert(located_view(located@.skip(i as int))[0] == opt_view(located@[i as int]));
        assert(located_view(located@.skip(i as int)).len() > 0);
        if let Some(p) = &located[i] {
            assert(first_located(located_view(located@.skip(i as int))) == Some(p@));
            return Ok(p.clone());
        }
        i = i + 1;
    }
    assert(located_view(located@.skip(i as int)) =~= Seq::<Option<Seq<char>>>::empty());
    Err(BrowserError::NotFoundInPath(kind))
}

/// What HTML escaping writes for one character: an entity for `&`, `<`, `>`
/// and `"`, the character itself otherwise.
pub open spec fn escape_char(c: char) -> Seq<char> {
    if c == '&' {
        "&amp;"@
    } else if c == '<' {
        "&lt;"@
    } else if c == '>' {
        "&gt;"@
    } else if c == '"' {
        "&quot;"@
    } else {
        seq![c]
    }
}

/// `s` with each character escaped in turn.
pub open spec fn spec_html_escape(s: Seq<char>) -> Seq<char>
    decreases s.len(),
{
    if s.len() == 0 {
        Seq::empty()
    } else {
        spec_html_escape(s.drop_last()) + escape_char(s.last())
    }
}

/// `s` made safe to stand in HTML text or in a double-quoted attribute.
pub fn html_escape(s: &str) -> (escaped: String)
    ensures
        escaped@ == spec_html_escape(s@),
{
    let chars = chars_of(s);
    let mut escaped = String::new();
    for i in 0..chars.len()
        invariant
            chars@ == s@,
            escaped@ == spec_html_escape(chars@.take(i as int)),
    {
        assert(chars@.take(i + 1).drop_last() =~= chars@.take(i as int));
        let c: char = chars[i];
        if c == '&' {
            escaped.append("&amp;");
        } else if c == '<' {
            escaped.append("&lt;");
        } else if c == '>' {
            escaped.append("&gt;");
        } else if c == '"' {
            escaped.append("&quot;");
        } else {
            push_char(&mut escaped, c);
        }
    }
    assert(chars@.take(chars@.len() as int) =~= chars@);
    escaped
}

pub const BOOKMARKS_HTML_HEAD: &'static str = r#"<!DOCTYPE NETSCAPE-Bookmark-file-1>
<META HTTP-EQUIV="Content-Type" CONTENT="text/html; charset=UTF-8">
<TITLE>Bookmarks</TITLE>
<H1>Bookmarks Menu</H1>
<DL><p>
    <DT><H3 ADD_DATE="1" LAST_MODIFIED="1" PERSONAL_TOOLBAR_FOLDER="true">Bookmarks Toolbar</H3>
    <DL><p>
"#;

pub const BOOKMARKS_HTML_FOOT: &'static str = r#"    </DL><p>
</DL><p>
"#;

/// One line of the bookmarks toolbar folder, with the URL and label escaped.
pub open spec fn spec_bookmark_line(tab: ToolbarTab) -> Seq<char> {
    "        <DT><A HREF=\""@ + spec_html_escape(tab.url@) + "\">"@ + spec_html_escape(tab.label@)
        + "</A>\n"@
}

/// The lines of all bookmarks, in order.
pub open spec fn spec_bookmark_lines(tabs: Seq<ToolbarTab>) -> Seq<char>
    decreases tabs.len(),
{
    if tabs.len() == 0 {
        Seq::empty()
    } else {
        spec_bookmark_lines(tabs.drop_last()) + spec_bookmark_line(tabs.last())
    }
}

/// The Netscape bookmarks file that Firefox imports: the toolbar's bookmarks, in
/// order, inside the bookmarks toolbar folder.
pub open spec fn spec_bookmarks_html(tabs: Seq<ToolbarTab>) -> Seq<char> {
    BOOKMARKS_HTML_HEAD@ + spec_bookmark_lines(tabs) + BOOKMARKS_HTML_FOOT@
}

/// The bookmarks file for the toolbar of the configuration.
pub fn bookmarks_html(cfg: &Config) -> (html: String)
    ensures
        html@ == spec_bookmarks_html(cfg.toolbar.tabs@),
{
    let tabs = &cfg.toolbar.tabs;
    let mut html = BOOKMARKS_HTML_HEAD.to_owned();
    for i in 0..tabs.len()
        invariant
            html@ == BOOKMARKS_HTML_HEAD@ + spec_bookmark_lines(tabs@.take(i as int)),
    {
        assert(tabs@.take(i + 1).drop_last() =~= tabs@.take(i as int));
        let url = html_escape(tabs[i].url.as_str());
        let label = html_escape(tabs[i].label.as_str());
        html.append("        <DT><A HREF=\"");
        html.append(url.as_str());
        html.append("\">");
        html.append(label.as_str());
        html.append("</A>\n");
    }
    assert(tabs@.take(tabs@.len() as int) =~= tabs@);
    html.append(BOOKMARKS_HTML_FOOT);
    html
}

/// Name of the file in the profile directory that holds the owner's PID.
pub const PID_FILE_NAME: &'static str = "ephemeral-browser.pid";

/// What the PID file of `pid` holds: the PID in decimal, with nothing around it.
pub open spec fn pid_file_text(pid: u32) -> Seq<char> {
    decimal(pid as nat)
}

/// The text to write to the PID file.
pub fn pid_file_contents(pid: u32) -> (text: String)
    ensures
        text@ == pid_file_text(pid),
{
    let mut text = String::new();
    push_decimal(&mut text, pid);
    text
}

/// The PID that a PID file holds: its text without surrounding whitespace,
/// read as a `u32`; `None` when that is not a valid number.
pub open spec fn spec_parse_pid(contents: Seq<char>) -> Option<u32> {
    spec_parse_u32(spec_trim(contents))
}

/// The PID written in the text of a PID file, if it holds one.
pub fn parse_pid(contents: &str) -> (pid: Option<u32>)
    ensures
        pid == spec_parse_pid(contents@),
{
    let chars = chars_of(contents);
    let (start, end) = trim_bounds(&chars);
    parse_u32(&chars, start, end)
}

/// The `/proc` entry that exists while the process `pid` runs.
pub fn proc_entry_path(pid: u32) -> (path: String)
    ensures
        path@ == "/proc/"@ + decimal(pid as nat),
{
    let mut path = "/proc/".to_owned();
    push_decimal(&mut path, pid);
    path
}

proof fn lemma_decimal_digits(n: nat)
    ensures
        decimal(n).len() > 0,
        all_digits(decimal(n)),
        digits_value(decimal(n)) == n,
    decreases n,
{
    assert(digit_char(n % 10) as nat == 48 + n % 10);
    if n >= 10 {
        lemma_decimal_digits(n / 10);
        let d = decimal(n);
        assert(d.drop_last() =~= decimal(n / 10));
        assert(d.last() == digit_char(n % 10));
        assert forall|i: int| 0 <= i < d.len() implies #[trigger] is_digit(d[i]) by {
            if i < d.len() - 1 {
                assert(is_digit(decimal(n / 10)[i]));
            }
        }
    } else {
        assert(decimal(n).drop_last() =~= Seq::<char>::empty());
        assert(digits_value(Seq::<char>::empty()) == 0);
        assert(all_digits(decimal(n)));
    }
}

/// Reading a PID file gives back the PID that was written to it.
pub proof fn pid_file_round_trip(pid: u32)
    ensures
        spec_parse_pid(pid_file_text(pid)) == Some(pid),
{
    let d = decimal(pid as nat);
    lemma_decimal_digits(pid as nat);
    assert(is_digit(d[0]) && is_digit(d.last()));
    assert(trim_start(d) == d);
    assert(trim_end(d) == d);
    assert(unsigned_digits(d) == d);
}

/// Directory under the user's cache directory that holds the downloads.
pub const CACHE_DIR_NAME: &'static str = "ephemeral-browser";

/// How long a downloaded extension is kept before it is fetched again: 7 days.
pub const CACHE_MAX_AGE_SECS: u64 = 7 * 24 * 3600;

/// What is known of a cached download.
pub enum CachedFile {
    /// Its metadata cannot be read: it is missing, or out of reach.
    Unreadable,
    /// It was last modified this long ago (whole seconds and nanoseconds).
    Age { secs: u64, nanos: u32 },
    /// Its modification time lies in the future.
    ModifiedInFuture,
}

/// `secs` seconds and `nanos` nanoseconds is longer than `limit` whole seconds,
/// compared as `Duration` compares.
pub open spec fn longer_than(secs: u64, nanos: u32, limit: u64) -> bool {
    secs > limit || (secs == limit && nanos > 0)
}

/// A cached download is fetched again when it cannot be read, when its age is
/// unknown (which counts as the longest possible age), or when it is older than 7 days.
pub open spec fn spec_needs_download(file: CachedFile) -> bool {
    match file {
        CachedFile::Unreadable => true,
        CachedFile::Age { secs, nanos } => longer_than(secs, nanos, CACHE_MAX_AGE_SECS),
        CachedFile::ModifiedInFuture => true,
    }
}

/// Whether the cached file must be downloaded again.
pub fn needs_download(file: &CachedFile) -> (b: bool)
    ensures
        b == spec_needs_download(*file),
{
    match file {
        CachedFile::Unreadable => true,
        CachedFile::Age { secs, nanos } => *secs > CACHE_MAX_AGE_SECS || (*secs == CACHE_MAX_AGE_SECS && *nanos > 0),
        CachedFile::ModifiedInFuture => true,
    }
}

/// A cached file that is due at some age is still due at any greater age.
pub proof fn needs_download_monotone(secs: u64, nanos: u32, later_secs: u64, later_nanos: u32)
    requires
        spec_needs_download(CachedFile::Age { secs, nanos }),
        secs < later_secs || (secs == later_secs && nanos <= later_nanos),
    ensures
        spec_needs_download(CachedFile::Age { secs: later_secs, nanos: later_nanos }),
{
}

/// Prefix of the temporary directories that hold profiles.
pub const PROFILE_DIR_PREFIX: &'static str = "ephemeral-browser-";

/// How old a profile directory without a readable PID file must be before it is
/// removed: one hour.
pub const STALE_PROFILE_AGE_SECS: u64 = 3600;

/// A temporary directory entry is a candidate for cleanup when it is a directory
/// whose name begins with the profile prefix.
pub open spec fn spec_is_profile_candidate(name: Seq<char>, is_dir: bool) -> bool {
    PROFILE_DIR_PREFIX@.is_prefix_of(name) && is_dir
}

/// Whether the directory entry may be a leftover profile.
pub fn is_profile_candidate(name: &str, is_dir: bool) -> (b: bool)
    ensures
        b == spec_is_profile_candidate(name@, is_dir),
{
    starts_with(name, PROFILE_DIR_PREFIX) && is_dir
}

/// A leftover profile is stale when its PID file names a process that has
/// ended, or, without a readable PID file, when it is known to be older than an hour.
/// `owner_alive` is whether the process of the PID file still runs (`None`
/// without a readable PID file); `age` is the directory's age when known.
pub open spec fn spec_is_stale_profile(owner_alive: Option<bool>, age: Option<(u64, u32)>) -> bool {
    match owner_alive {
        Some(alive) => !alive,
        None => match age {
            Some((secs, nanos)) => longer_than(secs, nanos, STALE_PROFILE_AGE_SECS),
            None => false,
        },
    }
}

/// Whether a leftover profile is to be removed.
pub fn is_stale_profile(owner_alive: Option<bool>, age: Option<(u64, u32)>) -> (b: bool)
    ensures
        b == spec_is_stale_profile(owner_alive, age),
{
    match owner_alive {
        Some(alive) => !alive,
        None => match age {
            Some((secs, nanos)) => secs > STALE_PROFILE_AGE_SECS || (secs == STALE_PROFILE_AGE_SECS && nanos > 0),
            None => false,
        },
    }
}

/// The profile of a process that still runs is never removed, whatever its age.
pub proof fn live_profile_is_kept(age: Option<(u64, u32)>)
    ensures
        !spec_is_stale_profile(Some(true), age),
{
}

/// Whether `c` is one of the characters that HTML escaping replaces.
pub open spec fn is_markup_char(c: char) -> bool {
    c == '&' || c == '<' || c == '>' || c == '"'
}

proof fn lemma_escape_char_no_markup(c: char)
    ensures
        forall|i: int| 0 <= i < escape_char(c).len() ==> {
            let e = #[trigger] escape_char(c)[i];
            e != '<' && e != '>' && e != '"'
        },
{
    reveal_strlit("&amp;");
    reveal_strlit("&lt;");
    reveal_strlit("&gt;");
    reveal_strlit("&quot;");
}

/// Escaped text holds no `<`, `>` or `"`, so it cannot open a tag or close an attribute.
pub proof fn html_escape_leaves_no_markup(s: Seq<char>)
    ensures
        forall|i: int| 0 <= i < spec_html_escape(s).len() ==> {
            let e = #[trigger] spec_html_escape(s)[i];
            e != '<' && e != '>' && e != '"'
        },
    decreases s.len(),
{
    if s.len() > 0 {
        html_escape_leaves_no_markup(s.drop_last());
        lemma_escape_char_no_markup(s.last());
        let a = spec_html_escape(s.drop_last());
        let b = escape_char(s.last());
        assert forall|i: int| 0 <= i < spec_html_escape(s).len() implies {
            let e = #[trigger] spec_html_escape(s)[i];
            e != '<' && e != '>' && e != '"'
        } by {
            if i < a.len() {
                assert(spec_html_escape(s)[i] == a[i]);
            } else {
                assert(spec_html_escape(s)[i] == b[i - a.len()]);
            }
        }
    }
}

/// Text without `&`, `<`, `>` and `"` is left as it is.
pub proof fn html_escape_keeps_plain_text(s: Seq<char>)
    requires
        forall|i: int| 0 <= i < s.len() ==> !is_markup_char(#[trigger] s[i]),
    ensures
        spec_html_escape(s) == s,
    decreases s.len(),
{
    if s.len() > 0 {
        assert(!is_markup_char(s[s.len() - 1]));
        html_escape_keeps_plain_text(s.drop_last());
        assert(spec_html_escape(s) =~= s);
    }
}

/// Escaping works character by character: escaping two texts one after the
/// other gives the escaping of the two together.
pub proof fn html_escape_concat(a: Seq<char>, b: Seq<char>)
    ensures
        spec_html_escape(a + b) == spec_html_escape(a) + spec_html_escape(b),
    decreases b.len(),
{
    if b.len() == 0 {
        assert(a + b =~= a);
        assert(spec_html_escape(a) + spec_html_escape(b) =~= spec_html_escape(a));
    } else {
        html_escape_concat(a, b.drop_last());
        assert((a + b).drop_last() =~= a + b.drop_last());
        assert((a + b).last() == b.last());
        assert(spec_html_escape(a + b) =~= spec_html_escape(a) + spec_html_escape(b));
    }
}

proof fn lemma_escape_len(s: Seq<char>)
    ensures
        spec_html_escape(s).len() >= s.len(),
    decreases s.len(),
{
    reveal_strlit("&amp;");
    reveal_strlit("&lt;");
    reveal_strlit("&gt;");
    reveal_strlit("&quot;");
    if s.len() > 0 {
        lemma_escape_len(s.drop_last());
    }
}

proof fn lemma_escape_first(s: Seq<char>)
    requires
        s.len() > 0,
    ensures
        spec_html_escape(s) == escape_char(s[0]) + spec_html_escape(s.drop_first()),
{
    html_escape_concat(seq![s[0]], s.drop_first());
    assert(seq![s[0]] + s.drop_first() =~= s);
    assert(seq![s[0]].drop_last() =~= Seq::<char>::empty());
    assert(spec_html_escape(Seq::<char>::empty()) =~= Seq::<char>::empty());
    assert(spec_html_escape(seq![s[0]]) =~= escape_char(s[0]));
}

proof fn lemma_escape_char_prefix_determines(x: char, y: char, rx: Seq<char>, ry: Seq<char>)
    requires
        escape_char(x) + rx == escape_char(y) + ry,
    ensures
        x == y,
        rx == ry,
{
    reveal_strlit("&amp;");
    reveal_strlit("&lt;");
    reveal_strlit("&gt;");
    reveal_strlit("&quot;");
    let ex = escape_char(x);
    let ey = escape_char(y);
    let t = ex + rx;
    assert(t[0] == ex[0]);
    assert(t[0] == ey[0]);
    if is_markup_char(x) {
        assert(t[1] == ex[1]);
        assert(t[1] == ey[1]);
    }
    assert(ex == ey);
    assert(rx =~= t.subrange(ex.len() as int, t.len() as int));
    assert(ry =~= t.subrange(ey.len() as int, t.len() as int));
}

/// Escaping loses nothing: two texts with the same escaped form are the same text.
pub proof fn html_escape_injective(a: Seq<char>, b: Seq<char>)
    requires
        spec_html_escape(a) == spec_html_escape(b),
    ensures
        a == b,
    decreases a.len(),
{
    if a.len() == 0 || b.len() == 0 {
        lemma_escape_len(a);
        lemma_escape_len(b);
        if a.len() > 0 {
            lemma_escape_first(a);
            assert(escape_char(a[0]).len() > 0) by {
                reveal_strlit("&amp;");
                reveal_strlit("&lt;");
                reveal_strlit("&gt;");
                reveal_strlit("&quot;");
            }
        }
        if b.len() > 0 {
            lemma_escape_first(b);
            assert(escape_char(b[0]).len() > 0) by {
                reveal_strlit("&amp;");
                reveal_strlit("&lt;");
                reveal_strlit("&gt;");
                reveal_strlit("&quot;");
            }
        }
        assert(a =~= b);
    } else {
        lemma_escape_first(a);
        lemma_escape_first(b);
        lemma_escape_char_prefix_determines(a[0], b[0], spec_html_escape(a.drop_first()), spec_html_escape(b.drop_first()));
        html_escape_injective(a.drop_first(), b.drop_first());
        assert(a =~= seq![a[0]] + a.drop_first());
        assert(b =~= seq![b[0]] + b.drop_first());
    }
}

/// The entity that stands for `&`.
pub open spec fn amp_entity() -> Seq<char> {
    seq!['&', 'a', 'm', 'p', ';']
}

/// The entity that stands for `<`.
pub open spec fn lt_entity() -> Seq<char> {
    seq!['&', 'l', 't', ';']
}

/// The entity that stands for `>`.
pub open spec fn gt_entity() -> Seq<char> {
    seq!['&', 'g', 't', ';']
}

/// The entity that stands for `"`.
pub open spec fn quot_entity() -> Seq<char> {
    seq!['&', 'q', 'u', 'o', 't', ';']
}

/// Decodes the four entities that escaping writes, reading from left to right;
/// every other character stands for itself.
pub open spec fn html_unescape(s: Seq<char>) -> Seq<char>
    decreases s.len(),
{
    if s.len() == 0 {
        Seq::empty()
    } else if amp_entity().is_prefix_of(s) {
        seq!['&'] + html_unescape(s.skip(5))
    } else if lt_entity().is_prefix_of(s) {
        seq!['<'] + html_unescape(s.skip(4))
    } else if gt_entity().is_prefix_of(s) {
        seq!['>'] + html_unescape(s.skip(4))
    } else if quot_entity().is_prefix_of(s) {
        seq!['"'] + html_unescape(s.skip(6))
    } else {
        seq![s[0]] + html_unescape(s.drop_first())
    }
}

proof fn lemma_unescape_step(c: char, t: Seq<char>)
    ensures
        html_unescape(escape_char(c) + t) == seq![c] + html_unescape(t),
{
    reveal_strlit("&amp;");
    reveal_strlit("&lt;");
    reveal_strlit("&gt;");
    reveal_strlit("&quot;");
    let e = escape_char(c);
    let u = e + t;
    if c == '&' {
        assert(e =~= amp_entity());
        assert(u.subrange(0, 5) =~= amp_entity());
        assert(u.skip(5) =~= t);
    } else if c == '<' {
        assert(e =~= lt_entity());
        assert(u[1] == 'l');
        assert(!amp_entity().is_prefix_of(u));
        assert(u.subrange(0, 4) =~= lt_entity());
        assert(u.skip(4) =~= t);
    } else if c == '>' {
        assert(e =~= gt_entity());
        assert(u[1] == 'g');
        assert(!amp_entity().is_prefix_of(u));
        assert(!lt_entity().is_prefix_of(u));
        assert(u.subrange(0, 4) =~= gt_entity());
        assert(u.skip(4) =~= t);
    } else if c == '"' {
        assert(e =~= quot_entity());
        assert(u[1] == 'q');
        assert(!amp_entity().is_prefix_of(u));
        assert(!lt_entity().is_prefix_of(u));
        assert(!gt_entity().is_prefix_of(u));
        assert(u.subrange(0, 6) =~= quot_entity());
        assert(u.skip(6) =~= t);
    } else {
        assert(e =~= seq![c]);
        assert(u[0] == c);
        assert(!amp_entity().is_prefix_of(u));
        assert(!lt_entity().is_prefix_of(u));
        assert(!gt_entity().is_prefix_of(u));
        assert(!quot_entity().is_prefix_of(u));
        assert(u.drop_first() =~= t);
    }
}

/// Decoding escaped text gives the text back.
pub proof fn html_unescape_inverts_escape(s: Seq<char>)
    ensures
        html_unescape(spec_html_escape(s)) == s,
    decreases s.len(),
{
    if s.len() == 0 {
        assert(spec_html_escape(s) =~= Seq::<char>::empty());
    } else {
        lemma_escape_first(s);
        lemma_unescape_step(s[0], spec_html_escape(s.drop_first()));
        html_unescape_inverts_escape(s.drop_first());
        assert(seq![s[0]] + s.drop_first() =~= s);
    }
}

/// A configured binary is used as it is, whatever the lookups found, even
/// when they found nothing.
pub proof fn binary_override_wins(binary_override: Seq<char>, located: Seq<Option<Seq<char>>>, kind: BrowserKind)
    ensures
        spec_resolve_binary(Some(binary_override), located, kind) == Ok::<Seq<char>, BrowserError>(binary_override),
{
}

/// Without an override, the binary is the path found by the first lookup
/// that found one: every earlier lookup found nothing.
pub proof fn first_found_binary_is_used(located: Seq<Option<Seq<char>>>, i: int, path: Seq<char>, kind: BrowserKind)
    requires
        0 <= i < located.len(),
        located[i] == Some(path),
        forall|j: int| 0 <= j < i ==> #[trigger] located[j] is None,
    ensures
        spec_resolve_binary(None, located, kind) == Ok::<Seq<char>, BrowserError>(path),
    decreases i,
{
    if i > 0 {
        assert forall|j: int| 0 <= j < i - 1 implies #[trigger] located.drop_first()[j] is None by {
            assert(located.drop_first()[j] == located[j + 1]);
        }
        first_found_binary_is_used(located.drop_first(), i - 1, path, kind);
        assert(located[0] is None);
    }
}

/// Without an override and with every lookup failed, the error names the
/// browser that was not found.
pub proof fn no_binary_found_is_an_error(located: Seq<Option<Seq<char>>>, kind: BrowserKind)
    requires
        forall|j: int| 0 <= j < located.len() ==> #[trigger] located[j] is None,
    ensures
        spec_resolve_binary(None, located, kind) == Err::<Seq<char>, BrowserError>(BrowserError::NotFoundInPath(kind)),
    decreases located.len(),
{
    if located.len() > 0 {
        assert forall|j: int| 0 <= j < located.len() - 1 implies #[trigger] located.drop_first()[j] is None by {
            assert(located.drop_first()[j] == located[j + 1]);
        }
        no_binary_found_is_an_error(located.drop_first(), kind);
        assert(located[0] is None);
    }
}

proof fn lemma_bookmark_line_at(tabs: Seq<ToolbarTab>, i: int) -> (k: int)
    requires
        0 <= i < tabs.len(),
    ensures
        0 <= k,
        k + spec_bookmark_line(tabs[i]).len() <= spec_bookmark_lines(tabs).len(),
        spec_bookmark_lines(tabs).subrange(k, k + spec_bookmark_line(tabs[i]).len()) == spec_bookmark_line(tabs[i]),
    decreases tabs.len(),
{
    let lines = spec_bookmark_lines(tabs);
    let line = spec_bookmark_line(tabs[i]);
    if i == tabs.len() - 1 {
        let k: int = spec_bookmark_lines(tabs.drop_last()).len() as int;
        assert(lines.subrange(k, k + line.len()) =~= line);
        k
    } else {
        let k = lemma_bookmark_line_at(tabs.drop_last(), i);
        let prev = spec_bookmark_lines(tabs.drop_last());
        assert(tabs.drop_last()[i] == tabs[i]);
        assert(lines.subrange(k, k + line.len()) =~= prev.subrange(k, k + line.len()));
        k
    }
}

/// The Firefox bookmarks file holds a line for every tab, whose link is the
/// tab's URL and whose text is the tab's label, both HTML-escaped.
pub proof fn bookmarks_html_lists_every_tab(tabs: Seq<ToolbarTab>, i: int)
    requires
        0 <= i < tabs.len(),
    ensures
        has_substring(
            spec_bookmarks_html(tabs),
            "        <DT><A HREF=\""@ + spec_html_escape(tabs[i].url@) + "\">"@ + spec_html_escape(tabs[i].label@)
                + "</A>\n"@,
        ),
{
    let line = spec_bookmark_line(tabs[i]);
    let k = lemma_bookmark_line_at(tabs, i);
    let file = spec_bookmarks_html(tabs);
    let lines = spec_bookmark_lines(tabs);
    let at: int = BOOKMARKS_HTML_HEAD@.len() as int + k;
    assert(file.subrange(at, at + line.len()) =~= lines.subrange(k, k + line.len()));
}

/// A cached download is kept for 7 days (604800 seconds): a younger file is
/// reused, an older one is fetched again, as is one that cannot be read or whose
/// modification time lies in the future.
pub proof fn downloads_expire_after_seven_days(secs: u64, nanos: u32)
    ensures
        secs < 604800 || (secs == 604800 && nanos == 0) ==> !spec_needs_download(CachedFile::Age { secs, nanos }),
        secs > 604800 || (secs == 604800 && nanos > 0) ==> spec_needs_download(CachedFile::Age { secs, nanos }),
        spec_needs_download(CachedFile::Unreadable),
        spec_needs_download(CachedFile::ModifiedInFuture),
{
}

/// A leftover profile is removed when its owner has exited, or, without a
/// readable PID file, when it is older than an hour (3600 seconds); otherwise it is kept.
pub proof fn stale_profiles(owner_alive: Option<bool>, secs: u64, nanos: u32)
    ensures
        spec_is_stale_profile(Some(false), Some((secs, nanos))),
        spec_is_stale_profile(Some(false), None),
        !spec_is_stale_profile(Some(true), Some((secs, nanos))),
        secs > 3600 || (secs == 3600 && nanos > 0) ==> spec_is_stale_profile(None, Some((secs, nanos))),
        secs < 3600 || (secs == 3600 && nanos == 0) ==> !spec_is_stale_profile(None, Some((secs, nanos))),
        !spec_is_stale_profile(None, None),
{
}

/// Only directories whose name begins with `ephemeral-browser-` are profile candidates.
pub proof fn profile_candidates(name: Seq<char>, is_dir: bool)
    ensures
        spec_is_profile_candidate(name, is_dir) <==> is_dir && name.len() >= 18
            && name.subrange(0, 18) == "ephemeral-browser-"@,
{
    reveal_strlit("ephemeral-browser-");
}

/// A PID file may hold the PID with a leading `+` and with whitespace around
/// it; it still reads as that PID.
pub proof fn pid_file_tolerates_sign_and_spaces(pid: u32, before: Seq<char>, after: Seq<char>)
    requires
        forall|i: int| 0 <= i < before.len() ==> is_whitespace(#[trigger] before[i]),
        forall|i: int| 0 <= i < after.len() ==> is_whitespace(#[trigger] after[i]),
    ensures
        spec_parse_pid(before + seq!['+'] + decimal(pid as nat) + after) == Some(pid),
        spec_parse_pid(before + decimal(pid as nat) + after) == Some(pid),
{
    lemma_decimal_digits(pid as nat);
    let d = decimal(pid as nat);
    assert(is_digit(d[0]) && is_digit(d.last()));
    lemma_trim_around(before, seq!['+'] + d, after);
    assert(before + seq!['+'] + d + after =~= before + (seq!['+'] + d) + after);
    assert(unsigned_digits(seq!['+'] + d) =~= d);
    lemma_trim_around(before, d, after);
    assert(unsigned_digits(d) == d);
}

proof fn lemma_trim_around(before: Seq<char>, core: Seq<char>, after: Seq<char>)
    requires
        forall|i: int| 0 <= i < before.len() ==> is_whitespace(#[trigger] before[i]),
        forall|i: int| 0 <= i < after.len() ==> is_whitespace(#[trigger] after[i]),
        core.len() > 0,
        !is_whitespace(core[0]),
        !is_whitespace(core.last()),
    ensures
        spec_trim(before + core + after) == core,
{
    lemma_trim_start_skips(before, core + after);
    assert(before + core + after =~= before + (core + after));
    lemma_trim_end_skips(core, after);
}

proof fn lemma_trim_start_skips(ws: Seq<char>, rest: Seq<char>)
    requires
        forall|i: int| 0 <= i < ws.len() ==> is_whitespace(#[trigger] ws[i]),
        rest.len() > 0,
        !is_whitespace(rest[0]),
    ensures
        trim_start(ws + rest) == rest,
    decreases ws.len(),
{
    if ws.len() == 0 {
        assert(ws + rest =~= rest);
    } else {
        assert(is_whitespace(ws[0]));
        assert((ws + rest).drop_first() =~= ws.drop_first() + rest);
        assert forall|i: int| 0 <= i < ws.drop_first().len() implies is_whitespace(#[trigger] ws.drop_first()[i]) by {
            assert(ws.drop_first()[i] == ws[i + 1]);
        }
        lemma_trim_start_skips(ws.drop_first(), rest);
    }
}

proof fn lemma_trim_end_skips(rest: Seq<char>, ws: Seq<char>)
    requires
        forall|i: int| 0 <= i < ws.len() ==> is_whitespace(#[trigger] ws[i]),
        rest.len() > 0,
        !is_whitespace(rest.last()),
    ensures
        trim_end(rest + ws) == rest,
    decreases ws.len(),
{
    if ws.len() == 0 {
        assert(rest + ws =~= rest);
    } else {
        assert(is_whitespace(ws[ws.len() - 1]));
        assert((rest + ws).drop_last() =~= rest + ws.drop_last());
        assert forall|i: int| 0 <= i < ws.drop_last().len() implies is_whitespace(#[trigger] ws.drop_last()[i]) by {
            assert(ws.drop_last()[i] == ws[i]);
        }
        lemma_trim_end_skips(rest, ws.drop_last());
    }
}

} // verus!

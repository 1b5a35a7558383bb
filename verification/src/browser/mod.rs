//! The supported browsers and what is shared between them.

pub mod chromium;
pub mod common;
pub mod firefox;

use vstd::prelude::*;

use crate::config::{BrowserKind, Config};

pub use chromium::Chromium;
pub use firefox::Firefox;

verus! {

/// Why preparing or launching a browser failed, where the library decides it.
#[derive(Debug, Clone, Copy, PartialEq, Eq, Structural)]
pub enum BrowserError {
    /// A step needed the profile directory before it was created.
    ProfileNotSetUp,
    /// No binary of this browser was found.
    NotFoundInPath(BrowserKind),
    /// The release description is not JSON.
    InvalidReleaseJson,
    /// The release description lists no assets.
    NoReleaseAssets,
    /// No asset of the release is a Chromium zip with a download URL.
    ChromiumZipNotFound,
}

impl BrowserError {
    pub open spec fn spec_message(self) -> Seq<char> {
        match self {
            BrowserError::ProfileNotSetUp => "profile directory not set up"@,
            BrowserError::NotFoundInPath(kind) => kind.spec_name() + " not found in PATH"@,
            BrowserError::InvalidReleaseJson => "parsing release JSON"@,
            BrowserError::NoReleaseAssets => "no assets in release"@,
            BrowserError::ChromiumZipNotFound =>
                "chromium zip not found in uBlock Origin Lite release assets"@,
        }
    }

    /// The message that reports this error.
    pub fn message(self) -> (m: String)
        ensures
            m@ == self.spec_message(),
    {
        match self {
            BrowserError::ProfileNotSetUp => "profile directory not set up".to_owned(),
            BrowserError::NotFoundInPath(kind) => {
                let mut m = kind.name().to_owned();
                m.append(" not found in PATH");
                m
            },
            BrowserError::InvalidReleaseJson => "parsing release JSON".to_owned(),
            BrowserError::NoReleaseAssets => "no assets in release".to_owned(),
            BrowserError::ChromiumZipNotFound => "chromium zip not found in uBlock Origin Lite release assets".to_owned(),
        }
    }
}

/// A browser of either family, as `new` chooses it.
pub enum BrowserInstance {
    Firefox(Firefox),
    Chromium(Chromium),
}

/// The browser that the configuration asks for, before its profile exists:
/// Firefox for `firefox`, and Chromium of the configured kind otherwise.
pub fn new(cfg: &Config) -> (b: BrowserInstance)
    ensures
        match b {
            BrowserInstance::Firefox(f) => cfg.browser == BrowserKind::Firefox && f@ == Firefox::spec_default(),
            BrowserInstance::Chromium(c) => cfg.browser != BrowserKind::Firefox && c@ == Chromium::spec_new(cfg.browser),
        },
{
    match cfg.browser {
        BrowserKind::Firefox => BrowserInstance::Firefox(Firefox::default()),
        BrowserKind::Chromium => BrowserInstance::Chromium(Chromium::new(BrowserKind::Chromium)),
        BrowserKind::Chrome => BrowserInstance::Chromium(Chromium::new(BrowserKind::Chrome)),
    }
}

} // verus!

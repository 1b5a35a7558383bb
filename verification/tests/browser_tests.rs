use ephemeral_browser::browser::{new, BrowserError, BrowserInstance};
use ephemeral_browser::config::{BrowserKind, Config};

#[test]
fn new_picks_the_configured_family() {
    let mut cfg = Config::default();
    assert!(matches!(new(&cfg), BrowserInstance::Firefox(_)));
    cfg.browser = BrowserKind::Chromium;
    match new(&cfg) {
        BrowserInstance::Chromium(c) => assert_eq!(c.kind(), BrowserKind::Chromium),
        _ => panic!("expected chromium"),
    }
    cfg.browser = BrowserKind::Chrome;
    match new(&cfg) {
        BrowserInstance::Chromium(c) => assert_eq!(c.kind(), BrowserKind::Chrome),
        _ => panic!("expected chrome"),
    }
}

#[test]
fn error_messages() {
    assert_eq!(BrowserError::ProfileNotSetUp.message(), "profile directory not set up");
    assert_eq!(BrowserError::NotFoundInPath(BrowserKind::Chrome).message(), "chrome not found in PATH");
    assert_eq!(BrowserError::NotFoundInPath(BrowserKind::Firefox).message(), "firefox not found in PATH");
    assert_eq!(BrowserError::NoReleaseAssets.message(), "no assets in release");
    assert_eq!(
        BrowserError::ChromiumZipNotFound.message(),
        "chromium zip not found in uBlock Origin Lite release assets"
    );
}

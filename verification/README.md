# ephemeral_browser

Launches Firefox, Chromium or Google Chrome in a throw-away, privacy-oriented
profile that is deleted when the browser exits.

- `src/` is the library, verified with Verus: the configuration model and its
  defaults, the files written into a new profile (`user.js`, `userChrome.css`,
  Chromium `Preferences` and `Bookmarks`, the Netscape bookmarks file, the theme
  extension), the launch arguments, the choice of browser binary and of the
  configuration file, the Chromium extension id, reading the uBlock Origin Lite
  release description and choosing its asset, the PID file format, when a
  cached download is refreshed, and which leftover profiles are stale.
- `app/` is the program around it: probing for and reading `config.toml`, creating and removing
  directories, downloading, unpacking, running `sha256sum` and the browser.
- `tests/` exercises the library on concrete values.

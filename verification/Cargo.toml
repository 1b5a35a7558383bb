[package]
name = "ephemeral-browser"
version = "0.1.0"
edition = "2021"
publish = false

[dependencies]
anyhow = "1"
ctrlc = "3"
dirs = "*"
serde = { version = "1", features = ["derive"] }
serde_json = "1"
tempfile = "3"
toml = "*"
ureq = { version = "3", features = ["native-tls"] }
which = "*"
zip = { version = "*", default-features = false, features = ["deflate"] }

[package]
name = "audiobook_tagger"
version = "0.1.0"
edition = "2021"
publish = false

[dependencies]
anyhow = "1"
clap = { version = "4", features = ["cargo"] }
glob = "0.3"
id3 = "1"
mp3-duration = "0.1"
prettytable-rs = "0.10"
serde = { version = "1", features = ["derive"] }
serde_json = "1"
tempfile = "3"
thiserror = "*"
toml = { version = "*", features = ["preserve_order"] }

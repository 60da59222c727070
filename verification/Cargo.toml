[package]
name = "codex-telegram-bridge"
version = "0.2.0"
edition = "2021"
publish = false

[dependencies]
sha2 = "0.10"
serde_json = "1"
anyhow = "1"
rusqlite = { version = "*", features = ["bundled"] }
ureq = { version = "3", features = ["json"] }
fs2 = "0.4"
dirs = "*"
which = "*"

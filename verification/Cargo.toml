[package]
name = "term-cat"
version = "0.1.0"
edition = "2021"
publish = false

[dependencies]
comp-cat-rs = "*"
rig-cat = "*"
serde = { version = "1", features = ["derive"] }
serde_json = "1"
ureq = { version = "3", default-features = false }
crossterm = "*"
ratatui = "*"

[package]
name = "ruborute"
version = "0.1.0"
edition = "2021"
publish = false

[dependencies]
clap = { version = "3", features = ["derive"] }
failure = "0.1"
mysql = "23"
prettytable-rs = "0.8"
quick-xml = { version = "0.22", features = ["serialize"] }
rust-fuzzy-search = "0.1"
rustyline = "9"
rustyline-derive = "0.6"
serde = { version = "1", features = ["derive"] }
serde_json = "1"
toml = "0.5"

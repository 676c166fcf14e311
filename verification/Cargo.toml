[package]
name = "codey"
version = "0.1.0"
edition = "2021"
publish = false

[dependencies]
crossterm = "0.28"
http = "1"
ratatui = { version = "0.29", features = ["unstable-widget-ref"] }
reqwest = { version = "0.12", default-features = false }
textwrap = "0.16"
tokio = { version = "1", features = ["rt", "sync", "time", "macros"] }
toml_edit = "0.23"
tracing = "0.1"
url = "2"

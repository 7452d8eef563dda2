[package]
name = "tab_runner"
version = "0.1.0"
edition = "2021"
publish = false

[dependencies]
serde_json = "1"
jsonschema = { version = "0.17", default-features = false }
serde = { version = "1", features = ["derive"] }
tokio = { version = "1", features = ["process", "io-util", "time", "rt", "macros", "sync"] }
tempfile = "3"
which = "*"
dirs = "*"
tauri = { version = "2", default-features = false }

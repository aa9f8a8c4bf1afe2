[package]
name = "maestro"
version = "0.1.0"
edition = "2021"
publish = false

[dependencies]
jack = "0.13"
jack-sys = "0.5"
log = "0.4"
reqwest = { version = "0.12", default-features = false, features = ["json"] }
rosc = "=0.10.1"
serde = { version = "1", features = ["derive"] }
serde_json = "1"
tauri = { version = "2", default-features = false }
tokio = { version = "1", features = ["time"] }
toml = "=0.8.23"

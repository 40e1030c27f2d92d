[package]
name = "swaddle"
version = "0.4.0"
edition = "2021"
publish = false

[dependencies]
config = { version = "0.15", default-features = false, features = ["toml"] }
dbus = { version = "0.9", features = ["vendored"] }
dirs = "6"
env_logger = "0.11"
log = "0.4"
pipewire = "0.9"
reqwest = { version = "0.12", default-features = false, features = ["blocking", "json", "rustls-tls"] }
serde = { version = "1", features = ["derive"] }
serde_json = "1"
toml = "0.9"

[package]
name = "asset_server"
version = "0.1.0"
edition = "2021"
publish = false

[dependencies]
actix-web = "=4.18.1"
config = { version = "=0.14.1", default-features = false, features = ["toml", "json", "yaml", "ini"] }
env_logger = "=0.11.11"
futures = "=0.3.34"
log = "=0.4.34"
mime_guess = "=2.0.5"
prometheus = { version = "=0.13.4", default-features = false }
rust-embed = { version = "=8.13.0", features = ["interpolate-folder-path"] }

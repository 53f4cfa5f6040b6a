[package]
name = "grafana-apprise-adapter"
version = "0.1.0"
edition = "2021"
publish = false

[dependencies]
url = "=2.5.8"
serde = { version = "=1.0.229", features = ["derive"] }
actix-web = { version = "=4.18.1", default-features = false, features = ["macros"] }
awc = { version = "=3.11.0", default-features = false }
env_logger = { version = "=0.11.11", default-features = false }
log = "=0.4.35"

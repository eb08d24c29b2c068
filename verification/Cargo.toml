[package]
name = "sentinel"
version = "0.1.0"
edition = "2021"
publish = false

[dependencies]
reqwest = { version = "=0.13.5", default-features = false, features = ["blocking"] }
serde = { version = "=1.0.229", features = ["derive"] }
serde_yaml = "=0.9.34"
yaml-merge-keys = { version = "=0.9.0", features = ["serde_yaml"] }
lettre = { version = "=0.11.23", default-features = false, features = ["smtp-transport", "builder", "rustls-tls"] }
log = "=0.4.34"
env_logger = "=0.11.11"

[package]
name = "iacgen"
version = "0.1.0"
edition = "2021"
publish = false

[dependencies]
actix-web = "4"
chrono = "0.4"
deadpool-postgres = "0.12"
dotenvy = "0.15"
env_logger = "0.11"
google-cloud-storage = "0.15"
reqwest = { version = "0.11", default-features = false, features = ["json"] }
serde = { version = "1", features = ["derive"] }
serde_json = "1"
tokio-postgres = "0.7"
walkdir = "2"
zip = "0.6"

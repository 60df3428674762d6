[package]
name = "sonnen_exporter"
version = "0.1.0"
edition = "2021"
publish = false

[dependencies]
actix-web = "0.7"
bytes = "0.4"
lazy_static = "1"
prometheus = "0.13"
reqwest = "0.9"
serde = { version = "1", features = ["derive"] }
serde_json = "1"
toml = "0.5"

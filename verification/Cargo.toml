[package]
name = "pulsar_ui"
version = "0.1.0"
edition = "2021"
publish = false

[dependencies]
chrono = "*"
urlencoding = "*"
serde = { version = "*", features = ["derive"] }
serde_json = "*"
dirs = "*"
directories = "*"
reqwest = { version = "*", default-features = false, features = ["blocking", "json", "rustls-tls"] }

[package]
name = "ddev_manager"
version = "0.1.0"
edition = "2021"
publish = false

[dependencies]
dirs = "5"
headless_chrome = "1"
once_cell = "1"
reqwest = { version = "0.12", default-features = false, features = ["rustls-tls"] }
serde = { version = "1", features = ["derive"] }
serde_json = "1"
thiserror = "1"
tokio = { version = "1", features = ["process", "sync"] }

[package]
name = "rpel"
version = "0.1.0"
edition = "2021"
publish = false

[dependencies]
anyhow = "1"
chrono = { version = "0.4", features = ["serde"] }
config = { version = "*", default-features = false }
deadpool-postgres = "*"
serde = { version = "1", features = ["derive"] }
thiserror = "1"
tokio-postgres = { version = "0.7", features = ["with-chrono-0_4"] }

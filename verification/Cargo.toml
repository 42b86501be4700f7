[package]
name = "breeze"
version = "0.1.0"
edition = "2021"
publish = false

[dependencies]
anyhow = "*"
bollard = "*"
chrono = "*"
dotenvy = "*"
mc-query = "*"
poise = "*"
reqwest = { version = "*", default-features = false, features = ["rustls-tls"] }
serde = { version = "*", features = ["derive"] }
serde_default_utils = "*"
thiserror = "*"
tokio = { version = "*", features = ["macros", "rt-multi-thread"] }
toml = "*"
tracing = "*"
tracing-subscriber = "*"
uuid = { version = "*", features = ["v4"] }

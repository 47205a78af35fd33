[package]
name = "msg_store"
version = "0.1.0"
edition = "2021"
publish = false

[dependencies]
rustc-hash = "2"
url = "2"
serde = { version = "1", features = ["derive"] }
serde_json = "1"
rmp-serde = "1"
toml = "0.8"
chrono = { version = "0.4", features = ["serde"] }
directories = "5"
thiserror = "1"
anyhow = "1"
once_cell = "1"
open = "5"
clap = { version = "4", features = ["cargo"] }
tracing = "0.1"
tracing-subscriber = { version = "0.3", features = ["env-filter"] }
tokio = { version = "1", features = ["sync", "time", "rt"] }
reqwest = { version = "0.12", default-features = false, features = ["json", "rustls-tls"] }
image = { version = "0.25", default-features = false, features = ["png", "jpeg"] }

[package]
name = "jessy"
version = "0.1.0"
edition = "2021"
publish = false

[dependencies]
anyhow = "1"
async-trait = "0.1"
chrono = "0.4"
clap = { version = "4", features = ["derive"] }
futures-util = "0.3"
hex = "=0.4.3"
regex = "=1.13.1"
reqwest = { version = "0.12", default-features = false, features = ["json", "rustls-tls"] }
rig-core = "=0.32.0"
schemars = "*"
serde = { version = "1", features = ["derive"] }
serde_json = "=1.0.154"
serde_yaml = "0.9"
sha2 = "=0.10.9"
sqlx = { version = "0.8", default-features = false, features = ["runtime-tokio", "sqlite"] }
tokio = { version = "1", features = ["full"] }
tokio-tungstenite = "*"
tracing = "0.1"
tracing-subscriber = { version = "0.3", features = ["env-filter"] }
url = "=2.5.8"
whatlang = "=0.18.0"

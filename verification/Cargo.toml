[package]
name = "kether_daemon"
version = "0.1.0"
edition = "2021"
publish = false

[dependencies]
anyhow = "1"
async-trait = "0.1"
axum = "0.7"
chrono = { version = "=0.4.45", features = ["serde"] }
md5 = "=0.7.0"
notify = "6"
regex = "=1.13.1"
reqwest = { version = "0.12", default-features = false, features = ["json", "rustls-tls"] }
serde = { version = "1", features = ["derive"] }
serde_json = "1"
sourcepak = "=0.3.0"
sqlx = { version = "0.8", default-features = false, features = ["runtime-tokio", "sqlite"] }
steam-vent = "*"
steam-vent-proto-steam = "*"
thiserror = "1"
tokio = { version = "1", features = ["full"] }
toml = "0.8"
tracing = "0.1"
tracing-subscriber = { version = "0.3", features = ["env-filter"] }
url = "=2.5.8"
uuid = { version = "=1.29.0", features = ["v4"] }
zip = { version = "0.6", default-features = false, features = ["deflate"] }

[package]
name = "rustaria"
version = "0.1.0"
edition = "2021"
publish = false

[dependencies]
regex = "1"
chrono = { version = "0.4", features = ["serde"] }
shellexpand = "3"
bincode = "1"
serde = { version = "1", features = ["derive"] }
serde_json = "1"
toml = "0.8"
anyhow = "1"
tokio = { version = "1", features = ["full"] }
clap = { version = "4", features = ["derive"] }
reqwest = { version = "0.12", default-features = false, features = ["json", "rustls-tls"] }
sqlx = { version = "0.8", default-features = false, features = ["runtime-tokio", "sqlite", "derive"] }
ratatui = "0.29"
crossterm = "0.28"
futures-util = "0.3"
tokio-tungstenite = "0.24"
notify-rust = "4"
arboard = { version = "3", default-features = false }
flate2 = "1"
tar = "0.4"
zip = { version = "2", default-features = false, features = ["deflate"] }
tracing = "0.1"
tracing-subscriber = { version = "0.3", features = ["env-filter"] }

[dev-dependencies]
tempfile = "3"

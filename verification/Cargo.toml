[package]
name = "plugin_repository"
version = "0.1.0"
edition = "2021"
publish = false

[dependencies]
anyhow = "1"
axum = "0.7"
chrono = "=0.4.45"
clap = { version = "4", features = ["derive"] }
colored = "2"
dotenv = "0.15"
hex = "=0.4.3"
indicatif = "0.17"
mime_guess = "2"
rand = "0.8"
regex = "=1.13.1"
reqwest = { version = "0.11", default-features = false, features = ["json", "default-tls"] }
semver = "=1.0.28"
serde = { version = "1", features = ["derive"] }
serde_json = "1"
sha2 = "=0.10.9"
ssh2 = "0.9"
thiserror = "1"
tokio = { version = "1", features = ["full"] }
toml = "0.8"
tower-http = { version = "0.5", features = ["cors", "trace"] }
tracing = "0.1"
tracing-subscriber = "0.3"
walkdir = "2"
xmltree = { version = "=0.10.3", features = ["attribute-order"] }
zip = { version = "=0.6.6", default-features = false, features = ["deflate"] }

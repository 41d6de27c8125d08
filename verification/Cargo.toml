[package]
name = "git2-ox"
version = "0.1.0"
edition = "2021"
publish = false

[dependencies]
git2 = { version = "=0.20.4", default-features = false }
chrono = { version = "=0.4.45", features = ["serde"] }
serde = { version = "=1.0.229", features = ["derive"] }
serde_json = "=1.0.154"
thiserror = "=2.0.21"
log = "=0.4.34"
env_logger = "=0.11.11"
clap = { version = "=4.6.7", features = ["derive"] }
tokio = { version = "=1.54.1", features = ["full"] }
axum = "=0.8.9"
axum-extra = { version = "=0.12.6", features = ["query"] }
axum-reverse-proxy = "=2.2.0"
hannibal = "=0.17.3"
http = "=1.5.0"
mime_guess = "=2.0.5"
notify = "=8.2.1"
notify-debouncer-mini = "=0.7.0"
open = "=5.4.5"
rust-embed = "=8.13.0"
utoipa = { version = "=6.0.0", features = ["chrono", "axum_extras"] }
utoipa-rapidoc = { version = "=7.0.0", features = ["axum"] }

[dev-dependencies]
tempfile = "=3.27.0"
uuid = { version = "=1.29.0", features = ["v4"] }

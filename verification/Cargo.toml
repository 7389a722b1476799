[package]
name = "masked_mails"
version = "0.1.0"
edition = "2021"
publish = false

[dependencies]
async-trait = "=0.1.92"
axum = { version = "=0.7.9", features = ["macros"] }
axum-login = "=0.15.3"
base64 = "=0.22.1"
chrono = { version = "=0.4.45", default-features = false, features = ["std"] }
clap = { version = "=4.6.7", features = ["derive", "env"] }
figment = { version = "=0.10.19", features = ["toml", "env"] }
humantime-serde = "=1.1.1"
mail-parser = "=0.9.4"
miette = "=7.6.0"
openidconnect = "=3.5.0"
rand = "=0.8.8"
serde = { version = "=1.0.229", features = ["derive"] }
serde_json = "=1.0.154"
sqlx = { version = "=0.7.4", default-features = false, features = ["postgres", "runtime-tokio", "time", "migrate", "macros"] }
thiserror = "=1.0.69"
time = "=0.3.55"
tokio = { version = "=1.54.1", features = ["macros", "rt-multi-thread", "net", "signal", "time"] }
tower-http = { version = "=0.5.2", features = ["compression-gzip", "trace"] }
tower-sessions = "=0.12.3"
tower-sessions-sqlx-store = { version = "=0.12.0", features = ["postgres"] }
tracing = "=0.1.44"
tracing-subscriber = { version = "=0.3.23", features = ["env-filter", "json"] }
url = { version = "=2.5.8", features = ["serde"] }

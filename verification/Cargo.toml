[package]
name = "bridge_core"
version = "0.1.0"
edition = "2021"
publish = false

[dependencies]
anyhow = "=1.0.104"
clap = { version = "=3.2.25", default-features = false, features = ["std", "derive"] }
color-eyre = { version = "=0.6.5", default-features = false }
dashmap = "=5.5.3"
dotenv = "=0.15.0"
educe = "=0.4.23"
matrix-sdk = { version = "=0.5.0", default-features = false, features = ["appservice", "e2e-encryption", "native-tls"] }
matrix-sdk-base = "=0.5.1"
matrix-sdk-sql = { version = "=0.1.0-beta.2", features = ["e2e-encryption"] }
rand = "=0.8.8"
sentry = { version = "=0.27.0", default-features = false, features = ["anyhow", "tracing", "backtrace", "panic"] }
serde = { version = "=1.0.229", features = ["derive"] }
serde_json = "=1.0.154"
serde_yaml = "=0.8.26"
signal-hook = "=0.3.18"
sqlx = { version = "=0.5.13", features = ["postgres", "runtime-tokio-native-tls", "json"] }
tokio = { version = "=1.54.1", features = ["macros", "rt-multi-thread", "sync", "time"] }
tracing = { version = "=0.1.44", features = ["log"] }
tracing-subscriber = { version = "=0.3.23", default-features = false, features = ["std", "fmt", "env-filter", "registry"] }
twilight-model = "=0.11.3"
url = { version = "=2.5.8", features = ["serde"] }

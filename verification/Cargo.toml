[package]
name = "twelve"
version = "0.1.0"
edition = "2021"
publish = false

[dependencies]
anyhow = "1"
async-signal = "0.2"
axum = "0.7"
envy = "0.4"
futures-lite = "2"
maud = "0.26"
serde = { version = "1", features = ["derive"] }
serde_json = "1"
sqlx = { version = "0.7", default-features = false, features = ["postgres", "runtime-tokio"] }
thiserror = "1"
tokio = { version = "1", features = ["macros", "net", "rt-multi-thread"] }
tower-http = { version = "0.5", features = ["fs", "trace"] }
tracing = "0.1"
tracing-subscriber = { version = "0.3", features = ["env-filter"] }

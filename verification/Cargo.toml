[package]
name = "servitor"
version = "0.1.0"
edition = "2021"
publish = false

[dependencies]
anyhow = "*"
argon2 = "=0.6.0"
axum = "=0.8.9"
axum-extra = { version = "=0.12.6", features = ["typed-header"] }
chrono = { version = "=0.4.45", features = ["serde"] }
log = "*"
password-hash = "=0.6.1"
pbkdf2 = { version = "=0.13.0", features = ["phc"] }
scrypt = { version = "=0.12.0", features = ["phc"] }
serde = { version = "*", features = ["derive"] }
thiserror = "*"
tokio = { version = "=1.53.2", features = ["macros", "rt-multi-thread", "signal", "net", "sync"] }
tracing-subscriber = { version = "*", features = ["env-filter"] }
zbus = { version = "=5.19.0", default-features = false, features = ["tokio"] }

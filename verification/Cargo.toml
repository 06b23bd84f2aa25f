[package]
name = "assistant_bot"
version = "0.1.0"
edition = "2021"
publish = false

[dependencies]
anyhow = "=1.0.104"
chrono = { version = "=0.4.45", default-features = false, features = ["std"] }
dptree = "=0.5.1"
log = "=0.4.34"
pretty_env_logger = "=0.5.0"
redis = { version = "=1.8.0", default-features = false, features = ["tokio-comp", "connection-manager"] }
serde = { version = "=1.0.229", features = ["derive"] }
sqlx = { version = "=0.8.6", default-features = false, features = ["sqlite", "runtime-tokio"] }
takecell = "<0.1.2"
teloxide = { version = "=0.17.0", features = ["macros"] }
thiserror = "=2.0.21"
tokio = { version = "=1.54.1", features = ["macros", "rt-multi-thread"] }

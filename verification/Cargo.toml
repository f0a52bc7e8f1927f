[package]
name = "data_collector"
version = "0.1.0"
edition = "2021"
publish = false

[dependencies]
anyhow = "*"
dotenv = "*"
serde = { version = "*", features = ["derive"] }
serde_json = "*"
sqlx = { version = "*", default-features = false, features = ["sqlite", "runtime-tokio"] }
thiserror = "*"
tokio = { version = "*", features = ["rt-multi-thread", "macros"] }

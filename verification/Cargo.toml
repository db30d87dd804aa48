[package]
name = "account_store"
version = "0.1.0"
edition = "2021"
publish = false

[dependencies]
anyhow = "1"
axum = { version = "*", features = ["ws"] }
chrono = "0.4"
scylla = "*"
sqlx = { version = "*", default-features = false, features = ["postgres", "runtime-tokio", "chrono", "uuid"] }
thiserror = "*"
tokio = { version = "1", features = ["full"] }
uuid = { version = "1", features = ["v4"] }

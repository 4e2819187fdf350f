[package]
name = "duck_do"
version = "0.1.0"
edition = "2021"
publish = false

[dependencies]
anyhow = "*"
chrono = "*"
clap = { version = "*", features = ["derive"] }
prettytable-rs = "*"
sqlx = { version = "*", features = ["runtime-tokio", "sqlite"] }
thiserror = "*"
tokio = { version = "*", features = ["rt-multi-thread", "macros"] }
uuid = { version = "*", features = ["v4"] }

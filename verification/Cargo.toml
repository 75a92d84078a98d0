[package]
name = "stock_bars"
version = "0.1.0"
edition = "2021"
publish = false

[dependencies]
chrono = "0.4"
alpaca_api_client = "*"
tindi = "*"
sqlx = { version = "*", default-features = false, features = ["sqlite", "runtime-tokio", "migrate"] }
tokio = { version = "1", features = ["macros", "rt-multi-thread"] }
clap = { version = "4", features = ["derive"] }
anyhow = "1"

[package]
name = "drawroom"
version = "0.1.0"
edition = "2021"
publish = false

[dependencies]
rand = "0.8"
serde = { version = "1", features = ["derive"] }
bincode = "1"
tokio = { version = "1", features = ["rt-multi-thread", "macros", "net", "sync", "time"] }
tokio-tungstenite = "0.17"
futures = "0.3"
futures-util = "0.3"
chrono = { version = "0.4", default-features = false, features = ["clock"] }
clap = { version = "3", features = ["derive"] }
warp = { version = "0.3", default-features = false }
reqwest = { version = "0.11", default-features = false }
sqlx = { version = "0.7", default-features = false, features = ["runtime-tokio", "sqlite"] }
async-trait = "0.1"

[package]
name = "brd"
version = "0.1.0"
edition = "2021"
publish = false

[dependencies]
maud = "0.26"
warp = "0.3"
sqlx = { version = "0.8", default-features = false, features = ["runtime-tokio", "postgres"] }
tokio = { version = "1", features = ["full"] }
dotenvy = "0.15"
bytes = "1"
futures-util = "0.3"
serde = { version = "1", features = ["derive"] }

[package]
name = "filehost"
version = "0.1.0"
edition = "2021"
publish = false

[dependencies]
anyhow = "1"
bcrypt = "*"
bytes = "1"
confy = "*"
futures = "0.3"
rand = "0.8"
serde = { version = "1", features = ["derive"] }
sqlx = { version = "*", default-features = false, features = ["mysql", "runtime-tokio", "chrono"] }
tokio = { version = "1", features = ["fs", "macros", "rt-multi-thread"] }
warp = { version = "0.3", default-features = false, features = ["multipart"] }

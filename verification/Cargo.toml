[package]
name = "zero2prod"
version = "0.1.0"
edition = "2021"
publish = false

[dependencies]
rand = "0.8"
uuid = { version = "1", features = ["v4"] }
serde = { version = "1", features = ["derive"] }
tide = "0.16"
async-std = { version = "1", features = ["attributes"] }
sqlx = { version = "0.8", default-features = false, features = ["postgres", "runtime-async-std"] }

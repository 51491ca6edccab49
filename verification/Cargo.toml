[package]
name = "kaulan"
version = "0.1.0"
edition = "2021"
publish = false

[dependencies]
reqwest = { version = "*", default-features = false }
uuid = { version = "1", features = ["v4"] }
chrono = { version = "0.4", default-features = false, features = ["clock"] }
gethostname = "*"
serde = { version = "1", features = ["derive"] }
serde_json = "1"
dirs = "*"

[package]
name = "ejsr"
version = "0.1.0"
edition = "2021"
publish = false

[dependencies]
url = "*"
md5 = "*"
http = "*"
tokio = { version = "*", features = ["rt", "fs", "time", "macros"] }
reqwest = { version = "*", default-features = false }
serde = { version = "*", features = ["derive"] }

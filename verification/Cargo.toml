[package]
name = "hitbtc"
version = "0.1.0"
edition = "2021"
publish = false

[dependencies]
bigdecimal = { version = "*", features = ["serde"] }
chrono = { version = "*", features = ["serde"] }
failure = "*"
headers = "*"
http = "*"
log = "*"
serde = { version = "*", features = ["derive"] }
serde_json = "*"
serde_urlencoded = "*"
uuid = { version = "*", features = ["serde"] }

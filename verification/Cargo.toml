[package]
name = "eventure"
version = "0.1.0"
edition = "2021"
publish = false

[dependencies]
regex = "*"
uuid = { version = "*", features = ["v4"] }
serde = { version = "*", features = ["derive"] }
serde_json = "*"
smol = "*"
futures = "*"
rdkafka = { version = "*", default-features = false }

[package]
name = "zeroclaw"
version = "0.1.0"
edition = "2021"
publish = false

[dependencies]
anyhow = "1"
async-trait = "0.1"
chrono = { version = "0.4", default-features = false, features = ["clock", "std"] }
hex = "0.4"
hmac = "0.12"
reqwest = { version = "0.12", default-features = false, features = ["json", "rustls-tls"] }
serde_json = { version = "1", default-features = false, features = ["std"] }
sha2 = "0.10"
tokio = { version = "1", default-features = false, features = ["io-std", "io-util", "rt", "sync", "time", "macros"] }
tracing = { version = "0.1", default-features = false, features = ["std"] }
uuid = { version = "1", default-features = false, features = ["v4", "std"] }

[package]
name = "elysium"
version = "0.1.0"
edition = "2021"
publish = false

[dependencies]
ahash = "0.8"
askama = "0.12"
jsonwebtoken = "9"
lettre = { version = "0.11", default-features = false, features = ["builder", "smtp-transport"] }
rand = "0.8"
scc = "2"
serde = { version = "1", features = ["derive"] }
serde_json = "1"
tokio = { version = "1", features = ["rt-multi-thread", "net", "time", "signal"] }
tonic = "0.12"
tonic-middleware = "*"
tonic-web = "0.12"
tracing = "0.1"
tracing-subscriber = "0.3"
